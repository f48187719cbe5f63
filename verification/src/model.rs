//! The data model: rollout strategies, feature records, and the versioned
//! dataset envelope, together with the well-formedness predicates that the
//! generators establish.

use vstd::prelude::*;
use vstd::assert_seqs_equal;

use crate::providers::SECONDS_PER_DAY;
use crate::providers::SECONDS_PER_YEAR;

verus! {

/// The schema version that every generated envelope carries.
pub const ENVELOPE_VERSION: u32 = 2;

/// One rollout strategy. Only two kinds are ever generated: a percentage
/// rollout, whose single `rollout` parameter and sort order are randomized,
/// and the unconditional default strategy, which has no parameters and sort
/// order zero.
pub enum Strategy {
    FlexibleRollout { rollout: u32, sort_order: u32 },
    DefaultStrategy,
}

impl Strategy {
    /// The value of the single `rollout` parameter, where the strategy has
    /// a parameter mapping at all.
    pub open spec fn rollout_parameter(self) -> Option<u32> {
        match self {
            Strategy::FlexibleRollout { rollout, .. } => Some(rollout),
            Strategy::DefaultStrategy => None,
        }
    }

    /// The strategy's sort order.
    pub open spec fn sort_order(self) -> int {
        match self {
            Strategy::FlexibleRollout { sort_order, .. } => sort_order as int,
            Strategy::DefaultStrategy => 0,
        }
    }

    /// Whether the strategy carries a parameter mapping.
    pub open spec fn has_parameters(self) -> bool {
        self matches Strategy::FlexibleRollout { .. }
    }

    /// A generated strategy is well formed when its rollout percentage lies
    /// in `[0, 100)` and its sort order in `[0, 10000)`; the default
    /// strategy carries no parameters and sort order zero by construction.
    pub open spec fn wf(self) -> bool {
        match self {
            Strategy::FlexibleRollout { rollout, sort_order } => rollout < 100 && sort_order
                < 10000,
            Strategy::DefaultStrategy => true,
        }
    }
}

/// A generated strategy list is either absent — always so when fewer than
/// two strategies could be drawn — or holds between 1 (inclusive) and
/// `max_strategies` (exclusive) well-formed strategies.
pub open spec fn strategy_list_wf(s: Option<Vec<Strategy>>, max_strategies: int) -> bool {
    &&& (max_strategies <= 1 ==> s is None)
    &&& match s {
        Some(v) => 1 <= v@.len() && v@.len() < max_strategies && (forall|i: int|
            0 <= i < v@.len() ==> v@[i].wf()),
        None => true,
    }
}

/// One feature-flag record.
pub struct Feature {
    pub name: String,
    pub feature_type: String,
    pub description: String,
    /// Creation instant, in seconds since the Unix epoch.
    pub created_at: i64,
    pub enabled: bool,
    pub stale: bool,
    pub impression_data: bool,
    pub project: String,
    pub strategies: Option<Vec<Strategy>>,
}

/// A generated feature is well formed relative to the clock reading `now`
/// (seconds since the Unix epoch) it was generated at: fixed type
/// `"release"` and project `"default"`, a non-empty name and description,
/// never stale, no impression data, a creation instant a whole number of
/// days in `[0, 365)` before `now`, and a well-formed strategy list.
pub open spec fn feature_wf(f: Feature, now: int, max_strategies: int) -> bool {
    &&& f.feature_type@ == "release"@
    &&& f.project@ == "default"@
    &&& f.name@.len() >= 1
    &&& f.description@.len() >= 1
    &&& !f.stale
    &&& !f.impression_data
    &&& now - SECONDS_PER_YEAR <= f.created_at <= now
    &&& exists|d: int| 0 <= d < 365 && f.created_at == now - #[trigger] (d * SECONDS_PER_DAY)
    &&& strategy_list_wf(f.strategies, max_strategies)
}

/// The versioned envelope wrapping a full generated dataset.
pub struct ClientFeatures {
    pub version: u32,
    pub features: Vec<Feature>,
}

/// A generated envelope is well formed for a request of `feature_count`
/// features under the bound `max_strategies` and the clock reading `now`:
/// schema version 2 and exactly `feature_count` well-formed features.
pub open spec fn envelope_wf(
    e: ClientFeatures,
    feature_count: int,
    max_strategies: int,
    now: int,
) -> bool {
    &&& e.version == ENVELOPE_VERSION
    &&& e.features@.len() == feature_count
    &&& forall|i: int| 0 <= i < e.features@.len() ==> feature_wf(e.features@[i], now, max_strategies)
}

/// The field-presence pattern of one feature: an absent strategy list, or
/// the presence pattern of each strategy's parameter mapping, in order.
/// Every other optional field of a generated feature is fixed, so this is
/// the only part of a feature's shape that can vary between runs.
pub open spec fn feature_shape(f: Feature) -> Option<Seq<bool>> {
    match f.strategies {
        Some(v) => Some(v@.map(|i: int, s: Strategy| s.has_parameters())),
        None => None,
    }
}

/// The field-presence pattern of a whole envelope, feature by feature.
pub open spec fn envelope_shape(e: ClientFeatures) -> Seq<Option<Seq<bool>>> {
    e.features@.map(|i: int, f: Feature| feature_shape(f))
}

/// Every default strategy carries no parameter mapping and sort order zero.
pub proof fn lemma_default_strategy_shape(s: Strategy)
    requires
        s is DefaultStrategy,
    ensures
        s.rollout_parameter() is None,
        s.sort_order() == 0,
{
}

/// Two runs with the same counts produce envelopes of identical structural
/// shape whenever the strategy bound admits no strategy list: every
/// feature's field-presence pattern is then the same fixed one. With a
/// bound of two or more, whether a feature carries a strategy list — and
/// which strategies it holds — is itself random, so the shapes of two runs
/// can differ.
pub proof fn lemma_shape_idempotent(
    a: ClientFeatures,
    b: ClientFeatures,
    feature_count: int,
    max_strategies: int,
    now_a: int,
    now_b: int,
)
    requires
        envelope_wf(a, feature_count, max_strategies, now_a),
        envelope_wf(b, feature_count, max_strategies, now_b),
        max_strategies <= 1,
    ensures
        envelope_shape(a) == envelope_shape(b),
{
    assert_seqs_equal!(envelope_shape(a) == envelope_shape(b), i => {
        assert(feature_wf(a.features@[i], now_a, max_strategies));
        assert(feature_wf(b.features@[i], now_b, max_strategies));
        assert(a.features@[i].strategies is None);
        assert(b.features@[i].strategies is None);
    });
}

} // verus!
