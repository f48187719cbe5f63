//! The generators: one strategy, one strategy list, one feature, and the
//! full dataset envelope.

use vstd::prelude::*;

use crate::model::ClientFeatures;
use crate::model::ENVELOPE_VERSION;
use crate::model::Feature;
use crate::model::Strategy;
use crate::model::envelope_wf;
use crate::model::feature_wf;
use crate::model::strategy_list_wf;
use crate::providers::biased_bool;
use crate::providers::now_seconds;
use crate::providers::random_in_range;
use crate::providers::random_person_name;
use crate::providers::random_recent_timestamp;
use crate::providers::random_sentence;

verus! {

/// A percentage-rollout strategy: a random `rollout` parameter in
/// `[0, 100)` and a random sort order in `[0, 10000)`.
pub fn flexible_rollout_strategy() -> (s: Strategy)
    ensures
        s.wf(),
        s.has_parameters(),
{
    let rollout = random_in_range(0, 100);
    let sort_order = random_in_range(0, 10000);
    Strategy::FlexibleRollout { rollout: rollout as u32, sort_order: sort_order as u32 }
}

/// The unconditional default strategy: no parameters, sort order zero.
pub fn default_strategy() -> (s: Strategy)
    ensures
        s.wf(),
        !s.has_parameters(),
        s.sort_order() == 0,
{
    Strategy::DefaultStrategy
}

/// A strategy list for one feature. A count is drawn uniformly from
/// `[0, max_count)`; a draw of zero — certain when `max_count <= 1`, where
/// the range holds nothing above zero — yields an absent list. Otherwise
/// each slot independently becomes a percentage rollout with probability
/// 90%, else the default strategy.
pub fn generate_strategies(max_count: usize) -> (r: Option<Vec<Strategy>>)
    ensures
        strategy_list_wf(r, max_count as int),
{
    if max_count <= 1 {
        return None;
    }
    let strategy_count = random_in_range(0, max_count);
    if strategy_count == 0 {
        return None;
    }
    let mut strategies: Vec<Strategy> = Vec::new();
    let mut i: usize = 0;
    while i < strategy_count
        invariant
            1 <= strategy_count < max_count,
            i <= strategy_count,
            strategies@.len() == i,
            forall|j: int| 0 <= j < strategies@.len() ==> strategies@[j].wf(),
        decreases strategy_count - i,
    {
        if random_in_range(0, 100) < 90 {
            strategies.push(flexible_rollout_strategy());
        } else {
            strategies.push(default_strategy());
        }
        i += 1;
    }
    Some(strategies)
}

/// One feature record, well formed for the clock reading `now`: fixed type
/// and project, a fresh name and description, a creation instant within the
/// last 365 days of `now`, an enabled flag that is true with probability
/// 90%, and a strategy list under `max_strategies`.
pub fn generate_feature(now: i64, max_strategies: usize) -> (f: Feature)
    ensures
        feature_wf(f, now as int, max_strategies as int),
{
    Feature {
        name: random_person_name(),
        feature_type: "release".to_owned(),
        description: random_sentence(3, 5),
        created_at: random_recent_timestamp(now),
        enabled: biased_bool(90),
        stale: false,
        impression_data: false,
        project: "default".to_owned(),
        strategies: generate_strategies(max_strategies),
    }
}

/// The full dataset for the clock reading `now`: exactly `feature_count`
/// features, each well formed, in generation order, under schema version 2.
pub fn generate_features_at(now: i64, feature_count: usize, max_strategies: usize) -> (e:
    ClientFeatures)
    ensures
        envelope_wf(e, feature_count as int, max_strategies as int, now as int),
{
    let mut features: Vec<Feature> = Vec::new();
    let mut i: usize = 0;
    while i < feature_count
        invariant
            i <= feature_count,
            features@.len() == i,
            forall|j: int|
                0 <= j < features@.len() ==> feature_wf(
                    features@[j],
                    now as int,
                    max_strategies as int,
                ),
        decreases feature_count - i,
    {
        features.push(generate_feature(now, max_strategies));
        i += 1;
    }
    ClientFeatures { version: ENVELOPE_VERSION, features }
}

/// The full dataset at the current clock reading: exactly `feature_count`
/// features under schema version 2, well formed for the instant the
/// generation started at.
pub fn generate_features(feature_count: usize, max_strategies: usize) -> (e: ClientFeatures)
    ensures
        e.version == ENVELOPE_VERSION,
        e.features@.len() == feature_count,
        exists|now: int| envelope_wf(e, feature_count as int, max_strategies as int, now),
{
    let now = now_seconds();
    let e = generate_features_at(now, feature_count, max_strategies);
    proof {
        assert(envelope_wf(e, feature_count as int, max_strategies as int, now as int));
    }
    e
}

} // verus!
