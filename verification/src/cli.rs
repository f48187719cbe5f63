//! The configuration that the command-line front end hands to the
//! generator: a feature count, a strategy bound, and an output path.

use vstd::prelude::*;

verus! {

/// The feature count used when none is requested.
pub const DEFAULT_FEATURES_COUNT: usize = 10000;

/// The strategy bound used when none is requested.
pub const DEFAULT_MAX_STRATEGIES_PER_FEATURE: usize = 20;

/// The three generator parameters. The front end fills them from
/// command-line flags or environment variables; `output` is required and
/// has no default.
pub struct CliArgs {
    pub features_count: usize,
    pub max_strategies_per_feature: usize,
    pub output: String,
}

impl CliArgs {
    /// Arguments for `output` with the default feature count and strategy
    /// bound.
    pub fn new(output: String) -> (args: CliArgs)
        ensures
            args.features_count == DEFAULT_FEATURES_COUNT,
            args.max_strategies_per_feature == DEFAULT_MAX_STRATEGIES_PER_FEATURE,
            args.output == output,
    {
        CliArgs {
            features_count: DEFAULT_FEATURES_COUNT,
            max_strategies_per_feature: DEFAULT_MAX_STRATEGIES_PER_FEATURE,
            output,
        }
    }
}

} // verus!
