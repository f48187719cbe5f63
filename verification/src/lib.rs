//! Generator of synthetic feature-flag datasets: a requested number of
//! feature records, each with randomized metadata and an optional list of
//! rollout strategies, wrapped in a versioned envelope ready to be
//! serialized as client-feature JSON.

pub mod cli;
pub mod generator;
pub mod model;
pub mod providers;
