use feature_flag_gen::cli::CliArgs;
use feature_flag_gen::generator::default_strategy;
use feature_flag_gen::generator::flexible_rollout_strategy;
use feature_flag_gen::generator::generate_features;
use feature_flag_gen::generator::generate_strategies;
use feature_flag_gen::model::Strategy;
use feature_flag_gen::providers::biased_bool;
use feature_flag_gen::providers::random_recent_timestamp;
use feature_flag_gen::providers::timestamp_days_back;

#[test]
fn zero_features_yields_empty_envelope() {
    let e = generate_features(0, 20);
    assert_eq!(e.version, 2);
    assert_eq!(e.features.len(), 0);
}

#[test]
fn envelope_has_requested_feature_count() {
    let e = generate_features(7, 20);
    assert_eq!(e.version, 2);
    assert_eq!(e.features.len(), 7);
}

#[test]
fn hundred_features_version_two() {
    let e = generate_features(100, 20);
    assert_eq!(e.version, 2);
    assert_eq!(e.features.len(), 100);
}

#[test]
fn fixed_fields_always_hold() {
    let e = generate_features(25, 20);
    for f in &e.features {
        assert_eq!(f.feature_type, "release");
        assert_eq!(f.project, "default");
        assert!(!f.stale);
        assert!(!f.impression_data);
        assert!(!f.name.is_empty());
        assert!(!f.description.is_empty());
    }
}

#[test]
fn no_strategy_list_when_bound_at_most_one() {
    let e = generate_features(5, 1);
    assert_eq!(e.features.len(), 5);
    for f in &e.features {
        assert!(f.strategies.is_none());
    }
}

#[test]
fn bound_zero_yields_no_strategies() {
    for _ in 0..50 {
        assert!(generate_strategies(0).is_none());
        assert!(generate_strategies(1).is_none());
    }
}

#[test]
fn strategy_list_length_in_bounds() {
    for _ in 0..200 {
        if let Some(v) = generate_strategies(5) {
            assert!(1 <= v.len() && v.len() < 5);
        }
    }
}

#[test]
fn bound_two_gives_singleton_lists() {
    for _ in 0..100 {
        if let Some(v) = generate_strategies(2) {
            assert_eq!(v.len(), 1);
        }
    }
}

#[test]
fn generated_strategies_are_well_formed() {
    for _ in 0..100 {
        if let Some(v) = generate_strategies(20) {
            for s in v {
                match s {
                    Strategy::FlexibleRollout { rollout, sort_order } => {
                        assert!(rollout < 100);
                        assert!(sort_order < 10000);
                    }
                    Strategy::DefaultStrategy => {}
                }
            }
        }
    }
}

#[test]
fn flexible_rollout_parameter_encodes_as_integer() {
    for _ in 0..100 {
        match flexible_rollout_strategy() {
            Strategy::FlexibleRollout { rollout, sort_order } => {
                let encoded = format!("{}", rollout);
                let parsed: u32 = encoded.parse().unwrap();
                assert!(parsed < 100);
                assert!(sort_order < 10000);
            }
            Strategy::DefaultStrategy => panic!("expected a flexible rollout"),
        }
    }
}

#[test]
fn default_strategy_has_no_parameters_and_sort_order_zero() {
    match default_strategy() {
        Strategy::DefaultStrategy => {}
        Strategy::FlexibleRollout { .. } => panic!("expected the default strategy"),
    }
}

#[test]
fn creation_timestamp_within_last_year() {
    let before = chrono::Utc::now().timestamp();
    let e = generate_features(10, 20);
    let after = chrono::Utc::now().timestamp();
    for f in &e.features {
        assert!(f.created_at <= after);
        assert!(f.created_at >= before - 365 * 86400);
    }
}

#[test]
fn shape_fixed_when_no_strategy_lists_possible() {
    let a = generate_features(5, 1);
    let b = generate_features(5, 1);
    let shape_a: Vec<bool> = a.features.iter().map(|f| f.strategies.is_some()).collect();
    let shape_b: Vec<bool> = b.features.iter().map(|f| f.strategies.is_some()).collect();
    assert_eq!(shape_a, shape_b);
}

#[test]
fn biased_bool_at_the_extremes() {
    for _ in 0..100 {
        assert!(!biased_bool(0));
        assert!(biased_bool(100));
    }
}

#[test]
fn timestamp_days_back_exact() {
    assert_eq!(timestamp_days_back(1_000_000, 0), 1_000_000);
    assert_eq!(timestamp_days_back(1_000_000, 3), 1_000_000 - 3 * 86400);
    assert_eq!(timestamp_days_back(0, 364), -364 * 86400);
}

#[test]
fn recent_timestamp_is_a_whole_number_of_days_back() {
    let now = 1_700_000_000;
    for _ in 0..100 {
        let r = random_recent_timestamp(now);
        let back = now - r;
        assert!(back >= 0);
        assert_eq!(back % 86400, 0);
        assert!(back / 86400 < 365);
    }
}

#[test]
fn cli_args_defaults() {
    let args = CliArgs::new(String::from("out.json"));
    assert_eq!(args.features_count, 10000);
    assert_eq!(args.max_strategies_per_feature, 20);
    assert_eq!(args.output, "out.json");
}
