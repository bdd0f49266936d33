use hazptr::config::{
    Config, ConfigBuilder, CountStrategy, DEFAULT_OPS_COUNT_THRESHOLD, DEFAULT_RETIRE_CACHE_SIZE,
    DEFAULT_SCAN_CACHE_SIZE,
};

#[test]
fn default_config_values() {
    let config = Config::default();
    assert_eq!(config.initial_scan_cache_size, 128);
    assert_eq!(config.initial_retire_cache_size, 128);
    assert_eq!(config.ops_count_threshold, 100);
    assert_eq!(config.count_strategy, CountStrategy::Retire);
    assert_eq!(CountStrategy::default(), CountStrategy::Retire);
}

#[test]
fn fresh_builder_builds_default() {
    assert_eq!(ConfigBuilder::new().build(), Config::default());
    assert_eq!(ConfigBuilder::default(), ConfigBuilder::new());
}

#[test]
fn builder_sets_each_value() {
    let config = ConfigBuilder::new()
        .set_initial_scan_cache_size(7)
        .set_initial_retire_cache_size(9)
        .set_ops_count_threshold(3)
        .set_count_strategy(CountStrategy::Release)
        .build();
    assert_eq!(config.initial_scan_cache_size, 7);
    assert_eq!(config.initial_retire_cache_size, 9);
    assert_eq!(config.ops_count_threshold, 3);
    assert_eq!(config.count_strategy, CountStrategy::Release);
}

#[test]
fn builder_keeps_defaults_for_unset_values() {
    let config = ConfigBuilder::new().set_ops_count_threshold(1).build();
    assert_eq!(config.ops_count_threshold, 1);
    assert_eq!(config.initial_scan_cache_size, DEFAULT_SCAN_CACHE_SIZE);
    assert_eq!(config.initial_retire_cache_size, DEFAULT_RETIRE_CACHE_SIZE);
    assert_eq!(config.count_strategy, CountStrategy::Retire);
    let other = ConfigBuilder::new().set_count_strategy(CountStrategy::Release).build();
    assert_eq!(other.ops_count_threshold, DEFAULT_OPS_COUNT_THRESHOLD);
}

#[test]
fn later_setting_wins() {
    let config = ConfigBuilder::new().set_ops_count_threshold(5).set_ops_count_threshold(6).build();
    assert_eq!(config.ops_count_threshold, 6);
}
