use rmo::config::{default_opacity, default_refresh, default_true, default_version};
use rmo::config::{Config, ConfigError, Loaded, StoredConfig};

#[test]
fn default_config_matches_expected_defaults() {
    let config = Config::default();

    assert_eq!(config.version, 1);
    // 2.0 seconds
    assert_eq!(config.refresh_interval_millis, 2000);
    // 0.85
    assert_eq!(config.opacity_permille, 850);
    assert!(config.show_cpu);
    assert!(config.show_memory);
    assert!(!config.show_network);
    assert!(!config.show_disk_io);
}

#[test]
fn clamp_limits_refresh_and_opacity_ranges() {
    // 999.0 seconds and an opacity of 0.1
    let mut config = Config {
        refresh_interval_millis: 999_000,
        opacity_permille: 100,
        ..Config::default()
    };

    config.clamp();

    // 10.0 seconds and 0.3
    assert_eq!(config.refresh_interval_millis, 10_000);
    assert_eq!(config.opacity_permille, 300);
}

#[test]
fn active_metric_count_counts_enabled_flags() {
    let config = Config {
        show_network: true,
        ..Config::default()
    };

    let active_metric_count = [
        config.show_cpu,
        config.show_memory,
        config.show_network,
        config.show_disk_io,
    ]
    .into_iter()
    .filter(|enabled| *enabled)
    .count();

    assert_eq!(active_metric_count, 3);
    assert!(config.any_metric_enabled());
}

#[test]
fn default_helpers_give_the_defaults() {
    assert_eq!(default_version(), 1);
    assert_eq!(default_refresh(), 2000);
    assert_eq!(default_opacity(), 850);
    assert!(default_true());
}

#[test]
fn clamp_raises_values_below_the_range() {
    let mut config = Config {
        refresh_interval_millis: 0,
        opacity_permille: 0,
        ..Config::default()
    };
    config.clamp();
    assert_eq!(config.refresh_interval_millis, 1000);
    assert_eq!(config.opacity_permille, 300);
}

#[test]
fn clamp_lowers_opacity_above_one() {
    let mut config = Config {
        opacity_permille: 1500,
        ..Config::default()
    };
    config.clamp();
    assert_eq!(config.opacity_permille, 1000);
    assert_eq!(config.refresh_interval_millis, 2000);
}

#[test]
fn clamp_keeps_in_range_values_and_flags() {
    let in_range = Config {
        version: 7,
        refresh_interval_millis: 1500,
        opacity_permille: 600,
        show_cpu: false,
        show_memory: false,
        show_network: true,
        show_disk_io: true,
    };
    let mut config = in_range;
    config.clamp();
    assert_eq!(config, in_range);
}

#[test]
fn clamp_twice_is_clamp_once() {
    let mut once = Config {
        refresh_interval_millis: 50,
        opacity_permille: 5000,
        ..Config::default()
    };
    once.clamp();
    let mut twice = once;
    twice.clamp();
    assert_eq!(once, twice);
}

#[test]
fn any_metric_enabled_is_false_when_all_hidden() {
    let config = Config {
        show_cpu: false,
        show_memory: false,
        show_network: false,
        show_disk_io: false,
        ..Config::default()
    };
    assert!(!config.any_metric_enabled());
    let only_disk = Config {
        show_disk_io: true,
        ..config
    };
    assert!(only_disk.any_metric_enabled());
}

#[test]
fn unreadable_file_falls_back_to_rewritten_defaults() {
    let loaded = Config::resolve_loaded(StoredConfig::Unreadable);
    assert_eq!(
        loaded,
        Loaded {
            config: Config::default(),
            rewrite: true
        }
    );
}

#[test]
fn malformed_file_falls_back_to_rewritten_defaults() {
    let loaded = Config::resolve_loaded(StoredConfig::Malformed);
    assert_eq!(loaded.config, Config::default());
    assert!(loaded.rewrite);
}

#[test]
fn stored_config_is_clamped_and_kept() {
    let stored = Config {
        refresh_interval_millis: 2500,
        opacity_permille: 90,
        show_network: true,
        ..Config::default()
    };
    let loaded = Config::resolve_loaded(StoredConfig::Parsed(stored));
    assert!(!loaded.rewrite);
    assert_eq!(loaded.config.refresh_interval_millis, 2500);
    assert_eq!(loaded.config.opacity_permille, 300);
    assert!(loaded.config.show_network);
}

#[test]
fn stored_config_hiding_everything_is_replaced() {
    let stored = Config {
        refresh_interval_millis: 5000,
        show_cpu: false,
        show_memory: false,
        show_network: false,
        show_disk_io: false,
        ..Config::default()
    };
    let loaded = Config::resolve_loaded(StoredConfig::Parsed(stored));
    assert!(loaded.rewrite);
    assert_eq!(loaded.config, Config::default());
}

#[test]
fn validated_clamps_an_accepted_update() {
    let candidate = Config {
        refresh_interval_millis: 20_000,
        opacity_permille: 950,
        ..Config::default()
    };
    let accepted = Config::validated(candidate).expect("update should be accepted");
    assert_eq!(accepted.refresh_interval_millis, 10_000);
    assert_eq!(accepted.opacity_permille, 950);
}

#[test]
fn validated_refuses_hiding_every_metric() {
    let candidate = Config {
        show_cpu: false,
        show_memory: false,
        show_network: false,
        show_disk_io: false,
        ..Config::default()
    };
    let refused = Config::validated(candidate);
    assert_eq!(refused, Err(ConfigError::NoMetricEnabled));
    assert_eq!(
        ConfigError::NoMetricEnabled.message(),
        "At least one metric must stay enabled."
    );
}
