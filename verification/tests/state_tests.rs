use rmo::config::{Config, ConfigError};
use rmo::metrics::{CounterSample, MetricsCollector, MetricsSnapshot};
use rmo::state::AppState;

fn start() -> AppState {
    AppState::new(Config::default(), MetricsCollector::new(), MetricsSnapshot::default())
}

#[test]
fn new_state_positions_automatically() {
    let state = start();
    assert!(state.auto_positioning);
    assert_eq!(state.config, Config::default());
    assert!(state.collector.first_sample);
}

#[test]
fn accepted_update_is_clamped_and_stored() {
    let mut state = start();
    let candidate = Config {
        opacity_permille: 1200,
        show_disk_io: true,
        ..Config::default()
    };
    let r = state.update_config(candidate);
    let expected = Config {
        opacity_permille: 1000,
        show_disk_io: true,
        ..Config::default()
    };
    assert_eq!(r, Ok(expected));
    assert_eq!(state.config, expected);
}

#[test]
fn refused_update_changes_nothing() {
    let mut state = start();
    let before = state;
    let r = state.update_config(Config {
        show_cpu: false,
        show_memory: false,
        show_network: false,
        show_disk_io: false,
        ..Config::default()
    });
    assert_eq!(r, Err(ConfigError::NoMetricEnabled));
    assert_eq!(state, before);
}

#[test]
fn refresh_stores_the_latest_snapshot() {
    let mut state = start();
    let sample = CounterSample {
        elapsed_micros: 1_000_000,
        cpu_usage_hundredths: 9000,
        used_memory: 1,
        total_memory: 2,
        received_bytes: 10,
        transmitted_bytes: 20,
        read_bytes: 30,
        written_bytes: 40,
    };
    let first = state.refresh_metrics(true, true, &sample);
    assert_eq!(first.net_up_bps, 0);
    assert_eq!(state.latest_snapshot, first);
    let second = state.refresh_metrics(true, true, &sample);
    assert_eq!(second.net_up_bps, 20);
    assert_eq!(second.mem_pct_hundredths, 5000);
    assert_eq!(state.latest_snapshot, second);
    assert!(!state.collector.first_sample);
}

#[test]
fn auto_positioning_can_be_switched() {
    let mut state = start();
    state.set_auto_positioning(false);
    assert!(!state.auto_positioning);
    state.set_auto_positioning(true);
    assert!(state.auto_positioning);
}
