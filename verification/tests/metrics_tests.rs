use rmo::metrics::{threshold_color, total_bytes, CounterSample, MetricColor, MetricsCollector};
use rmo::metrics::MetricsSnapshot;
use rmo::speed::format_speed;

#[test]
fn threshold_color_uses_expected_bands() {
    // 12 %, 60 % and 85 %, in hundredths of a percent
    assert_eq!(threshold_color(1200), MetricColor::Green);
    assert_eq!(threshold_color(6000), MetricColor::Yellow);
    assert_eq!(threshold_color(8500), MetricColor::Red);
}

#[test]
fn format_speed_uses_kilobytes_below_one_megabyte() {
    assert_eq!(format_speed(512 * 1024), "512.0 KB/s");
}

#[test]
fn format_speed_uses_megabytes_at_or_above_one_megabyte() {
    assert_eq!(format_speed(2 * 1024 * 1024), "2.0 MB/s");
}

#[test]
fn format_speed_handles_zero() {
    assert_eq!(format_speed(0), "0.0 KB/s");
}

#[test]
fn threshold_color_band_edges() {
    assert_eq!(threshold_color(0), MetricColor::Green);
    assert_eq!(threshold_color(5999), MetricColor::Green);
    assert_eq!(threshold_color(8499), MetricColor::Yellow);
    assert_eq!(threshold_color(10000), MetricColor::Red);
}

#[test]
fn format_speed_rounds_to_tenths() {
    // 1000 B/s is 0.9765625 KB/s
    assert_eq!(format_speed(1000), "1.0 KB/s");
    // 1536 B/s is 1.5 KB/s
    assert_eq!(format_speed(1536), "1.5 KB/s");
    // just below one megabyte per second the kilobyte label rounds up
    assert_eq!(format_speed(1024 * 1024 - 1), "1024.0 KB/s");
    assert_eq!(format_speed(1024 * 1024), "1.0 MB/s");
    assert_eq!(format_speed(1_572_864), "1.5 MB/s");
}

#[test]
fn format_speed_ties_go_to_even() {
    // 256 B/s is exactly 0.25 KB/s, 768 B/s exactly 0.75 KB/s
    assert_eq!(format_speed(256), "0.2 KB/s");
    assert_eq!(format_speed(768), "0.8 KB/s");
}

#[test]
fn format_speed_agrees_with_float_formatting() {
    let mut bps: u64 = 0;
    while bps < 3 * 1024 * 1024 {
        let kb = bps as f64 / 1024.0;
        let expected = if kb < 1024.0 {
            format!("{kb:.1} KB/s")
        } else {
            format!("{:.1} MB/s", kb / 1024.0)
        };
        assert_eq!(format_speed(bps), expected, "at {bps} B/s");
        bps += 37;
    }
    for bps in [256u64, 768, 1280, 52_480, 1_048_575, 1_048_576, 1_100_000, 5_000_000_000] {
        let kb = bps as f64 / 1024.0;
        let expected = if kb < 1024.0 {
            format!("{kb:.1} KB/s")
        } else {
            format!("{:.1} MB/s", kb / 1024.0)
        };
        assert_eq!(format_speed(bps), expected, "at {bps} B/s");
    }
}

#[test]
fn format_speed_of_the_largest_speed() {
    // u64::MAX bytes per second is 17592186044416 MB/s minus a fraction
    assert_eq!(format_speed(u64::MAX), "17592186044416.0 MB/s");
}

fn sample(elapsed_micros: u64) -> CounterSample {
    CounterSample {
        elapsed_micros,
        cpu_usage_hundredths: 3412,
        used_memory: 6 * 1024,
        total_memory: 16 * 1024,
        received_bytes: 4000,
        transmitted_bytes: 1000,
        read_bytes: 8000,
        written_bytes: 2000,
    }
}

#[test]
fn first_sample_reports_zero_rates() {
    let mut collector = MetricsCollector::new();
    assert!(collector.first_sample);
    let snap = collector.refresh(true, true, &sample(2_000_000));
    assert!(!collector.first_sample);
    assert_eq!(
        snap,
        MetricsSnapshot {
            cpu_pct_hundredths: 3412,
            mem_pct_hundredths: 3750,
            net_up_bps: 0,
            net_down_bps: 0,
            disk_read_bps: 0,
            disk_write_bps: 0,
        }
    );
}

#[test]
fn later_samples_report_rates_per_second() {
    let mut collector = MetricsCollector::new();
    collector.refresh(true, true, &sample(2_000_000));
    let snap = collector.refresh(true, true, &sample(2_000_000));
    assert_eq!(snap.net_up_bps, 500);
    assert_eq!(snap.net_down_bps, 2000);
    assert_eq!(snap.disk_read_bps, 4000);
    assert_eq!(snap.disk_write_bps, 1000);
}

#[test]
fn uncollected_rates_stay_zero() {
    let mut collector = MetricsCollector::new();
    collector.refresh(false, false, &sample(1_000_000));
    let snap = collector.refresh(false, true, &sample(1_000_000));
    assert_eq!(snap.net_up_bps, 0);
    assert_eq!(snap.net_down_bps, 0);
    // the disks were last read when the collector was created, two seconds ago
    assert_eq!(snap.disk_read_bps, 4000);
    assert_eq!(snap.disk_write_bps, 1000);
}

#[test]
fn reenabled_network_divides_by_time_since_last_read() {
    let mut collector = MetricsCollector::new();
    collector.refresh(true, false, &sample(1_000_000));
    collector.refresh(false, false, &sample(1_000_000));
    collector.refresh(false, true, &sample(500_000));
    assert_eq!(collector.network_pending_micros, 1_500_000);
    let mut now = sample(500_000);
    now.transmitted_bytes = 5_000_000;
    let snap = collector.refresh(true, false, &now);
    // 5,000,000 bytes over the two seconds since the network was last read
    assert_eq!(snap.net_up_bps, 2_500_000);
    assert_eq!(collector.network_pending_micros, 0);
    assert_eq!(collector.disk_pending_micros, 500_000);
}

#[test]
fn network_enabled_after_start_covers_time_since_creation() {
    let mut collector = MetricsCollector::new();
    collector.refresh(false, false, &sample(1_000_000));
    let mut now = sample(1_000_000);
    now.transmitted_bytes = 5_000_000;
    let snap = collector.refresh(true, false, &now);
    assert_eq!(snap.net_up_bps, 2_500_000);
}

#[test]
fn waiting_time_saturates() {
    let mut collector = MetricsCollector::new();
    collector.refresh(false, false, &sample(u64::MAX));
    collector.refresh(false, false, &sample(5));
    assert_eq!(collector.network_pending_micros, u64::MAX);
    assert_eq!(collector.disk_pending_micros, u64::MAX);
}

#[test]
fn very_short_intervals_count_as_one_millisecond() {
    let mut collector = MetricsCollector::new();
    collector.refresh(true, false, &sample(0));
    let snap = collector.refresh(true, false, &sample(10));
    // 1000 bytes in one millisecond
    assert_eq!(snap.net_up_bps, 1_000_000);
}

#[test]
fn huge_rates_saturate() {
    let mut collector = MetricsCollector::new();
    let mut s = sample(1000);
    s.transmitted_bytes = u64::MAX;
    collector.refresh(true, false, &s);
    let snap = collector.refresh(true, false, &s);
    assert_eq!(snap.net_up_bps, u64::MAX);
}

#[test]
fn memory_share_without_memory_is_zero() {
    let mut collector = MetricsCollector::new();
    let mut s = sample(1000);
    s.total_memory = 0;
    let snap = collector.refresh(false, false, &s);
    assert_eq!(snap.mem_pct_hundredths, 0);
}

#[test]
fn default_snapshot_is_zero() {
    let snap = MetricsSnapshot::default();
    assert_eq!(snap.cpu_pct_hundredths, 0);
    assert_eq!(snap.mem_pct_hundredths, 0);
    assert_eq!(snap.net_up_bps, 0);
    assert_eq!(snap.disk_write_bps, 0);
}

#[test]
fn total_bytes_sums_counters() {
    assert_eq!(total_bytes(&[]), Some(0));
    assert_eq!(total_bytes(&[1, 2, 3]), Some(6));
    assert_eq!(total_bytes(&[u64::MAX, 0]), Some(u64::MAX));
}

#[test]
fn total_bytes_reports_overflow() {
    assert_eq!(total_bytes(&[u64::MAX, 1]), None);
    assert_eq!(total_bytes(&[u64::MAX, 1, 0]), None);
}
