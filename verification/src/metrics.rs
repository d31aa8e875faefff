//! Turning raw counter readings into the metrics the monitor shows.
//!
//! Percentages are held in hundredths of a percent (`6000` is 60 %), transfer
//! speeds in whole bytes per second and elapsed times in microseconds.

use vstd::prelude::*;

verus! {

/// Shortest time span a rate is computed over, in microseconds; shorter
/// spans are counted as this long.
pub const MIN_ELAPSED_MICROS: u64 = 1000;

/// Usage from which a metric is shown in yellow, in hundredths of a percent.
pub const YELLOW_FROM: u64 = 6000;

/// Usage from which a metric is shown in red, in hundredths of a percent.
pub const RED_FROM: u64 = 8500;

/// Colour band of a CPU or memory usage value.
#[derive(Clone, Copy, Debug, PartialEq, Eq, Structural)]
pub enum MetricColor {
    Green,
    Yellow,
    Red,
}

/// The band of a usage of `value` hundredths of a percent: green below 60 %,
/// yellow from 60 % to below 85 %, red from 85 %.
pub open spec fn color_band(value: int) -> MetricColor {
    if value < YELLOW_FROM {
        MetricColor::Green
    } else if value < RED_FROM {
        MetricColor::Yellow
    } else {
        MetricColor::Red
    }
}

/// Position of a band from calm to alarming.
pub open spec fn severity(c: MetricColor) -> int {
    match c {
        MetricColor::Green => 0,
        MetricColor::Yellow => 1,
        MetricColor::Red => 2,
    }
}

/// The colour band of a usage of `value` hundredths of a percent.
pub fn threshold_color(value: u64) -> (c: MetricColor)
    ensures
        c == color_band(value as int),
{
    if value < YELLOW_FROM {
        MetricColor::Green
    } else if value < RED_FROM {
        MetricColor::Yellow
    } else {
        MetricColor::Red
    }
}

/// The values shown by the monitor after one refresh.
#[derive(Clone, Copy, Debug, PartialEq, Eq, Structural)]
pub struct MetricsSnapshot {
    /// Global CPU usage, in hundredths of a percent.
    pub cpu_pct_hundredths: u64,
    /// Used share of the memory, in hundredths of a percent.
    pub mem_pct_hundredths: u64,
    /// Upload speed, in bytes per second.
    pub net_up_bps: u64,
    /// Download speed, in bytes per second.
    pub net_down_bps: u64,
    /// Disk read speed, in bytes per second.
    pub disk_read_bps: u64,
    /// Disk write speed, in bytes per second.
    pub disk_write_bps: u64,
}

impl MetricsSnapshot {
    /// The snapshot with every value zero.
    pub open spec fn zero() -> MetricsSnapshot {
        MetricsSnapshot {
            cpu_pct_hundredths: 0,
            mem_pct_hundredths: 0,
            net_up_bps: 0,
            net_down_bps: 0,
            disk_read_bps: 0,
            disk_write_bps: 0,
        }
    }
}

impl Default for MetricsSnapshot {
    fn default() -> (s: Self)
        ensures
            s == MetricsSnapshot::zero(),
    {
        MetricsSnapshot {
            cpu_pct_hundredths: 0,
            mem_pct_hundredths: 0,
            net_up_bps: 0,
            net_down_bps: 0,
            disk_read_bps: 0,
            disk_write_bps: 0,
        }
    }
}

/// What the system reported for one refresh.
///
/// The network counters cover the time since they were last read: the last
/// refresh that collected the network, or the collector's creation when none
/// did. The disk counters likewise cover the time since the disks were last
/// read.
#[derive(Clone, Copy, Debug, PartialEq, Eq, Structural)]
pub struct CounterSample {
    /// Time since the previous refresh of any kind (or since the collector
    /// was created), in microseconds.
    pub elapsed_micros: u64,
    /// Global CPU usage, in hundredths of a percent.
    pub cpu_usage_hundredths: u64,
    /// Memory in use, in bytes.
    pub used_memory: u64,
    /// Installed memory, in bytes.
    pub total_memory: u64,
    /// Bytes received on all interfaces since the network was last read.
    pub received_bytes: u64,
    /// Bytes sent on all interfaces since the network was last read.
    pub transmitted_bytes: u64,
    /// Bytes read from all disks since the disks were last read.
    pub read_bytes: u64,
    /// Bytes written to all disks since the disks were last read.
    pub written_bytes: u64,
}

/// The time span a rate is computed over: at least a millisecond.
pub open spec fn effective_elapsed(elapsed_micros: int) -> int {
    if elapsed_micros < MIN_ELAPSED_MICROS {
        MIN_ELAPSED_MICROS as int
    } else {
        elapsed_micros
    }
}

/// `v`, or `u64::MAX` where it is larger.
pub open spec fn saturate(v: int) -> int {
    if v > u64::MAX {
        u64::MAX as int
    } else {
        v
    }
}

/// Bytes per second when `bytes` moved in `elapsed_micros` microseconds,
/// rounded down.
pub open spec fn rate(bytes: int, elapsed_micros: int) -> int {
    saturate(bytes * 1_000_000 / effective_elapsed(elapsed_micros))
}

/// The used share of the memory in hundredths of a percent, rounded down;
/// zero when no memory is reported.
pub open spec fn memory_share(used: int, total: int) -> int {
    if total == 0 {
        0
    } else {
        saturate(used * 10000 / total)
    }
}

/// The time the network counters of this refresh cover, in microseconds.
pub open spec fn network_span(c: MetricsCollector, s: CounterSample) -> int {
    saturate(c.network_pending_micros + s.elapsed_micros)
}

/// The time the disk counters of this refresh cover, in microseconds.
pub open spec fn disk_span(c: MetricsCollector, s: CounterSample) -> int {
    saturate(c.disk_pending_micros + s.elapsed_micros)
}

/// The snapshot a refresh gives: CPU and memory always; network and disk
/// rates only where they are collected and this is not the first sample,
/// each computed over the time since that kind was last read.
pub open spec fn spec_snapshot(
    c: MetricsCollector,
    collect_network: bool,
    collect_disk: bool,
    s: CounterSample,
) -> MetricsSnapshot {
    let net = collect_network && !c.first_sample;
    let disk = collect_disk && !c.first_sample;
    MetricsSnapshot {
        cpu_pct_hundredths: s.cpu_usage_hundredths,
        mem_pct_hundredths: memory_share(s.used_memory as int, s.total_memory as int) as u64,
        net_up_bps: if net {
            rate(s.transmitted_bytes as int, network_span(c, s)) as u64
        } else {
            0
        },
        net_down_bps: if net {
            rate(s.received_bytes as int, network_span(c, s)) as u64
        } else {
            0
        },
        disk_read_bps: if disk {
            rate(s.read_bytes as int, disk_span(c, s)) as u64
        } else {
            0
        },
        disk_write_bps: if disk {
            rate(s.written_bytes as int, disk_span(c, s)) as u64
        } else {
            0
        },
    }
}

/// The collector after a refresh: a sample exists, and the time since each
/// kind was last read restarts where it was collected and grows elsewhere.
pub open spec fn spec_refreshed(
    c: MetricsCollector,
    collect_network: bool,
    collect_disk: bool,
    s: CounterSample,
) -> MetricsCollector {
    MetricsCollector {
        first_sample: false,
        network_pending_micros: if collect_network {
            0
        } else {
            network_span(c, s) as u64
        },
        disk_pending_micros: if collect_disk {
            0
        } else {
            disk_span(c, s) as u64
        },
    }
}

fn bytes_per_second(bytes: u64, elapsed_micros: u64) -> (r: u64)
    ensures
        r == rate(bytes as int, elapsed_micros as int),
{
    let elapsed: u64 = if elapsed_micros < MIN_ELAPSED_MICROS {
        MIN_ELAPSED_MICROS
    } else {
        elapsed_micros
    };
    let per_second: u128 = (bytes as u128 * 1_000_000) / (elapsed as u128);
    if per_second > u64::MAX as u128 {
        u64::MAX
    } else {
        per_second as u64
    }
}

fn memory_share_of(used: u64, total: u64) -> (r: u64)
    ensures
        r == memory_share(used as int, total as int),
{
    if total == 0 {
        0
    } else {
        let share: u128 = (used as u128 * 10000) / (total as u128);
        if share > u64::MAX as u128 {
            u64::MAX
        } else {
            share as u64
        }
    }
}

/// Sum of a list of byte counters.
pub open spec fn counter_total(s: Seq<u64>) -> int
    decreases s.len(),
{
    if s.len() == 0 {
        0
    } else {
        counter_total(s.drop_last()) + s.last()
    }
}

proof fn lemma_counter_total_grows(s: Seq<u64>, i: int, j: int)
    requires
        0 <= i <= j <= s.len(),
    ensures
        counter_total(s.take(i)) <= counter_total(s.take(j)),
    decreases j - i,
{
    if i < j {
        lemma_counter_total_grows(s, i, j - 1);
        assert(s.take(j).drop_last() =~= s.take(j - 1));
    }
}

/// The sum of per-interface or per-disk byte counters, or `None` where it
/// does not fit in a `u64`.
pub fn total_bytes(counters: &[u64]) -> (r: Option<u64>)
    ensures
        r matches Some(t) ==> t == counter_total(counters@),
        r is None <==> counter_total(counters@) > u64::MAX,
{
    let n = counters.len();
    let mut acc: u64 = 0;
    let mut i: usize = 0;
    while i < n
        invariant
            n == counters@.len(),
            i <= n,
            acc == counter_total(counters@.take(i as int)),
        decreases n - i,
    {
        assert(counters@.take(i + 1).drop_last() =~= counters@.take(i as int));
        match acc.checked_add(counters[i]) {
            Some(v) => {
                acc = v;
            },
            None => {
                proof {
                    lemma_counter_total_grows(counters@, i + 1, n as int);
                    assert(counters@.take(n as int) =~= counters@);
                }
                return None;
            },
        }
        i = i + 1;
    }
    assert(counters@.take(n as int) =~= counters@);
    Some(acc)
}

/// Turns system readings into snapshots, remembering whether a previous
/// sample exists and how long ago the network and the disks were last read.
#[derive(Clone, Copy, Debug, PartialEq, Eq, Structural)]
pub struct MetricsCollector {
    /// No refresh has happened yet.
    pub first_sample: bool,
    /// Time between the last reading of the network counters (or the
    /// creation) and the latest refresh, in microseconds.
    pub network_pending_micros: u64,
    /// Time between the last reading of the disk counters (or the creation)
    /// and the latest refresh, in microseconds.
    pub disk_pending_micros: u64,
}

impl MetricsCollector {
    /// A collector that has not sampled yet.
    pub fn new() -> (c: Self)
        ensures
            c == (MetricsCollector {
                first_sample: true,
                network_pending_micros: 0,
                disk_pending_micros: 0,
            }),
    {
        MetricsCollector { first_sample: true, network_pending_micros: 0, disk_pending_micros: 0 }
    }

    /// The snapshot for one refresh. CPU and memory are always reported;
    /// network and disk rates are zero unless collected, and zero on the
    /// first sample, which has nothing to compare with. A rate divides the
    /// bytes by the time since that kind was last read.
    pub fn refresh(&mut self, collect_network: bool, collect_disk: bool, sample: &CounterSample) -> (snap:
        MetricsSnapshot)
        ensures
            snap == spec_snapshot(*old(self), collect_network, collect_disk, *sample),
            *final(self) == spec_refreshed(*old(self), collect_network, collect_disk, *sample),
    {
        let cpu_pct_hundredths = sample.cpu_usage_hundredths;
        let mem_pct_hundredths = memory_share_of(sample.used_memory, sample.total_memory);
        let network_span = self.network_pending_micros.saturating_add(sample.elapsed_micros);
        let disk_span = self.disk_pending_micros.saturating_add(sample.elapsed_micros);

        let (net_up_bps, net_down_bps) = if collect_network && !self.first_sample {
            (
                bytes_per_second(sample.transmitted_bytes, network_span),
                bytes_per_second(sample.received_bytes, network_span),
            )
        } else {
            (0, 0)
        };

        let (disk_read_bps, disk_write_bps) = if collect_disk && !self.first_sample {
            (
                bytes_per_second(sample.read_bytes, disk_span),
                bytes_per_second(sample.written_bytes, disk_span),
            )
        } else {
            (0, 0)
        };

        self.first_sample = false;
        self.network_pending_micros = if collect_network {
            0
        } else {
            network_span
        };
        self.disk_pending_micros = if collect_disk {
            0
        } else {
            disk_span
        };

        MetricsSnapshot {
            cpu_pct_hundredths,
            mem_pct_hundredths,
            net_up_bps,
            net_down_bps,
            disk_read_bps,
            disk_write_bps,
        }
    }
}

} // verus!
