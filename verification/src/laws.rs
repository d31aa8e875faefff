//! Properties that hold across the library's operations.

use vstd::prelude::*;
use crate::config::{Config, StoredConfig, spec_resolve_loaded, spec_validated};
use crate::metrics::{
    CounterSample, MetricsCollector, color_band, memory_share, rate, saturate, severity,
    spec_refreshed, spec_snapshot, YELLOW_FROM, RED_FROM,
};
use crate::speed::{speed_label, round_half_even, decimal, digit_char, BYTES_PER_MB};
use crate::metrics::counter_total;
use crate::state::{
    AppState, spec_after_refresh, spec_after_set_auto_positioning, spec_after_update,
};

verus! {

/// `s` ends with `suffix`.
pub open spec fn ends_with(s: Seq<char>, suffix: Seq<char>) -> bool {
    suffix.len() <= s.len() && s.subrange(s.len() - suffix.len(), s.len() as int) == suffix
}

/// Clamping twice is clamping once, and a clamped configuration is in range.
pub proof fn lemma_clamp_idempotent(c: Config)
    ensures
        c.clamped().clamped() == c.clamped(),
        c.clamped().in_range(),
{
}

/// Clamping leaves a configuration that is already in range unchanged.
pub proof fn lemma_clamp_keeps_in_range(c: Config)
    requires
        c.in_range(),
    ensures
        c.clamped() == c,
{
}

/// Clamping touches only the interval and the opacity: the version and the
/// metric flags stay as they were.
pub proof fn lemma_clamp_keeps_flags(c: Config)
    ensures
        c.clamped().version == c.version,
        c.clamped().show_cpu == c.show_cpu,
        c.clamped().show_memory == c.show_memory,
        c.clamped().show_network == c.show_network,
        c.clamped().show_disk_io == c.show_disk_io,
        c.clamped().has_enabled_metric() == c.has_enabled_metric(),
{
}

/// The default configuration is one the monitor may run with.
pub proof fn lemma_default_is_valid()
    ensures
        Config::spec_default().is_valid(),
{
}

/// Whatever the configuration file held, a load ends with a valid
/// configuration; it is the stored one, clamped, exactly when nothing has to
/// be rewritten, and otherwise the defaults.
pub proof fn lemma_load_yields_valid(stored: StoredConfig)
    ensures
        spec_resolve_loaded(stored).config.is_valid(),
        !spec_resolve_loaded(stored).rewrite <==> (stored matches StoredConfig::Parsed(c)
            && (c.show_cpu || c.show_memory || c.show_network || c.show_disk_io)),
        !spec_resolve_loaded(stored).rewrite ==> (stored matches StoredConfig::Parsed(c)
            && spec_resolve_loaded(stored).config == c.clamped()),
        spec_resolve_loaded(stored).rewrite ==> spec_resolve_loaded(stored).config
            == Config::spec_default(),
{
}

/// An update is refused exactly when the requested configuration hides every
/// metric, and a refused update leaves the state as it was.
pub proof fn lemma_update_refused_iff_all_hidden(s: AppState, candidate: Config)
    ensures
        spec_validated(candidate) is Err <==> (!candidate.show_cpu && !candidate.show_memory
            && !candidate.show_network && !candidate.show_disk_io),
        spec_validated(candidate) is Err ==> spec_after_update(s, candidate) == s,
        spec_validated(candidate) is Ok ==> spec_after_update(s, candidate).config
            == candidate.clamped(),
        spec_after_update(s, candidate).collector == s.collector,
        spec_after_update(s, candidate).latest_snapshot == s.latest_snapshot,
        spec_after_update(s, candidate).auto_positioning == s.auto_positioning,
{
}

/// A state whose configuration is valid keeps a valid configuration through
/// every operation: updates, refreshes and positioning switches.
pub proof fn lemma_state_stays_valid(
    s: AppState,
    candidate: Config,
    collect_network: bool,
    collect_disk: bool,
    sample: CounterSample,
    enabled: bool,
)
    requires
        s.config.is_valid(),
    ensures
        spec_after_update(s, candidate).config.is_valid(),
        spec_after_refresh(s, collect_network, collect_disk, sample).config.is_valid(),
        spec_after_set_auto_positioning(s, enabled).config.is_valid(),
{
}

/// Higher usage never gives a calmer colour band.
pub proof fn lemma_color_bands_ordered(a: int, b: int)
    requires
        a <= b,
    ensures
        severity(color_band(a)) <= severity(color_band(b)),
{
}

/// The bands switch exactly at 60 % and at 85 %.
pub proof fn lemma_color_band_edges()
    ensures
        color_band(YELLOW_FROM - 1) != color_band(YELLOW_FROM as int),
        color_band(RED_FROM - 1) != color_band(RED_FROM as int),
{
}

/// Speeds below one megabyte per second are labelled in KB/s, faster ones
/// in MB/s.
pub proof fn lemma_speed_unit(bytes_per_sec: nat)
    ensures
        bytes_per_sec < BYTES_PER_MB ==> ends_with(speed_label(bytes_per_sec), " KB/s"@),
        bytes_per_sec >= BYTES_PER_MB ==> ends_with(speed_label(bytes_per_sec), " MB/s"@),
{
    reveal_strlit(" KB/s");
    reveal_strlit(" MB/s");
    let l = speed_label(bytes_per_sec);
    if bytes_per_sec < BYTES_PER_MB {
        assert(l.subrange(l.len() - 5, l.len() as int) =~= " KB/s"@);
    } else {
        assert(l.subrange(l.len() - 5, l.len() as int) =~= " MB/s"@);
    }
}

/// A speed of zero reads `0.0 KB/s`.
pub proof fn lemma_zero_speed_label()
    ensures
        speed_label(0) == "0.0 KB/s"@,
{
    reveal_strlit("0.0 KB/s");
    reveal_strlit(" KB/s");
    assert(round_half_even(0, 1024) == 0);
    assert(decimal(0) == seq!['0']);
    assert(speed_label(0) =~= "0.0 KB/s"@);
}

/// On the first sample every rate is zero, whatever was collected.
pub proof fn lemma_first_sample_rates_zero(
    c: MetricsCollector,
    collect_network: bool,
    collect_disk: bool,
    sample: CounterSample,
)
    requires
        c.first_sample,
    ensures
        spec_snapshot(c, collect_network, collect_disk, sample).net_up_bps == 0,
        spec_snapshot(c, collect_network, collect_disk, sample).net_down_bps == 0,
        spec_snapshot(c, collect_network, collect_disk, sample).disk_read_bps == 0,
        spec_snapshot(c, collect_network, collect_disk, sample).disk_write_bps == 0,
        !spec_refreshed(c, collect_network, collect_disk, sample).first_sample,
{
}

/// Rates that are not collected are zero.
pub proof fn lemma_uncollected_rates_zero(c: MetricsCollector, sample: CounterSample)
    ensures
        spec_snapshot(c, false, false, sample).net_up_bps == 0,
        spec_snapshot(c, false, false, sample).net_down_bps == 0,
        spec_snapshot(c, false, false, sample).disk_read_bps == 0,
        spec_snapshot(c, false, false, sample).disk_write_bps == 0,
{
}

/// Total time covered by a run of samples, in microseconds.
pub open spec fn total_elapsed(samples: Seq<CounterSample>) -> int
    decreases samples.len(),
{
    if samples.len() == 0 {
        0
    } else {
        total_elapsed(samples.drop_last()) + samples.last().elapsed_micros
    }
}

/// The collector after a run of refreshes that do not collect the network;
/// `collect_disk[i]` tells whether the `i`-th one collects the disks.
pub open spec fn refreshed_without_network(
    c: MetricsCollector,
    collect_disk: Seq<bool>,
    samples: Seq<CounterSample>,
) -> MetricsCollector
    decreases samples.len(),
{
    if samples.len() == 0 {
        c
    } else {
        spec_refreshed(
            refreshed_without_network(c, collect_disk.drop_last(), samples.drop_last()),
            false,
            collect_disk.last(),
            samples.last(),
        )
    }
}

/// The collector after a run of refreshes that do not collect the disks.
pub open spec fn refreshed_without_disk(
    c: MetricsCollector,
    collect_network: Seq<bool>,
    samples: Seq<CounterSample>,
) -> MetricsCollector
    decreases samples.len(),
{
    if samples.len() == 0 {
        c
    } else {
        spec_refreshed(
            refreshed_without_disk(c, collect_network.drop_last(), samples.drop_last()),
            collect_network.last(),
            false,
            samples.last(),
        )
    }
}

proof fn lemma_network_wait_accumulates(
    c: MetricsCollector,
    collect_disk: Seq<bool>,
    samples: Seq<CounterSample>,
)
    requires
        collect_disk.len() == samples.len(),
    ensures
        refreshed_without_network(c, collect_disk, samples).network_pending_micros == saturate(
            c.network_pending_micros + total_elapsed(samples),
        ),
        samples.len() > 0 ==> !refreshed_without_network(c, collect_disk, samples).first_sample,
        samples.len() == 0 ==> refreshed_without_network(c, collect_disk, samples) == c,
    decreases samples.len(),
{
    if samples.len() > 0 {
        lemma_network_wait_accumulates(c, collect_disk.drop_last(), samples.drop_last());
    }
}

proof fn lemma_disk_wait_accumulates(
    c: MetricsCollector,
    collect_network: Seq<bool>,
    samples: Seq<CounterSample>,
)
    requires
        collect_network.len() == samples.len(),
    ensures
        refreshed_without_disk(c, collect_network, samples).disk_pending_micros == saturate(
            c.disk_pending_micros + total_elapsed(samples),
        ),
        samples.len() > 0 ==> !refreshed_without_disk(c, collect_network, samples).first_sample,
        samples.len() == 0 ==> refreshed_without_disk(c, collect_network, samples) == c,
    decreases samples.len(),
{
    if samples.len() > 0 {
        lemma_disk_wait_accumulates(c, collect_network.drop_last(), samples.drop_last());
    }
}

/// After a refresh that read the network, any number of refreshes that do
/// not read it, and one that does, the network rates divide the bytes of
/// that last sample by all the time elapsed since the network was read:
/// re-enabling the network gives no spike.
pub proof fn lemma_network_rate_spans_since_last_read(
    c: MetricsCollector,
    collect_disk: bool,
    read: CounterSample,
    skipped_disk: Seq<bool>,
    skipped: Seq<CounterSample>,
    collect_disk_now: bool,
    now: CounterSample,
)
    requires
        skipped_disk.len() == skipped.len(),
    ensures
        ({
            let after_read = spec_refreshed(c, true, collect_disk, read);
            let before = refreshed_without_network(after_read, skipped_disk, skipped);
            let snap = spec_snapshot(before, true, collect_disk_now, now);
            let span = saturate(total_elapsed(skipped) + now.elapsed_micros);
            &&& snap.net_up_bps == rate(now.transmitted_bytes as int, span)
            &&& snap.net_down_bps == rate(now.received_bytes as int, span)
        }),
{
    let after_read = spec_refreshed(c, true, collect_disk, read);
    lemma_network_wait_accumulates(after_read, skipped_disk, skipped);
}

/// After a refresh that read the disks, any number of refreshes that do not
/// read them, and one that does, the disk rates divide the bytes of that
/// last sample by all the time elapsed since the disks were read.
pub proof fn lemma_disk_rate_spans_since_last_read(
    c: MetricsCollector,
    collect_network: bool,
    read: CounterSample,
    skipped_network: Seq<bool>,
    skipped: Seq<CounterSample>,
    collect_network_now: bool,
    now: CounterSample,
)
    requires
        skipped_network.len() == skipped.len(),
    ensures
        ({
            let after_read = spec_refreshed(c, collect_network, true, read);
            let before = refreshed_without_disk(after_read, skipped_network, skipped);
            let snap = spec_snapshot(before, collect_network_now, true, now);
            let span = saturate(total_elapsed(skipped) + now.elapsed_micros);
            &&& snap.disk_read_bps == rate(now.read_bytes as int, span)
            &&& snap.disk_write_bps == rate(now.written_bytes as int, span)
        }),
{
    let after_read = spec_refreshed(c, collect_network, true, read);
    lemma_disk_wait_accumulates(after_read, skipped_network, skipped);
}

/// The memory share never exceeds 100 % while no more memory is used than
/// is installed.
pub proof fn lemma_memory_share_at_most_full(used: int, total: int)
    requires
        0 <= used <= total,
    ensures
        0 <= memory_share(used, total) <= 10000,
{
    if total > 0 {
        assert(used * 10000 / total <= 10000) by (nonlinear_arith)
            requires
                0 <= used <= total,
                total > 0,
        ;
        assert(used * 10000 / total >= 0) by (nonlinear_arith)
            requires
                0 <= used,
                total > 0,
        ;
    }
}


/// `r` is `num / den` rounded down, or `u64::MAX` where that quotient does
/// not fit in a `u64`.
pub open spec fn is_capped_quotient(r: int, num: int, den: int) -> bool {
    if num >= u64::MAX * den {
        r == u64::MAX
    } else {
        r * den <= num < (r + 1) * den
    }
}

proof fn lemma_saturated_quotient(num: int, den: int)
    requires
        num >= 0,
        den > 0,
    ensures
        is_capped_quotient(saturate(num / den), num, den),
{
    let q = num / den;
    assert(q * den <= num < (q + 1) * den) by (nonlinear_arith)
        requires
            q == num / den,
            den > 0,
            num >= 0,
    ;
    let m = u64::MAX as int;
    if q > m {
        assert(num >= m * den) by (nonlinear_arith)
            requires
                q > m,
                q * den <= num,
                den > 0,
        ;
    } else if num >= m * den {
        assert(q >= m) by (nonlinear_arith)
            requires
                num >= m * den,
                num < (q + 1) * den,
                den > 0,
        ;
    }
}

/// A rate is the bytes times a million divided by the elapsed microseconds,
/// rounded down and capped at `u64::MAX`; spans under a millisecond count
/// as one millisecond.
pub proof fn lemma_rate_is_bytes_per_second(bytes: int, elapsed_micros: int)
    requires
        bytes >= 0,
        elapsed_micros >= 0,
    ensures
        elapsed_micros >= 1000 ==> is_capped_quotient(
            rate(bytes, elapsed_micros),
            bytes * 1_000_000,
            elapsed_micros,
        ),
        elapsed_micros < 1000 ==> is_capped_quotient(
            rate(bytes, elapsed_micros),
            bytes * 1_000_000,
            1000,
        ),
{
    if elapsed_micros >= 1000 {
        lemma_saturated_quotient(bytes * 1_000_000, elapsed_micros);
    } else {
        lemma_saturated_quotient(bytes * 1_000_000, 1000);
    }
}

/// What one refresh reports, in terms of the sample and the collector: the
/// CPU usage as read; the memory share as used times ten thousand over total,
/// rounded down; each collected rate (after the first sample) as its bytes
/// per second over the time since that kind was last read, and zero
/// otherwise.
pub proof fn lemma_snapshot_values(
    c: MetricsCollector,
    collect_network: bool,
    collect_disk: bool,
    s: CounterSample,
)
    ensures
        ({
            let snap = spec_snapshot(c, collect_network, collect_disk, s);
            let net_wait = c.network_pending_micros + s.elapsed_micros;
            let net_capped = if net_wait > u64::MAX { u64::MAX as int } else { net_wait };
            let net_span = if net_capped < 1000 { 1000 } else { net_capped };
            let disk_wait = c.disk_pending_micros + s.elapsed_micros;
            let disk_capped = if disk_wait > u64::MAX { u64::MAX as int } else { disk_wait };
            let disk_span = if disk_capped < 1000 { 1000 } else { disk_capped };
            &&& snap.cpu_pct_hundredths == s.cpu_usage_hundredths
            &&& s.total_memory > 0 ==> is_capped_quotient(
                snap.mem_pct_hundredths as int,
                s.used_memory * 10000,
                s.total_memory as int,
            )
            &&& s.total_memory == 0 ==> snap.mem_pct_hundredths == 0
            &&& (collect_network && !c.first_sample) ==> {
                &&& is_capped_quotient(
                    snap.net_up_bps as int,
                    s.transmitted_bytes * 1_000_000,
                    net_span,
                )
                &&& is_capped_quotient(
                    snap.net_down_bps as int,
                    s.received_bytes * 1_000_000,
                    net_span,
                )
            }
            &&& !(collect_network && !c.first_sample) ==> snap.net_up_bps == 0
                && snap.net_down_bps == 0
            &&& (collect_disk && !c.first_sample) ==> {
                &&& is_capped_quotient(
                    snap.disk_read_bps as int,
                    s.read_bytes * 1_000_000,
                    disk_span,
                )
                &&& is_capped_quotient(
                    snap.disk_write_bps as int,
                    s.written_bytes * 1_000_000,
                    disk_span,
                )
            }
            &&& !(collect_disk && !c.first_sample) ==> snap.disk_read_bps == 0
                && snap.disk_write_bps == 0
        }),
{
    if s.total_memory > 0 {
        lemma_saturated_quotient(s.used_memory * 10000, s.total_memory as int);
    }
    let net_wait = saturate(c.network_pending_micros + s.elapsed_micros);
    let disk_wait = saturate(c.disk_pending_micros + s.elapsed_micros);
    lemma_rate_is_bytes_per_second(s.transmitted_bytes as int, net_wait);
    lemma_rate_is_bytes_per_second(s.received_bytes as int, net_wait);
    lemma_rate_is_bytes_per_second(s.read_bytes as int, disk_wait);
    lemma_rate_is_bytes_per_second(s.written_bytes as int, disk_wait);
}

/// After a refresh a sample exists; the time since a kind was last read is
/// zero where it was collected and grew by the elapsed time (capped at
/// `u64::MAX`) elsewhere.
pub proof fn lemma_refreshed_collector(
    c: MetricsCollector,
    collect_network: bool,
    collect_disk: bool,
    s: CounterSample,
)
    ensures
        ({
            let k = spec_refreshed(c, collect_network, collect_disk, s);
            let net_wait = c.network_pending_micros + s.elapsed_micros;
            let disk_wait = c.disk_pending_micros + s.elapsed_micros;
            &&& !k.first_sample
            &&& collect_network ==> k.network_pending_micros == 0
            &&& !collect_network ==> k.network_pending_micros == (if net_wait > u64::MAX {
                u64::MAX as int
            } else {
                net_wait
            })
            &&& collect_disk ==> k.disk_pending_micros == 0
            &&& !collect_disk ==> k.disk_pending_micros == (if disk_wait > u64::MAX {
                u64::MAX as int
            } else {
                disk_wait
            })
        }),
{
}

/// A refresh stores exactly the snapshot it reports, advances the collector
/// and touches nothing else.
pub proof fn lemma_refresh_stores_snapshot(
    s: AppState,
    collect_network: bool,
    collect_disk: bool,
    sample: CounterSample,
)
    ensures
        spec_after_refresh(s, collect_network, collect_disk, sample).latest_snapshot
            == spec_snapshot(s.collector, collect_network, collect_disk, sample),
        spec_after_refresh(s, collect_network, collect_disk, sample).collector == spec_refreshed(
            s.collector,
            collect_network,
            collect_disk,
            sample,
        ),
        spec_after_refresh(s, collect_network, collect_disk, sample).config == s.config,
        spec_after_refresh(s, collect_network, collect_disk, sample).auto_positioning
            == s.auto_positioning,
{
}

/// Switching the automatic positioning sets it to the requested value,
/// whatever it was, and touches nothing else.
pub proof fn lemma_set_auto_positioning_sets(s: AppState, enabled: bool)
    ensures
        spec_after_set_auto_positioning(s, enabled).auto_positioning == enabled,
        spec_after_set_auto_positioning(s, enabled).config == s.config,
        spec_after_set_auto_positioning(s, enabled).collector == s.collector,
        spec_after_set_auto_positioning(s, enabled).latest_snapshot == s.latest_snapshot,
{
}

/// Clamping raises an interval under one second to one second, lowers one
/// over ten seconds to ten seconds and keeps one in between; likewise the
/// opacity with 0.3 and 1.0. Nothing else changes.
pub proof fn lemma_clamp_values(c: Config)
    ensures
        ({
            let k = c.clamped();
            &&& 1000 <= k.refresh_interval_millis <= 10000
            &&& c.refresh_interval_millis < 1000 ==> k.refresh_interval_millis == 1000
            &&& c.refresh_interval_millis > 10000 ==> k.refresh_interval_millis == 10000
            &&& 1000 <= c.refresh_interval_millis <= 10000 ==> k.refresh_interval_millis
                == c.refresh_interval_millis
            &&& 300 <= k.opacity_permille <= 1000
            &&& c.opacity_permille < 300 ==> k.opacity_permille == 300
            &&& c.opacity_permille > 1000 ==> k.opacity_permille == 1000
            &&& 300 <= c.opacity_permille <= 1000 ==> k.opacity_permille == c.opacity_permille
            &&& k.version == c.version
            &&& k.show_cpu == c.show_cpu
            &&& k.show_memory == c.show_memory
            &&& k.show_network == c.show_network
            &&& k.show_disk_io == c.show_disk_io
        }),
{
}

/// A metric is enabled exactly when one of the four display flags is on.
pub proof fn lemma_enabled_metric_flags(c: Config)
    ensures
        c.has_enabled_metric() <==> (c.show_cpu || c.show_memory || c.show_network
            || c.show_disk_io),
{
}

/// The defaults: version 1, two seconds, opacity 0.85, CPU and memory shown.
pub proof fn lemma_default_values()
    ensures
        Config::spec_default() == (Config {
            version: 1,
            refresh_interval_millis: 2000,
            opacity_permille: 850,
            show_cpu: true,
            show_memory: true,
            show_network: false,
            show_disk_io: false,
        }),
{
}

/// The bands by value: green below 60 %, yellow from 60 % to below 85 %, red
/// from 85 %.
pub proof fn lemma_color_band_ranges(v: int)
    ensures
        color_band(v) == crate::metrics::MetricColor::Green <==> v < 6000,
        color_band(v) == crate::metrics::MetricColor::Yellow <==> 6000 <= v < 8500,
        color_band(v) == crate::metrics::MetricColor::Red <==> v >= 8500,
{
}

/// The sum of counters is additive over concatenation and a single counter
/// sums to itself.
pub proof fn lemma_counter_total_additive(a: Seq<u64>, b: Seq<u64>)
    ensures
        counter_total(a + b) == counter_total(a) + counter_total(b),
        counter_total(Seq::<u64>::empty()) == 0,
    decreases b.len(),
{
    if b.len() > 0 {
        lemma_counter_total_additive(a, b.drop_last());
        assert((a + b).drop_last() =~= a + b.drop_last());
    } else {
        assert(a + b =~= a);
    }
}

/// A single counter sums to itself.
pub proof fn lemma_counter_total_single(x: u64)
    ensures
        counter_total(seq![x]) == x,
{
    let s = seq![x];
    assert(s.drop_last() =~= Seq::<u64>::empty());
    assert(counter_total(Seq::<u64>::empty()) == 0);
    assert(s.last() == x);
}

/// The numeric value of a decimal digit character.
pub open spec fn digit_value(c: char) -> int {
    c as int - '0' as int
}

/// The number a string of decimal digits denotes.
pub open spec fn digits_value(s: Seq<char>) -> int
    decreases s.len(),
{
    if s.len() == 0 {
        0
    } else {
        digits_value(s.drop_last()) * 10 + digit_value(s.last())
    }
}

/// Every character is a decimal digit.
pub open spec fn all_digits(s: Seq<char>) -> bool {
    forall|i: int| 0 <= i < s.len() ==> '0' <= #[trigger] s[i] <= '9'
}

/// The digit characters denote their digits.
pub proof fn lemma_digit_char_value(d: int)
    requires
        0 <= d < 10,
    ensures
        digit_value(digit_char(d)) == d,
        '0' <= digit_char(d) <= '9',
{
}

/// The decimal notation of `n` is a non-empty string of digits, without a
/// leading zero, that denotes `n`.
pub proof fn lemma_decimal_denotes(n: nat)
    ensures
        decimal(n).len() >= 1,
        all_digits(decimal(n)),
        digits_value(decimal(n)) == n,
        decimal(n).len() > 1 ==> decimal(n)[0] != '0',
        decimal(n).len() > 1 <==> n >= 10,
    decreases n,
{
    if n < 10 {
        lemma_digit_char_value(n as int);
        let s = seq![digit_char(n as int)];
        assert(s.drop_last() =~= Seq::<char>::empty());
        assert(digits_value(Seq::<char>::empty()) == 0);
        assert(s.last() == digit_char(n as int));
        assert(digits_value(s) == digit_value(digit_char(n as int)));
    } else {
        lemma_decimal_denotes(n / 10);
        lemma_digit_char_value((n % 10) as int);
        let d = decimal(n / 10);
        let c = digit_char((n % 10) as int);
        assert(decimal(n) == d.push(c));
        assert(d.push(c).drop_last() =~= d);
        assert(d.push(c).last() == c);
        assert(digits_value(d.push(c)) == digits_value(d) * 10 + digit_value(c));
        assert(n == (n / 10) * 10 + n % 10);
        assert(decimal(n)[0] == d[0]);
        if n / 10 < 10 {
            lemma_digit_char_value((n / 10) as int);
            assert(d == seq![digit_char((n / 10) as int)]);
            assert(d[0] == digit_char((n / 10) as int));
            assert(n / 10 >= 1);
            assert(digit_value(d[0]) != 0);
            assert(digit_value('0') == 0);
        }
        assert forall|i: int| 0 <= i < decimal(n).len() implies '0' <= #[trigger] decimal(n)[i]
            <= '9' by {
            if i < d.len() {
                assert(decimal(n)[i] == d[i]);
            }
        }
    }
}

/// Rounding to the nearest integer: the result is at most half a unit away
/// from the exact quotient, and an exact tie goes to the even neighbour.
pub proof fn lemma_round_half_even_nearest(num: nat, den: nat)
    requires
        den > 0,
    ensures
        ({
            let t = round_half_even(num, den) as int;
            let gap = t * den - num;
            &&& -den <= 2 * gap <= den
            &&& (2 * gap == den || 2 * gap == -den) ==> t % 2 == 0
        }),
{
    let q = num / den;
    let r = num % den;
    assert(num == q * den + r && 0 <= r < den) by (nonlinear_arith)
        requires
            q == num / den,
            r == num % den,
            den > 0,
    ;
    assert((q + 1) * den == q * den + den) by (nonlinear_arith);
}

/// A speed label is a number with one decimal followed by its unit, and the
/// number is the speed in that unit rounded to the nearest tenth, ties to an
/// even last digit.
pub proof fn lemma_speed_label_is_nearest_tenth(bytes_per_sec: nat)
    ensures
        ({
            let l = speed_label(bytes_per_sec);
            let unit = if bytes_per_sec < 1048576 { 1024int } else { 1048576int };
            let number = l.subrange(0, l.len() - 5);
            let int_part = number.subrange(0, number.len() - 2);
            let tenths = digits_value(int_part) * 10 + digit_value(number.last());
            let gap = tenths * unit - bytes_per_sec * 10;
            &&& l.len() >= 8
            &&& number[number.len() - 2] == '.'
            &&& all_digits(int_part)
            &&& '0' <= number.last() <= '9'
            &&& -unit <= 2 * gap <= unit
            &&& (2 * gap == unit || 2 * gap == -unit) ==> tenths % 2 == 0
        }),
{
    reveal_strlit(" KB/s");
    reveal_strlit(" MB/s");
    let unit: nat = if bytes_per_sec < 1048576 { 1024 } else { 1048576 };
    let t = round_half_even(bytes_per_sec * 10, unit);
    lemma_round_half_even_nearest(bytes_per_sec * 10, unit);
    lemma_decimal_denotes(t / 10);
    lemma_digit_char_value((t % 10) as int);
    let l = speed_label(bytes_per_sec);
    let d = decimal(t / 10);
    let suffix = if bytes_per_sec < 1048576 { " KB/s"@ } else { " MB/s"@ };
    assert(l =~= d.push('.').push(digit_char((t % 10) as int)) + suffix);
    let number = l.subrange(0, l.len() - 5);
    assert(number =~= d.push('.').push(digit_char((t % 10) as int)));
    assert(number.subrange(0, number.len() - 2) =~= d);
    assert(t == (t / 10) * 10 + t % 10);
}

} // verus!
