//! The monitor's configuration and the rules it obeys.
//!
//! Fractional settings are held in fixed point: the refresh interval in
//! milliseconds and the window opacity in thousandths (so `850` is `0.85`).

use vstd::prelude::*;

verus! {

/// Shortest refresh interval a configuration may hold, in milliseconds.
pub const MIN_REFRESH_MILLIS: u64 = 1000;

/// Longest refresh interval a configuration may hold, in milliseconds.
pub const MAX_REFRESH_MILLIS: u64 = 10000;

/// Lowest background opacity a configuration may hold, in thousandths.
pub const MIN_OPACITY_PERMILLE: u32 = 300;

/// Highest background opacity a configuration may hold, in thousandths.
pub const MAX_OPACITY_PERMILLE: u32 = 1000;

/// The persisted settings of the monitor window.
#[derive(Clone, Copy, Debug, PartialEq, Eq, Structural)]
pub struct Config {
    /// Schema version, reserved for migrations.
    pub version: u32,
    /// Time between two metric refreshes, in milliseconds.
    pub refresh_interval_millis: u64,
    /// Opacity of the card background, in thousandths.
    pub opacity_permille: u32,
    pub show_cpu: bool,
    pub show_memory: bool,
    pub show_network: bool,
    pub show_disk_io: bool,
}

/// `v` brought into `[lo, hi]`.
pub open spec fn clamp_int(v: int, lo: int, hi: int) -> int {
    if v < lo {
        lo
    } else if v > hi {
        hi
    } else {
        v
    }
}

/// The schema version written by this release.
pub fn default_version() -> (v: u32)
    ensures
        v == 1,
{
    1
}

/// The default refresh interval: two seconds, in milliseconds.
pub fn default_refresh() -> (v: u64)
    ensures
        v == 2000,
{
    2000
}

/// The default background opacity: 0.85, in thousandths.
pub fn default_opacity() -> (v: u32)
    ensures
        v == 850,
{
    850
}

/// The value of a display flag that a stored configuration leaves out and
/// that is on by default.
pub fn default_true() -> (b: bool)
    ensures
        b,
{
    true
}

impl Config {
    /// The configuration used on first run and whenever the stored one
    /// cannot be used.
    pub open spec fn spec_default() -> Config {
        Config {
            version: 1,
            refresh_interval_millis: 2000,
            opacity_permille: 850,
            show_cpu: true,
            show_memory: true,
            show_network: false,
            show_disk_io: false,
        }
    }

    /// This configuration with its interval and opacity brought into range;
    /// every other field is kept.
    pub open spec fn clamped(self) -> Config {
        Config {
            refresh_interval_millis: clamp_int(
                self.refresh_interval_millis as int,
                MIN_REFRESH_MILLIS as int,
                MAX_REFRESH_MILLIS as int,
            ) as u64,
            opacity_permille: clamp_int(
                self.opacity_permille as int,
                MIN_OPACITY_PERMILLE as int,
                MAX_OPACITY_PERMILLE as int,
            ) as u32,
            ..self
        }
    }

    /// Interval and opacity lie in their allowed ranges.
    pub open spec fn in_range(self) -> bool {
        &&& MIN_REFRESH_MILLIS <= self.refresh_interval_millis <= MAX_REFRESH_MILLIS
        &&& MIN_OPACITY_PERMILLE <= self.opacity_permille <= MAX_OPACITY_PERMILLE
    }

    /// At least one metric is shown.
    pub open spec fn has_enabled_metric(self) -> bool {
        self.show_cpu || self.show_memory || self.show_network || self.show_disk_io
    }

    /// A configuration the monitor may run with.
    pub open spec fn is_valid(self) -> bool {
        self.in_range() && self.has_enabled_metric()
    }

    /// Brings the refresh interval into `[1 s, 10 s]` and the opacity into
    /// `[0.3, 1.0]`, leaving every other field as it was.
    pub fn clamp(&mut self)
        ensures
            *final(self) == old(self).clamped(),
            final(self).in_range(),
            final(self).refresh_interval_millis == (if old(self).refresh_interval_millis
                < MIN_REFRESH_MILLIS {
                MIN_REFRESH_MILLIS
            } else if old(self).refresh_interval_millis > MAX_REFRESH_MILLIS {
                MAX_REFRESH_MILLIS
            } else {
                old(self).refresh_interval_millis
            }),
            final(self).opacity_permille == (if old(self).opacity_permille < MIN_OPACITY_PERMILLE {
                MIN_OPACITY_PERMILLE
            } else if old(self).opacity_permille > MAX_OPACITY_PERMILLE {
                MAX_OPACITY_PERMILLE
            } else {
                old(self).opacity_permille
            }),
            final(self).version == old(self).version,
            final(self).show_cpu == old(self).show_cpu,
            final(self).show_memory == old(self).show_memory,
            final(self).show_network == old(self).show_network,
            final(self).show_disk_io == old(self).show_disk_io,
    {
        if self.opacity_permille < MIN_OPACITY_PERMILLE {
            self.opacity_permille = MIN_OPACITY_PERMILLE;
        } else if self.opacity_permille > MAX_OPACITY_PERMILLE {
            self.opacity_permille = MAX_OPACITY_PERMILLE;
        }
        if self.refresh_interval_millis < MIN_REFRESH_MILLIS {
            self.refresh_interval_millis = MIN_REFRESH_MILLIS;
        } else if self.refresh_interval_millis > MAX_REFRESH_MILLIS {
            self.refresh_interval_millis = MAX_REFRESH_MILLIS;
        }
    }

    /// Whether any of CPU, memory, network or disk I/O is shown.
    pub fn any_metric_enabled(&self) -> (b: bool)
        ensures
            b == self.has_enabled_metric(),
            b == (self.show_cpu || self.show_memory || self.show_network || self.show_disk_io),
    {
        self.show_cpu || self.show_memory || self.show_network || self.show_disk_io
    }
}

impl Default for Config {
    fn default() -> (c: Self)
        ensures
            c == Config::spec_default(),
    {
        Config {
            version: default_version(),
            refresh_interval_millis: default_refresh(),
            opacity_permille: default_opacity(),
            show_cpu: true,
            show_memory: true,
            show_network: false,
            show_disk_io: false,
        }
    }
}

/// What reading the configuration file gave.
#[derive(Clone, Copy, Debug, PartialEq, Eq, Structural)]
pub enum StoredConfig {
    /// The file could not be read (most often: it does not exist yet).
    Unreadable,
    /// The file was read but does not hold a configuration.
    Malformed,
    /// The file held this configuration.
    Parsed(Config),
}

/// The configuration to run with after a load, and whether it has to be
/// written back to disk.
#[derive(Clone, Copy, Debug, PartialEq, Eq, Structural)]
pub struct Loaded {
    pub config: Config,
    pub rewrite: bool,
}

/// Why a configuration update was refused.
#[derive(Clone, Copy, Debug, PartialEq, Eq, Structural)]
pub enum ConfigError {
    /// Every metric would be hidden.
    NoMetricEnabled,
}

/// What a load settles on: a stored configuration is clamped and kept as long
/// as it shows some metric; otherwise the defaults are used and rewritten.
pub open spec fn spec_resolve_loaded(stored: StoredConfig) -> Loaded {
    match stored {
        StoredConfig::Parsed(c) => if c.clamped().has_enabled_metric() {
            Loaded { config: c.clamped(), rewrite: false }
        } else {
            Loaded { config: Config::spec_default(), rewrite: true }
        },
        _ => Loaded { config: Config::spec_default(), rewrite: true },
    }
}

/// What an update request settles on: the clamped request, unless it hides
/// every metric.
pub open spec fn spec_validated(candidate: Config) -> Result<Config, ConfigError> {
    if candidate.clamped().has_enabled_metric() {
        Ok(candidate.clamped())
    } else {
        Err(ConfigError::NoMetricEnabled)
    }
}

impl Config {
    /// Settles what a load of the configuration file gave: an unreadable or
    /// malformed file falls back to the defaults, a stored configuration is
    /// clamped, and one that hides every metric is replaced by the defaults.
    /// `rewrite` tells whether the result has to be written back.
    pub fn resolve_loaded(stored: StoredConfig) -> (r: Loaded)
        ensures
            r == spec_resolve_loaded(stored),
            r.config.is_valid(),
    {
        match stored {
            StoredConfig::Parsed(c) => {
                let mut config = c;
                config.clamp();
                if config.any_metric_enabled() {
                    Loaded { config, rewrite: false }
                } else {
                    Loaded { config: Config::default(), rewrite: true }
                }
            },
            _ => Loaded { config: Config::default(), rewrite: true },
        }
    }

    /// Checks a configuration sent by the settings panel: it is clamped, and
    /// refused when it would hide every metric.
    pub fn validated(candidate: Config) -> (r: Result<Config, ConfigError>)
        ensures
            r == spec_validated(candidate),
            r matches Ok(c) ==> c.is_valid(),
            r is Err <==> (!candidate.show_cpu && !candidate.show_memory && !candidate.show_network
                && !candidate.show_disk_io),
            r matches Ok(c) ==> c == candidate.clamped(),
    {
        let mut next = candidate;
        next.clamp();
        if !next.any_metric_enabled() {
            return Err(ConfigError::NoMetricEnabled);
        }
        Ok(next)
    }
}

impl ConfigError {
    /// The text shown to the user for this error.
    pub fn message(&self) -> (s: String)
        ensures
            s@ == "At least one metric must stay enabled."@,
    {
        match self {
            ConfigError::NoMetricEnabled => String::from_str("At least one metric must stay enabled."),
        }
    }
}

} // verus!
