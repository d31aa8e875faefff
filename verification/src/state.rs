//! The state shared by the monitor's commands and its refresh loop, and how
//! each of them changes it.

use vstd::prelude::*;
use crate::config::{Config, ConfigError, spec_validated};
use crate::metrics::{CounterSample, MetricsCollector, MetricsSnapshot, spec_refreshed, spec_snapshot};

verus! {

/// Everything the running monitor remembers between commands.
#[derive(Clone, Copy, Debug, PartialEq, Eq, Structural)]
pub struct AppState {
    /// The configuration in force.
    pub config: Config,
    /// The collector's memory of previous samples.
    pub collector: MetricsCollector,
    /// The snapshot of the latest refresh.
    pub latest_snapshot: MetricsSnapshot,
    /// Whether the window is moved back to the bottom-right corner after it
    /// is resized or shown.
    pub auto_positioning: bool,
}

/// The state after an update request: the validated configuration replaces
/// the current one; a refused request changes nothing.
pub open spec fn spec_after_update(s: AppState, candidate: Config) -> AppState {
    match spec_validated(candidate) {
        Ok(c) => AppState { config: c, ..s },
        Err(_) => s,
    }
}

/// The state after a refresh with the given collection flags.
pub open spec fn spec_after_refresh(
    s: AppState,
    collect_network: bool,
    collect_disk: bool,
    sample: CounterSample,
) -> AppState {
    AppState {
        collector: spec_refreshed(s.collector, collect_network, collect_disk, sample),
        latest_snapshot: spec_snapshot(
            s.collector,
            collect_network,
            collect_disk,
            sample,
        ),
        ..s
    }
}

/// The state after the automatic positioning is switched on or off.
pub open spec fn spec_after_set_auto_positioning(s: AppState, enabled: bool) -> AppState {
    AppState { auto_positioning: enabled, ..s }
}

impl AppState {
    /// The state at start-up: automatic positioning is on.
    pub fn new(config: Config, collector: MetricsCollector, latest_snapshot: MetricsSnapshot) -> (s:
        Self)
        ensures
            s == (AppState { config, collector, latest_snapshot, auto_positioning: true }),
    {
        AppState { config, collector, latest_snapshot, auto_positioning: true }
    }

    /// Applies a configuration sent by the settings panel: it is clamped and
    /// put in force, or refused when it would hide every metric, in which
    /// case nothing changes.
    pub fn update_config(&mut self, candidate: Config) -> (r: Result<Config, ConfigError>)
        ensures
            r == spec_validated(candidate),
            *final(self) == spec_after_update(*old(self), candidate),
            r is Err <==> (!candidate.show_cpu && !candidate.show_memory && !candidate.show_network
                && !candidate.show_disk_io),
            r is Err ==> *final(self) == *old(self),
            r matches Ok(c) ==> *final(self) == (AppState { config: c, ..*old(self) }),
    {
        let r = Config::validated(candidate);
        if let Ok(c) = r {
            self.config = c;
        }
        r
    }

    /// Records one refresh of the metrics and returns its snapshot.
    pub fn refresh_metrics(
        &mut self,
        collect_network: bool,
        collect_disk: bool,
        sample: &CounterSample,
    ) -> (snap: MetricsSnapshot)
        ensures
            snap == spec_snapshot(
                old(self).collector,
                collect_network,
                collect_disk,
                *sample,
            ),
            *final(self) == spec_after_refresh(*old(self), collect_network, collect_disk, *sample),
            final(self).latest_snapshot == snap,
            final(self).config == old(self).config,
            final(self).auto_positioning == old(self).auto_positioning,
    {
        let snap = self.collector.refresh(collect_network, collect_disk, sample);
        self.latest_snapshot = snap;
        snap
    }

    /// Switches the automatic positioning on or off.
    pub fn set_auto_positioning(&mut self, enabled: bool)
        ensures
            *final(self) == spec_after_set_auto_positioning(*old(self), enabled),
            final(self).auto_positioning == enabled,
            final(self).config == old(self).config,
            final(self).collector == old(self).collector,
            final(self).latest_snapshot == old(self).latest_snapshot,
    {
        self.auto_positioning = enabled;
    }
}

} // verus!
