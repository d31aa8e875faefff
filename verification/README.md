# rmo

The core of a small floating system monitor, verified with Verus.

- `src/config.rs`: the persisted configuration, its defaults, clamping,
  what a load settles on and which updates are accepted.
- `src/metrics.rs`: turning counter readings into a snapshot of CPU and
  memory usage and network and disk rates; the colour bands of usage values.
- `src/speed.rs`: labels such as `512.0 KB/s` and `2.0 MB/s`.
- `src/state.rs`: the shared state and how commands and refreshes change it.
- `src/laws.rs`: properties proved across those operations.
- `app/`: the desktop shell (Tauri), the configuration file (serde, JSON) and
  the system readings (sysinfo).

Fractional quantities are held in fixed point: the refresh interval in
milliseconds, the opacity in thousandths, percentages in hundredths of a
percent and speeds in whole bytes per second. The shell converts to and from
the floating-point values of the JSON file and of the frontend.
