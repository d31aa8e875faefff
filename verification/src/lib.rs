//! Core logic of `rmo`, a small floating system monitor: the persisted
//! configuration and its rules, the turning of raw counter readings into a
//! metrics snapshot, the colour bands and speed labels shown to the user, and
//! the shared state that the desktop shell drives.

pub mod config;
pub mod speed;
pub mod metrics;
pub mod state;
pub mod laws;
