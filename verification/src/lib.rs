//! Suspend-decision engine for a user-space autosuspend daemon.
//!
//! The library holds the logic the daemon's correctness rests on: monotonic
//! timestamps and their arithmetic, parsing of the kernel's wakeup-source
//! accounting table, the suspend-mode selection policy, the race-free
//! wakeup-count handshake, and the per-cycle decisions of the control loop.
//! The thin shell that performs the actual file reads and writes lives
//! outside and feeds this library plain values.

pub mod controller;
pub mod wakeup_count;
pub mod suspend;
pub mod text;
pub mod wakeup_sources;
pub mod time;
