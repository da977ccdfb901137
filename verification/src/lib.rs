//! Connection/session management and command protocol for a small fleet of
//! Bluetooth Low-Energy RGB/CCT light fixtures.
//!
//! The crate holds the pure, verified core: the settings model, the
//! state-diffing dispatcher that turns a pair of settings snapshots into an
//! ordered command batch, the binary frame codec with its checksum, the
//! discovery filters and deduplication registry, the per-device session state
//! machine, and the update-coalescing debouncer. All radio I/O, timers and
//! task plumbing live outside the library and hand it plain values.

pub mod debounce;
pub mod dispatch;
pub mod identity;
pub mod protocol;
pub mod scanner;
pub mod session;
pub mod settings;
