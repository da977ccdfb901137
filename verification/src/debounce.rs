//! Update coalescing: a burst of rapid settings updates (a slider drag)
//! collapses to the latest value once a quiet window has passed, trading
//! update latency for link bandwidth.
//!
//! The buffer is an explicit timer-driven state machine: the surrounding
//! task feeds it updates and clock readings and writes out whatever it
//! releases. Last value wins within the window; every new update restarts
//! the window.

use vstd::prelude::*;

use crate::settings::LightSettingsState;

verus! {

/// Width of the quiet window, in milliseconds.
pub const DEBOUNCE_WINDOW_MS: u64 = 100;

/// A one-slot coalescing buffer in front of a session.
pub struct Debouncer {
    /// The most recent update not yet released, if any.
    pub pending: Option<LightSettingsState>,
    /// The clock reading at which the pending update is released; only
    /// meaningful while an update is pending.
    pub deadline_ms: u64,
}

impl Debouncer {
    /// An empty buffer: nothing pending.
    pub fn new() -> (d: Self)
        ensures
            d.pending is None,
    {
        Debouncer { pending: None, deadline_ms: 0 }
    }

    /// Accept an update at clock reading `now_ms`: it replaces whatever was
    /// pending (last value wins) and restarts the quiet window.
    pub fn submit(&mut self, value: LightSettingsState, now_ms: u64)
        requires
            now_ms + DEBOUNCE_WINDOW_MS <= u64::MAX,
        ensures
            final(self).pending == Some(value),
            final(self).deadline_ms == now_ms + DEBOUNCE_WINDOW_MS,
    {
        self.pending = Some(value);
        self.deadline_ms = now_ms + DEBOUNCE_WINDOW_MS;
    }

    /// Clock tick at reading `now_ms`: releases the pending update exactly
    /// when its quiet window has elapsed, and leaves the buffer untouched
    /// otherwise.
    pub fn poll(&mut self, now_ms: u64) -> (released: Option<LightSettingsState>)
        ensures
            if old(self).pending is Some && old(self).deadline_ms <= now_ms {
                &&& released == old(self).pending
                &&& final(self).pending is None
                &&& final(self).deadline_ms == old(self).deadline_ms
            } else {
                released is None && *final(self) == *old(self)
            },
    {
        match self.pending {
            Some(value) => {
                if self.deadline_ms <= now_ms {
                    self.pending = None;
                    Some(value)
                } else {
                    None
                }
            },
            None => None,
        }
    }
}

} // verus!
