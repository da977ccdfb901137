//! Per-device connection session: the decision core of the event loop.
//!
//! One session owns the last-applied settings snapshot, the resolved device
//! identity, and the connection state. The surrounding task performs the
//! radio work — writes, liveness queries, reconnect attempts, timers — and
//! feeds the outcomes back in as plain values; every decision about what to
//! write and which state to move to is made and verified here.

use vstd::prelude::*;

use crate::dispatch::{diff, full_sync_commands, spec_diff, spec_full_sync};
use crate::identity::{resolve_mac, spec_resolve_mac, MacAddress};
use crate::protocol::{encode_batch, frame_views, frames_of};
use crate::settings::LightSettingsState;

verus! {

/// Connection state of a session. A session is only ever constructed on an
/// already-connected device, and has no terminal state of its own: it ends
/// when its driving settings stream ends or a write fails.
#[derive(Clone, Copy, PartialEq, Eq, Structural, Debug)]
pub enum ConnectionState {
    Connected,
    Disconnected,
    Reconnecting,
}

/// The state a ConnectionSession tracks for one physical device.
pub struct ConnectionSession {
    /// The settings snapshot last written out in full or by diff.
    pub last_applied: LightSettingsState,
    /// The hardware address; may move from unknown to known exactly once.
    pub mac: MacAddress,
    /// Where the session stands in its connection lifecycle.
    pub state: ConnectionState,
}

impl ConnectionSession {
    /// A known hardware address holds exactly six bytes.
    pub open spec fn wf(self) -> bool {
        self.mac.wf()
    }

    /// A fresh session: just connected, address unresolved, and the default
    /// snapshot as the baseline that the construction-time full write puts
    /// on the device.
    pub fn new() -> (s: Self)
        ensures
            s.last_applied == LightSettingsState::spec_default(),
            s.mac is Unknown,
            s.state is Connected,
            s.wf(),
    {
        ConnectionSession {
            last_applied: LightSettingsState::default(),
            mac: MacAddress::Unknown,
            state: ConnectionState::Connected,
        }
    }

    /// The frames written unconditionally right after construction, putting
    /// the whole baseline snapshot on the device: there is no meaningful
    /// previous device state to diff against.
    pub fn initial_frames(&self) -> (frames: Vec<Vec<u8>>)
        ensures
            frame_views(frames@) == frames_of(spec_full_sync(self.last_applied)),
    {
        let commands = full_sync_commands(&self.last_applied);
        encode_batch(&commands)
    }

    /// A settings update arrived: the frames that converge the device from
    /// the last-applied snapshot to `next`, which becomes the new baseline.
    /// The caller writes the frames strictly in order.
    pub fn apply_settings(&mut self, next: &LightSettingsState) -> (frames: Vec<Vec<u8>>)
        ensures
            final(self).last_applied == *next,
            final(self).mac == old(self).mac,
            final(self).state == old(self).state,
            frame_views(frames@) == frames_of(spec_diff(old(self).last_applied, *next)),
    {
        let commands = diff(&self.last_applied, next);
        self.last_applied = *next;
        encode_batch(&commands)
    }

    /// Whether the next health-check tick should try to resolve the address.
    pub fn needs_mac(&self) -> (r: bool)
        ensures
            r == (self.mac is Unknown),
    {
        self.mac.is_unknown()
    }

    /// Best-effort address resolution on a health-check tick. An already
    /// known address is immutable and never overwritten; an unknown one
    /// becomes known iff the manufacturer data holds a well-formed entry.
    pub fn learn_mac(&mut self, entries: &Vec<(u16, Vec<u8>)>)
        requires
            old(self).wf(),
        ensures
            final(self).last_applied == old(self).last_applied,
            final(self).state == old(self).state,
            old(self).mac is Known ==> final(self).mac == old(self).mac,
            old(self).mac is Unknown ==> match spec_resolve_mac(entries@) {
                Some(b) => final(self).mac matches MacAddress::Known(v) && v@ == b,
                None => final(self).mac is Unknown,
            },
            final(self).wf(),
    {
        if self.mac.is_unknown() {
            match resolve_mac(entries) {
                Some(mac) => {
                    self.mac = MacAddress::Known(mac);
                },
                None => {},
            }
        }
    }

    /// Liveness query outcome on a health-check tick: a live connection
    /// stays `Connected`; a dead one is recorded `Disconnected`.
    pub fn on_liveness(&mut self, connected: bool)
        ensures
            final(self).last_applied == old(self).last_applied,
            final(self).mac == old(self).mac,
            final(self).state == if connected {
                ConnectionState::Connected
            } else {
                ConnectionState::Disconnected
            },
    {
        if connected {
            self.state = ConnectionState::Connected;
        } else {
            self.state = ConnectionState::Disconnected;
        }
    }

    /// A disconnected session immediately enters the reconnect loop, which
    /// blocks all other event handling for this session until it succeeds.
    pub fn begin_reconnect(&mut self)
        requires
            old(self).state is Disconnected,
        ensures
            final(self).last_applied == old(self).last_applied,
            final(self).mac == old(self).mac,
            final(self).state is Reconnecting,
    {
        self.state = ConnectionState::Reconnecting;
    }

    /// Outcome of one reconnect attempt. Liveness confirmed ends the loop;
    /// anything else keeps reconnecting — there is no retry cap.
    pub fn on_reconnect_attempt(&mut self, connected: bool)
        requires
            old(self).state is Reconnecting,
        ensures
            final(self).last_applied == old(self).last_applied,
            final(self).mac == old(self).mac,
            final(self).state == if connected {
                ConnectionState::Connected
            } else {
                ConnectionState::Reconnecting
            },
    {
        if connected {
            self.state = ConnectionState::Connected;
        }
    }
}

} // verus!
