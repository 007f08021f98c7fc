//! The connection loop's decisions: when to (re)connect, and whether a tick
//! runs a full sweep or a passive refresh. The caller waits between ticks
//! and performs what is decided.

use vstd::prelude::*;

verus! {

/// A full sweep runs on every this many ticks; querying more often
/// destabilizes some firmware.
pub const ACTIVE_EVERY: u64 = 60;

/// Where the connection stands.
#[derive(Debug, Clone, Copy, PartialEq, Eq, Structural)]
pub enum LinkState {
    Disconnected,
    /// Connected, with the number of ticks since the connection was made.
    Connected { tick: u64 },
}

/// What the caller is to do on the next tick.
#[derive(Debug, Clone, Copy, PartialEq, Eq, Structural)]
pub enum PollAction {
    /// Resolve and open a device.
    Connect,
    /// Run an active refresh.
    ActiveRefresh,
    /// Run a passive refresh.
    PassiveRefresh,
}

pub open spec fn poll_action(s: LinkState) -> PollAction {
    match s {
        LinkState::Disconnected => PollAction::Connect,
        LinkState::Connected { tick } => if tick % ACTIVE_EVERY == 0 {
            PollAction::ActiveRefresh
        } else {
            PollAction::PassiveRefresh
        },
    }
}

/// What to do on the next tick: connect when disconnected; otherwise a full
/// sweep on the first tick and every `ACTIVE_EVERY` ticks after, else a
/// passive refresh.
pub fn next_poll_action(s: LinkState) -> (r: PollAction)
    ensures
        r == poll_action(s),
{
    match s {
        LinkState::Disconnected => PollAction::Connect,
        LinkState::Connected { tick } => if tick % ACTIVE_EVERY == 0 {
            PollAction::ActiveRefresh
        } else {
            PollAction::PassiveRefresh
        },
    }
}

/// The state after an attempt to connect.
pub fn after_connect(connected: bool) -> (r: LinkState)
    ensures
        r == (if connected {
            LinkState::Connected { tick: 0 }
        } else {
            LinkState::Disconnected
        }),
{
    if connected {
        LinkState::Connected { tick: 0 }
    } else {
        LinkState::Disconnected
    }
}

/// The state after a refresh: a failed refresh ends the connection, which
/// is then made afresh; a good one moves to the next tick (the count wraps).
pub fn after_refresh(s: LinkState, succeeded: bool) -> (r: LinkState)
    ensures
        r == (match s {
            LinkState::Connected { tick } => if succeeded {
                LinkState::Connected { tick: if tick == u64::MAX { 0 } else { (tick + 1) as u64 } }
            } else {
                LinkState::Disconnected
            },
            LinkState::Disconnected => LinkState::Disconnected,
        }),
{
    match s {
        LinkState::Connected { tick } => if succeeded {
            LinkState::Connected { tick: if tick == u64::MAX { 0 } else { tick + 1 } }
        } else {
            LinkState::Disconnected
        },
        LinkState::Disconnected => LinkState::Disconnected,
    }
}

} // verus!
