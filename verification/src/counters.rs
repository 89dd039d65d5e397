//! Server-wide counters shared across sessions.

use vstd::prelude::*;

verus! {

/// The number of connected players.
#[derive(Debug, Default)]
pub struct PlayerCount(pub std::sync::atomic::AtomicUsize);

/// The number of ticks elapsed since the server started.
#[derive(Debug, Default, Clone, Copy, PartialEq, Eq, Structural)]
pub struct TickCount(pub u64);

} // verus!
