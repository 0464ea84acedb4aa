//! The sampling clock. The handler owns only the tick rate; the loop that
//! blocks on keyboard input for up to one tick and forwards key or tick
//! events over a channel runs in the surrounding program, which owns the
//! terminal.

use vstd::prelude::*;

verus! {

/// Configuration of the event loop: how long one tick lasts.
pub struct EventHandler {
    pub tick_rate: core::time::Duration,
}

impl EventHandler {
    pub fn new(tick_rate: core::time::Duration) -> (r: Self)
        ensures
            r.tick_rate == tick_rate,
    {
        EventHandler { tick_rate }
    }
}

} // verus!
