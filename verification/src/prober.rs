//! Liveness prober: keep connections warm with periodic advisory pings.
//!
//! The surrounding runtime wakes the prober on a timer.  The first wake-up
//! only ends the startup grace period; every later wake-up yields exactly
//! one encoded ping to broadcast.  Receivers need not reply, and a failed
//! broadcast costs the prober nothing: it holds no retry state at all, so
//! repeated failures cannot accumulate anything.

use vstd::prelude::*;

use crate::codec::{spec_encode_request, encode_request};
use crate::proto::Request;

verus! {

/// The prober's whole state: whether the startup grace period has passed.
pub struct ProberState {
    pub warmed_up: bool,
}

impl ProberState {
    /// A prober still in its startup grace period.
    pub fn new() -> (p: ProberState)
        ensures
            !p.warmed_up,
    {
        ProberState { warmed_up: false }
    }

    /// One timer wake-up: the first ends the grace period and sends
    /// nothing; every later one yields one encoded advisory ping.
    pub fn on_tick(&mut self) -> (ping: Option<Vec<u8>>)
        ensures
            final(self).warmed_up,
            old(self).warmed_up ==> (ping matches Some(p) && p@ == spec_encode_request(
                Request::Ping,
            )),
            !old(self).warmed_up ==> ping is None,
    {
        if self.warmed_up {
            Some(encode_request(&Request::Ping))
        } else {
            self.warmed_up = true;
            None
        }
    }
}

} // verus!
