//! Finding a free local port.

use vstd::prelude::*;

verus! {

/// How many further ports are tried where the requested one is taken.
pub const LOCAL_BIND_PORT_FALLBACK_ATTEMPTS: u16 = 100;

/// The search for a free port, one attempt after the other.
#[derive(Debug, Clone, Copy, PartialEq, Eq, Structural)]
pub struct PortSearch {
    /// The port that was asked for; zero stands for any.
    pub requested: u16,
    /// The port of the attempt under way.
    pub port: u16,
    /// The attempts that failed.
    pub failures: u16,
}

/// What follows a failed attempt.
#[derive(Debug, Clone, Copy, PartialEq, Eq, Structural)]
pub enum PortStep {
    /// Try the next port.
    Retry,
    /// Give up: the attempt failed for another reason, or there is no next port.
    Fail,
    /// Give up: all attempts are used.
    Exhausted,
}

/// What follows a failed attempt, and the state of the search.
pub open spec fn port_step(s: PortSearch, taken: bool) -> (PortSearch, PortStep) {
    if !taken || s.requested == 0 || s.port == u16::MAX {
        (s, PortStep::Fail)
    } else if s.failures < LOCAL_BIND_PORT_FALLBACK_ATTEMPTS {
        (
            PortSearch { port: (s.port + 1) as u16, failures: (s.failures + 1) as u16, ..s },
            PortStep::Retry,
        )
    } else {
        (s, PortStep::Exhausted)
    }
}

impl PortSearch {
    /// The search for a port at or behind `requested`.
    pub fn new(requested: u16) -> (r: Self)
        ensures
            r == (PortSearch { requested, port: requested, failures: 0 }),
    {
        PortSearch { requested, port: requested, failures: 0 }
    }

    /// Takes a failed attempt: `taken` tells whether the port was in use.
    pub fn failed(&mut self, taken: bool) -> (r: PortStep)
        ensures
            (*final(self), r) == port_step(*old(self), taken),
    {
        if !taken || self.requested == 0 || self.port == u16::MAX {
            return PortStep::Fail;
        }
        if self.failures < LOCAL_BIND_PORT_FALLBACK_ATTEMPTS {
            self.port = self.port + 1;
            self.failures = self.failures + 1;
            return PortStep::Retry;
        }
        PortStep::Exhausted
    }
}

/// The ports are tried one after the other from the requested one on.
pub open spec fn search_inv(s: PortSearch) -> bool {
    s.port == s.requested + s.failures && s.failures <= LOCAL_BIND_PORT_FALLBACK_ATTEMPTS
}

/// Every step keeps the order of the ports, and a port found after the first
/// attempt lies behind the requested one.
pub proof fn ports_are_tried_in_order(s: PortSearch, taken: bool)
    requires
        search_inv(s),
    ensures
        search_inv(port_step(s, taken).0),
        port_step(s, taken).1 == PortStep::Retry ==> port_step(s, taken).0.port > s.requested,
{
}

} // verus!
