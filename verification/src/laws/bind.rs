//! Finding a free port.

use vstd::prelude::*;

use crate::bind::{PortSearch, PortStep};

verus! {

/// A port that is taken is followed by the next one, up to a hundred times; any other
/// failure, and the last port of all, end the search.
pub proof fn taken_ports_are_followed_by_the_next(
    requested: u16,
    start: PortSearch,
    s: &mut PortSearch,
    taken: bool,
    r: PortStep,
)
    requires
        call_ensures(PortSearch::new, (requested,), start),
        call_ensures(PortSearch::failed, (s, taken), r),
    ensures
        start.requested == requested && start.port == requested && start.failures == 0,
        r == PortStep::Retry <==> taken && old(s).requested != 0 && old(s).port < 65_535 && old(
            s,
        ).failures < 100,
        r == PortStep::Retry ==> final(s).port == old(s).port + 1 && final(s).failures == old(
            s,
        ).failures + 1,
        r == PortStep::Exhausted ==> old(s).failures >= 100 && taken,
        r != PortStep::Retry ==> *final(s) == *old(s),
        !taken ==> r == PortStep::Fail,
        final(s).requested == old(s).requested,
{
}

} // verus!
