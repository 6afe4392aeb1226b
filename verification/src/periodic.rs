//! The periodic task's logic: once per timer period it toggles the liveness
//! indicator and produces the fixed status-query frame to transmit over the
//! serial link. No response is awaited; replies arrive through the receive
//! task independently.

use vstd::prelude::*;

verus! {

/// The fixed status-query frame transmitted once per period: the ASCII bytes
/// of `AT+ADDRESS?` followed by a carriage return and a newline.
pub open spec fn status_query_spec() -> Seq<u8> {
    seq![65u8, 84u8, 43u8, 65u8, 68u8, 68u8, 82u8, 69u8, 83u8, 83u8, 63u8, 13u8, 10u8]
}

/// The liveness indicator: a single binary output line, owned by the
/// periodic task alone and toggled once per period.
pub struct Liveness {
    on: bool,
}

impl Liveness {
    /// The indicator's current level.
    pub closed spec fn is_on(&self) -> bool {
        self.on
    }

    /// A new indicator, initially off.
    pub fn new() -> (l: Liveness)
        ensures
            !l.is_on(),
    {
        Liveness { on: false }
    }

    /// Toggle the output: the level after is the opposite of the level
    /// before, never a fixed level.
    pub fn toggle(&mut self)
        ensures
            final(self).is_on() == !old(self).is_on(),
    {
        self.on = !self.on;
    }

    /// Read the current level.
    pub fn level(&self) -> (b: bool)
        ensures
            b == self.is_on(),
    {
        self.on
    }
}

/// Build the status-query frame as owned bytes, ready to be written to the
/// serial link one byte at a time.
pub fn status_query() -> (q: Vec<u8>)
    ensures
        q@ == status_query_spec(),
{
    let mut q: Vec<u8> = Vec::new();
    q.push(65u8);
    q.push(84u8);
    q.push(43u8);
    q.push(65u8);
    q.push(68u8);
    q.push(68u8);
    q.push(82u8);
    q.push(69u8);
    q.push(83u8);
    q.push(83u8);
    q.push(63u8);
    q.push(13u8);
    q.push(10u8);
    proof {
        assert(q@ =~= status_query_spec());
    }
    q
}

/// One period of the periodic task: the liveness indicator toggles and
/// exactly one status-query frame is produced for transmission, independent
/// of anything the receive task does meanwhile.
pub fn periodic_step(led: &mut Liveness) -> (tx: Vec<u8>)
    ensures
        final(led).is_on() == !old(led).is_on(),
        tx@ == status_query_spec(),
{
    led.toggle();
    status_query()
}

} // verus!
