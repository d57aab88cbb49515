//! Bus resources: chip-select, full-duplex transfer, readiness signal.
//!
//! The transaction engine talks to hardware only through [`SpiPort`].  The
//! trait records every interaction in a ghost history of [`BusEvent`]s, so
//! the engine's contracts can pin down the exact order of chip-select
//! framing, transfers and readiness polls.  A real implementation drives an
//! SPI bus, an output pin and a busy input; a deterministic test double
//! implements the same trait in [`crate::fake`].

use vstd::prelude::*;

verus! {

/// One observable interaction with the bus resources.
pub enum BusEvent {
    /// Chip-select asserted (driven low), framing the start of a bus phase.
    Select,
    /// Chip-select released (driven high), ending the bus phase.
    Release,
    /// One full-duplex transfer while selected: `mosi` is what the host
    /// shifted out, `miso` what the chip shifted back, byte for byte.
    Transfer { mosi: Seq<u8>, miso: Seq<u8> },
    /// One sample of the readiness signal.
    Poll { ready: bool },
}

/// The bus resources owned by one driver instance: an exclusive chip-select
/// line, an exclusive full-duplex serial bus, and a read-only readiness
/// source.
///
/// Every operation appends what happened to the ghost `history`; on failure
/// the history is unchanged, so the contracts of the engine can speak of
/// exactly the events that reached the hardware.  Implementations that poll
/// a real pin should yield control between polls so other cooperative tasks
/// can run; one poll stands for one sample (plus whatever pacing delay the
/// implementation chooses).
pub trait SpiPort: Sized {
    /// Ghost log of everything that happened on the bus resources.
    ///
    /// The default stands for implementations outside the verified world,
    /// whose interactions nothing observes; a verified implementation
    /// overrides it with its real log.
    open spec fn history(&self) -> Seq<BusEvent> {
        Seq::empty()
    }

    /// Whether chip-select is currently asserted.
    open spec fn selected(&self) -> bool {
        false
    }

    /// Assert chip-select.
    fn select(&mut self) -> (r: Result<(), ()>)
        requires
            !old(self).selected(),
        ensures
            r is Ok ==> final(self).selected() && final(self).history() == old(
                self,
            ).history().push(BusEvent::Select),
            r is Err ==> final(self).history() == old(self).history() && final(self).selected()
                == old(self).selected(),
    ;

    /// Release chip-select.
    fn release(&mut self) -> (r: Result<(), ()>)
        ensures
            r is Ok ==> !final(self).selected() && final(self).history() == old(
                self,
            ).history().push(BusEvent::Release),
            r is Err ==> final(self).history() == old(self).history() && final(self).selected()
                == old(self).selected(),
    ;

    /// One full-duplex transfer: shift out the bytes of `buf`, and replace
    /// them in place with the bytes the chip shifted back.
    fn transfer(&mut self, buf: &mut Vec<u8>) -> (r: Result<(), ()>)
        requires
            old(self).selected(),
        ensures
            final(self).selected() == old(self).selected(),
            final(buf)@.len() == old(buf)@.len(),
            r is Ok ==> final(self).history() == old(self).history().push(
                BusEvent::Transfer { mosi: old(buf)@, miso: final(buf)@ },
            ),
            r is Err ==> final(self).history() == old(self).history(),
    ;

    /// Sample the readiness signal once: `Ok(true)` when the chip is ready
    /// to accept the next bus phase, `Ok(false)` while it is still busy.
    fn poll_ready(&mut self) -> (r: Result<bool, ()>)
        ensures
            final(self).selected() == old(self).selected(),
            r matches Ok(ready) ==> final(self).history() == old(self).history().push(
                BusEvent::Poll { ready },
            ),
            r is Err ==> final(self).history() == old(self).history(),
    ;
}

/// A sequence of `n` zero ("NOP") probe bytes.
pub open spec fn zero_bytes(n: nat) -> Seq<u8> {
    Seq::new(n, |i: int| 0u8)
}

/// The events of one complete write phase: select, one transfer whose
/// outgoing bytes are the request (the shadow bytes shifted back during the
/// write are undefined and discarded), release.
pub open spec fn write_txn_events(req: Seq<u8>, shadow: Seq<u8>) -> Seq<BusEvent> {
    seq![
        BusEvent::Select,
        BusEvent::Transfer { mosi: req, miso: shadow },
        BusEvent::Release,
    ]
}

/// The events of one complete read phase: select, one transfer that pumps
/// zero probe bytes out and the response bytes in, release.
pub open spec fn read_txn_events(rsp: Seq<u8>) -> Seq<BusEvent> {
    seq![
        BusEvent::Select,
        BusEvent::Transfer { mosi: zero_bytes(rsp.len()), miso: rsp },
        BusEvent::Release,
    ]
}

/// All events of the sequence are readiness polls.
pub open spec fn all_polls(s: Seq<BusEvent>) -> bool {
    forall|i: int| 0 <= i < s.len() ==> s[i] is Poll
}

/// A run of `n` polls that all reported busy.
pub open spec fn busy_polls(n: nat) -> Seq<BusEvent> {
    Seq::new(n, |i: int| BusEvent::Poll { ready: false })
}

/// All events of the sequence are polls that reported busy.
pub open spec fn all_busy_polls(s: Seq<BusEvent>) -> bool {
    forall|i: int| 0 <= i < s.len() ==> s[i] == (BusEvent::Poll { ready: false })
}

/// A successful wait within `budget` polls: at least one poll, every poll
/// but the last reported busy, and the last reported ready.
pub open spec fn wait_ok_events(polls: Seq<BusEvent>, budget: u32) -> bool {
    &&& 1 <= polls.len() <= budget
    &&& all_busy_polls(polls.take(polls.len() - 1))
    &&& polls.last() == (BusEvent::Poll { ready: true })
}

/// A wait that timed out: exactly `budget` polls, all reporting busy.
pub open spec fn wait_timeout_events(polls: Seq<BusEvent>, budget: u32) -> bool {
    polls.len() == budget && all_busy_polls(polls)
}

} // verus!
