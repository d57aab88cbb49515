//! A deterministic stand-in for the bus resources.
//!
//! The readiness source reports busy for a configured number of polls and
//! ready from then on (a source that should never become ready is one with
//! a busy count no budget reaches).  Transfers hand back a scripted byte
//! sequence, consumed front to back and zero once exhausted.  Counters
//! record every select, release, transfer and poll, so a test can check how
//! the transaction engine actually drove the bus.

use vstd::prelude::*;

use crate::port::{BusEvent, SpiPort};

verus! {

/// Deterministic implementation of [`SpiPort`] for tests.
pub struct FakePort {
    /// Number of polls that report busy before the source flips to ready.
    pub busy_polls: u32,
    /// Bytes handed back on transfers, consumed front to back.
    pub rx_script: Vec<u8>,
    /// Cursor into `rx_script`.
    pub script_pos: usize,
    /// Number of readiness polls sampled so far.
    pub polls_made: u32,
    /// Number of chip-select assertions.
    pub selects: u32,
    /// Number of chip-select releases.
    pub releases: u32,
    /// Number of full-duplex transfers.
    pub transfers: u32,
    /// Every byte shifted out by the host, in order.
    pub tx_log: Vec<u8>,
    /// Fail the next select operations.
    pub fail_selects: bool,
    /// Fail the next transfer operations.
    pub fail_transfers: bool,
    /// Fail the next readiness polls.
    pub fail_polls: bool,
    /// Current chip-select level.
    pub is_selected: bool,
    /// Ghost log of everything that happened.
    pub events: Ghost<Seq<BusEvent>>,
}

/// A counter bump that sticks at the maximum instead of overflowing.
fn bump(x: u32) -> (r: u32)
    ensures
        x < u32::MAX ==> r == x + 1,
        x == u32::MAX ==> r == x,
{
    if x < u32::MAX {
        x + 1
    } else {
        x
    }
}

impl FakePort {
    /// A port whose readiness source stays busy for `busy_polls` polls and
    /// whose transfers shift back the bytes of `rx_script` in order.
    pub fn new(busy_polls: u32, rx_script: Vec<u8>) -> (r: FakePort)
        ensures
            !r.selected(),
            r.history() == Seq::<BusEvent>::empty(),
            r.busy_polls == busy_polls,
            r.polls_made == 0,
            r.selects == 0,
            r.releases == 0,
            r.transfers == 0,
    {
        FakePort {
            busy_polls,
            rx_script,
            script_pos: 0,
            polls_made: 0,
            selects: 0,
            releases: 0,
            transfers: 0,
            tx_log: Vec::new(),
            fail_selects: false,
            fail_transfers: false,
            fail_polls: false,
            is_selected: false,
            events: Ghost(Seq::empty()),
        }
    }
}

impl SpiPort for FakePort {
    closed spec fn history(&self) -> Seq<BusEvent> {
        self.events@
    }

    closed spec fn selected(&self) -> bool {
        self.is_selected
    }

    fn select(&mut self) -> (r: Result<(), ()>) {
        if self.fail_selects {
            return Err(());
        }
        self.is_selected = true;
        self.selects = bump(self.selects);
        proof {
            self.events@ = self.events@.push(BusEvent::Select);
        }
        Ok(())
    }

    fn release(&mut self) -> (r: Result<(), ()>) {
        self.is_selected = false;
        self.releases = bump(self.releases);
        proof {
            self.events@ = self.events@.push(BusEvent::Release);
        }
        Ok(())
    }

    fn transfer(&mut self, buf: &mut Vec<u8>) -> (r: Result<(), ()>) {
        if self.fail_transfers {
            return Err(());
        }
        let ghost mosi = buf@;
        let mut i: usize = 0;
        while i < buf.len()
            invariant
                i <= buf@.len(),
                buf@.len() == old(buf)@.len(),
                self.is_selected == old(self).is_selected,
                self.events@ == old(self).events@,
                self.busy_polls == old(self).busy_polls,
                self.polls_made == old(self).polls_made,
                self.selects == old(self).selects,
                self.releases == old(self).releases,
                self.transfers == old(self).transfers,
            decreases buf@.len() - i,
        {
            self.tx_log.push(buf[i]);
            let b: u8 = if self.script_pos < self.rx_script.len() {
                let v = self.rx_script[self.script_pos];
                self.script_pos += 1;
                v
            } else {
                0u8
            };
            buf[i] = b;
            i += 1;
        }
        self.transfers = bump(self.transfers);
        proof {
            self.events@ = self.events@.push(BusEvent::Transfer { mosi, miso: buf@ });
        }
        Ok(())
    }

    fn poll_ready(&mut self) -> (r: Result<bool, ()>) {
        if self.fail_polls {
            return Err(());
        }
        let ready = self.polls_made >= self.busy_polls;
        self.polls_made = bump(self.polls_made);
        proof {
            self.events@ = self.events@.push(BusEvent::Poll { ready });
        }
        Ok(ready)
    }
}

} // verus!
