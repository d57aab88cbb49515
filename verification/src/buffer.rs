//! The transaction buffer: one reusable byte region shared between the
//! outgoing and the incoming phase of a transfer, reflecting the full-duplex
//! shift registers of the hardware.
//!
//! The capacity is fixed at construction to the largest supported
//! single-transaction payload; a request above capacity is a caller error
//! that the engine reports, never a silent truncation.  Before a read phase
//! the buffer is pre-filled with zero ("NOP") bytes, since the value shifted
//! out during a read determines nothing but must be well defined.

use vstd::prelude::*;

use crate::port::zero_bytes;

verus! {

/// Fixed-capacity staging area for one transaction.
pub struct TransactionBuffer {
    /// The shared byte region.  Public so the engine can hand it to the
    /// port's transfer primitive; callers should treat it as internal.
    pub data: Vec<u8>,
    /// The fixed capacity.
    pub cap: usize,
}

impl TransactionBuffer {
    /// Capacity fixed at construction.
    pub open spec fn spec_cap(&self) -> nat {
        self.cap as nat
    }

    /// The bytes currently staged or harvested.
    pub open spec fn spec_data(&self) -> Seq<u8> {
        self.data@
    }

    /// The staged bytes never exceed the capacity.
    pub open spec fn wf(&self) -> bool {
        self.spec_data().len() <= self.spec_cap()
    }

    /// Create an empty buffer of the given fixed capacity.
    pub fn new(capacity: usize) -> (r: TransactionBuffer)
        ensures
            r.spec_cap() == capacity,
            r.spec_data() == Seq::<u8>::empty(),
            r.wf(),
    {
        TransactionBuffer { data: Vec::new(), cap: capacity }
    }

    /// Return the fixed capacity.
    pub fn capacity(&self) -> (r: usize)
        ensures
            r == self.spec_cap(),
    {
        self.cap
    }

    /// Stage outgoing bytes, replacing the previous contents.
    pub fn stage(&mut self, bytes: &[u8])
        requires
            bytes@.len() <= old(self).spec_cap(),
        ensures
            final(self).spec_cap() == old(self).spec_cap(),
            final(self).spec_data() == bytes@,
            final(self).wf(),
    {
        self.data.clear();
        let mut i: usize = 0;
        while i < bytes.len()
            invariant
                i <= bytes@.len(),
                self.data@ == bytes@.take(i as int),
                self.cap == old(self).cap,
            decreases bytes@.len() - i,
        {
            self.data.push(bytes[i]);
            i += 1;
        }
        proof {
            assert(self.data@ =~= bytes@);
        }
    }

    /// Stage outgoing bytes made of a fixed head (opcode and parameters)
    /// followed by a variable trailing payload.
    pub fn stage_with_payload(&mut self, head: &[u8], payload: &[u8])
        requires
            head@.len() + payload@.len() <= old(self).spec_cap(),
        ensures
            final(self).spec_cap() == old(self).spec_cap(),
            final(self).spec_data() == head@ + payload@,
            final(self).wf(),
    {
        self.data.clear();
        let mut i: usize = 0;
        while i < head.len()
            invariant
                i <= head@.len(),
                self.data@ == head@.take(i as int),
                self.cap == old(self).cap,
            decreases head@.len() - i,
        {
            self.data.push(head[i]);
            i += 1;
        }
        let mut j: usize = 0;
        while j < payload.len()
            invariant
                i == head@.len(),
                j <= payload@.len(),
                self.data@ == head@.take(i as int) + payload@.take(j as int),
                self.cap == old(self).cap,
            decreases payload@.len() - j,
        {
            self.data.push(payload[j]);
            j += 1;
        }
        proof {
            assert(self.data@ =~= head@ + payload@);
        }
    }

    /// Pre-fill with `n` zero ("NOP") probe bytes before a read phase.
    pub fn stage_probe(&mut self, n: usize)
        requires
            n <= old(self).spec_cap(),
        ensures
            final(self).spec_cap() == old(self).spec_cap(),
            final(self).spec_data() == zero_bytes(n as nat),
            final(self).wf(),
    {
        self.data.clear();
        let mut i: usize = 0;
        while i < n
            invariant
                i <= n,
                self.data@ == zero_bytes(i as nat),
                self.cap == old(self).cap,
            decreases n - i,
        {
            self.data.push(0u8);
            proof {
                assert(self.data@ =~= zero_bytes((i + 1) as nat));
            }
            i += 1;
        }
    }

    /// Harvest the incoming bytes left by the last transfer, as an owned
    /// copy that stays valid across the next transaction.
    pub fn harvest(&self) -> (r: Vec<u8>)
        ensures
            r@ == self.spec_data(),
    {
        let mut out: Vec<u8> = Vec::new();
        let mut i: usize = 0;
        while i < self.data.len()
            invariant
                i <= self.data@.len(),
                out@ == self.data@.take(i as int),
            decreases self.data@.len() - i,
        {
            out.push(self.data[i]);
            i += 1;
        }
        proof {
            assert(out@ =~= self.data@);
        }
        out
    }
}

} // verus!
