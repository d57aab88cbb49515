//! The transaction executor: one request/response cycle per call.
//!
//! Each public operation drives exactly one transaction shape over the bus
//! resources: fire-and-forget write, write with status check, write then
//! read, write with a trailing payload, or a streamed multi-chunk read.  The
//! chip's readiness signal is polled, with a caller-supplied budget, before
//! any response bytes are pumped out: the result is not ready on the wire
//! until busy deasserts, and reading too early yields undefined data rather
//! than an error, so correctness depends entirely on the wait discipline.
//!
//! The contracts are stated over the ghost event history of the port: for
//! every outcome they say which selects, transfers and polls reached the
//! hardware, and in which order.

use vstd::prelude::*;

use crate::Lr1120Error;
use crate::status::{CmdStatus, Status};
use crate::buffer::TransactionBuffer;
use crate::port::{
    BusEvent, SpiPort, all_busy_polls, all_polls, busy_polls, read_txn_events, wait_ok_events,
    wait_timeout_events, write_txn_events, zero_bytes,
};

verus! {

/// Driver instance: the exclusively owned bus resources plus the fixed
/// transaction buffer.  All methods require `&mut self`, so two transactions
/// can never interleave their chip-select assertions on one handle.
pub struct Lr1120<P: SpiPort> {
    /// The bus resources.  Public so that contracts (and tests with a fake
    /// port) can speak about the event history.
    pub port: P,
    /// The transaction buffer.  Public so the engine's contracts stay
    /// transparent; callers should treat it as internal state.
    pub buffer: TransactionBuffer,
    /// The readiness poll budget handed to [`Self::wait_ready`] by the
    /// convenience command wrappers.
    pub poll_budget: u32,
}

impl<P: SpiPort> Lr1120<P> {
    /// Capacity of the transaction buffer, fixed at construction.
    pub open spec fn spec_cap(&self) -> nat {
        self.buffer.spec_cap()
    }

    /// The readiness poll budget used by the convenience command wrappers.
    pub open spec fn spec_poll_budget(&self) -> u32 {
        self.poll_budget
    }

    /// Between transactions the chip-select line is released and the buffer
    /// holds no more than its capacity.
    pub open spec fn wf(&self) -> bool {
        &&& !self.port.selected()
        &&& self.buffer.wf()
    }

    /// Take ownership of the bus resources.
    ///
    /// `capacity` fixes the transaction buffer size to the largest supported
    /// single-transaction payload.  `poll_budget` is the readiness budget
    /// the convenience command wrappers hand to [`Self::wait_ready`]; the
    /// engine operations themselves always take an explicit budget.
    pub fn new(port: P, capacity: usize, poll_budget: u32) -> (r: Lr1120<P>)
        requires
            !port.selected(),
        ensures
            r.wf(),
            r.port == port,
            r.spec_cap() == capacity,
            r.spec_poll_budget() == poll_budget,
    {
        Lr1120 { port, buffer: TransactionBuffer::new(capacity), poll_budget }
    }

    /// Return the fixed capacity of the transaction buffer.
    pub fn capacity(&self) -> (r: usize)
        ensures
            r == self.spec_cap(),
    {
        self.buffer.capacity()
    }

    /// Poll the readiness signal until the chip reports ready, or until
    /// `budget` polls have all reported busy.
    ///
    /// Readiness is never cached: every wait re-samples the signal.  A
    /// timeout is returned as [`Lr1120Error::Timeout`], distinguishable from
    /// transport errors since the caller may retry with a longer budget.
    pub fn wait_ready(&mut self, budget: u32) -> (r: Result<(), Lr1120Error>)
        requires
            old(self).wf(),
        ensures
            final(self).wf(),
            final(self).spec_cap() == old(self).spec_cap(),
            final(self).buffer == old(self).buffer,
            final(self).spec_poll_budget() == old(self).spec_poll_budget(),
            old(self).port.history().is_prefix_of(final(self).port.history()),
            ({
                let polls = final(self).port.history().skip(old(self).port.history().len() as int);
                &&& all_polls(polls)
                &&& (r is Ok ==> wait_ok_events(polls, budget))
                &&& (r == Err::<(), Lr1120Error>(Lr1120Error::Timeout) ==> wait_timeout_events(
                    polls,
                    budget,
                ))
                &&& (r == Err::<(), Lr1120Error>(Lr1120Error::Pin) ==> all_busy_polls(polls)
                    && polls.len() < budget)
                &&& (r is Ok || r == Err::<(), Lr1120Error>(Lr1120Error::Timeout) || r == Err::<
                    (),
                    Lr1120Error,
                >(Lr1120Error::Pin))
            }),
    {
        let ghost pre = self.port.history();
        let mut i: u32 = 0;
        while i < budget
            invariant
                self.wf(),
                self.buffer == old(self).buffer,
                self.poll_budget == old(self).poll_budget,
                pre == old(self).port.history(),
                self.port.history() == pre + busy_polls(i as nat),
                i <= budget,
            decreases budget - i,
        {
            let ghost h0 = self.port.history();
            match self.port.poll_ready() {
                Ok(true) => {
                    proof {
                        assert(pre.is_prefix_of(self.port.history())) by {
                            assert(pre =~= self.port.history().subrange(0, pre.len() as int));
                        }
                        let polls = self.port.history().skip(pre.len() as int);
                        assert(polls =~= busy_polls(i as nat).push(
                            BusEvent::Poll { ready: true },
                        ));
                        assert(polls.take(polls.len() - 1) =~= busy_polls(i as nat));
                        assert(wait_ok_events(polls, budget));
                    }
                    return Ok(());
                },
                Ok(false) => {
                    proof {
                        assert(self.port.history() =~= pre + busy_polls((i + 1) as nat));
                    }
                },
                Err(_) => {
                    proof {
                        assert(pre.is_prefix_of(self.port.history())) by {
                            assert(pre =~= self.port.history().subrange(0, pre.len() as int));
                        }
                        let polls = self.port.history().skip(pre.len() as int);
                        assert(polls =~= busy_polls(i as nat));
                    }
                    return Err(Lr1120Error::Pin);
                },
            }
            i += 1;
        }
        proof {
            assert(pre.is_prefix_of(self.port.history())) by {
                assert(pre =~= self.port.history().subrange(0, pre.len() as int));
            }
            let polls = self.port.history().skip(pre.len() as int);
            assert(polls =~= busy_polls(budget as nat));
        }
        Err(Lr1120Error::Timeout)
    }

    /// Run one select / transfer / release cycle over the staged buffer.
    ///
    /// The release is attempted on every path out, including after a failed
    /// transfer, so an error can not leave chip-select asserted unless the
    /// release itself fails (reported as a pin error).
    fn exchange(&mut self) -> (r: Result<(), Lr1120Error>)
        requires
            old(self).wf(),
        ensures
            final(self).spec_cap() == old(self).spec_cap(),
            final(self).spec_poll_budget() == old(self).spec_poll_budget(),
            final(self).buffer.wf(),
            final(self).buffer.spec_data().len() == old(self).buffer.spec_data().len(),
            old(self).port.history().is_prefix_of(final(self).port.history()),
            r is Ok ==> final(self).wf() && final(self).port.history() == old(self).port.history()
                + seq![
                BusEvent::Select,
                BusEvent::Transfer {
                    mosi: old(self).buffer.spec_data(),
                    miso: final(self).buffer.spec_data(),
                },
                BusEvent::Release,
            ],
            r == Err::<(), Lr1120Error>(Lr1120Error::Spi) ==> final(self).wf(),
            r is Err ==> (r == Err::<(), Lr1120Error>(Lr1120Error::Spi) || r == Err::<
                (),
                Lr1120Error,
            >(Lr1120Error::Pin)),
    {
        if self.port.select().is_err() {
            return Err(Lr1120Error::Pin);
        }
        let transfer_ok = transfer_buffer(&mut self.port, &mut self.buffer);
        let release_ok = self.port.release().is_ok();
        if !transfer_ok {
            // The transfer pushed no event; only Select (and possibly
            // Release) were recorded.
            if !release_ok {
                return Err(Lr1120Error::Pin);
            }
            return Err(Lr1120Error::Spi);
        }
        if !release_ok {
            return Err(Lr1120Error::Pin);
        }
        proof {
            assert(self.port.history() =~= old(self).port.history() + seq![
                BusEvent::Select,
                BusEvent::Transfer {
                    mosi: old(self).buffer.spec_data(),
                    miso: self.buffer.spec_data(),
                },
                BusEvent::Release,
            ]);
        }
        Ok(())
    }

    /// Fire-and-forget command: one write phase, no response payload beyond
    /// what the chip shifts back during the write itself (undefined shadow
    /// bytes, discarded).
    ///
    /// The caller must already have waited for readiness from the previous
    /// transaction.  The chip's own rejection of the opcode is not checked
    /// here; see [`Self::write_checked`].
    pub fn write(&mut self, req: &[u8]) -> (r: Result<(), Lr1120Error>)
        requires
            old(self).wf(),
        ensures
            final(self).spec_cap() == old(self).spec_cap(),
            final(self).spec_poll_budget() == old(self).spec_poll_budget(),
            old(self).port.history().is_prefix_of(final(self).port.history()),
            req@.len() > old(self).spec_cap() ==> r == Err::<(), Lr1120Error>(Lr1120Error::CmdErr)
                && *final(self) == *old(self),
            r == Err::<(), Lr1120Error>(Lr1120Error::CmdErr) ==> req@.len() > old(self).spec_cap(),
            r is Ok ==> final(self).wf() && exists|shadow: Seq<u8>|
                shadow.len() == req@.len() && final(self).port.history() == old(
                    self,
                ).port.history() + #[trigger] write_txn_events(req@, shadow),
            r is Err ==> (r == Err::<(), Lr1120Error>(Lr1120Error::CmdErr) || r == Err::<
                (),
                Lr1120Error,
            >(Lr1120Error::Spi) || r == Err::<(), Lr1120Error>(Lr1120Error::Pin)),
            r == Err::<(), Lr1120Error>(Lr1120Error::Spi) ==> final(self).wf(),
    {
        if req.len() > self.buffer.capacity() {
            return Err(Lr1120Error::CmdErr);
        }
        self.buffer.stage(req);
        let r = self.exchange();
        if r.is_ok() {
            proof {
                let shadow = self.buffer.spec_data();
                assert(write_txn_events(req@, shadow) =~= seq![
                    BusEvent::Select,
                    BusEvent::Transfer { mosi: req@, miso: shadow },
                    BusEvent::Release,
                ]);
            }
        }
        r
    }

    /// The dominant request/response pattern: one write phase for the
    /// request, a readiness wait with the caller's poll budget, then one
    /// read phase that pumps `response_len` zero probe bytes to retrieve the
    /// response.
    ///
    /// The response bytes are returned as an owned copy; byte 0 (and, for
    /// multi-byte status opcodes, byte 1) is interpretable by the status
    /// decoder.  No response byte crosses the bus before the chip reported
    /// ready: see [`lemma_response_follows_ready`].
    pub fn write_then_read(&mut self, req: &[u8], response_len: usize, budget: u32) -> (r: Result<
        Vec<u8>,
        Lr1120Error,
    >)
        requires
            old(self).wf(),
        ensures
            final(self).spec_cap() == old(self).spec_cap(),
            final(self).spec_poll_budget() == old(self).spec_poll_budget(),
            old(self).port.history().is_prefix_of(final(self).port.history()),
            (req@.len() > old(self).spec_cap() || response_len > old(self).spec_cap()) ==> r
                == Err::<Vec<u8>, Lr1120Error>(Lr1120Error::CmdErr) && *final(self) == *old(self),
            r == Err::<Vec<u8>, Lr1120Error>(Lr1120Error::CmdErr) ==> (req@.len() > old(
                self,
            ).spec_cap() || response_len > old(self).spec_cap()),
            r matches Ok(rsp) ==> final(self).wf() && rsp@.len() == response_len
                && write_then_read_history(
                old(self).port.history(),
                final(self).port.history(),
                req@,
                rsp@,
                budget,
            ),
            r == Err::<Vec<u8>, Lr1120Error>(Lr1120Error::Timeout) ==> final(self).wf()
                && write_then_timeout_history(
                old(self).port.history(),
                final(self).port.history(),
                req@,
                budget,
            ),
            r is Err ==> (r == Err::<Vec<u8>, Lr1120Error>(Lr1120Error::CmdErr) || r == Err::<
                Vec<u8>,
                Lr1120Error,
            >(Lr1120Error::Timeout) || r == Err::<Vec<u8>, Lr1120Error>(Lr1120Error::Spi) || r
                == Err::<Vec<u8>, Lr1120Error>(Lr1120Error::Pin)),
            r == Err::<Vec<u8>, Lr1120Error>(Lr1120Error::Spi) ==> final(self).wf(),
    {
        if req.len() > self.buffer.capacity() || response_len > self.buffer.capacity() {
            return Err(Lr1120Error::CmdErr);
        }
        let ghost h0 = self.port.history();
        self.buffer.stage(req);
        match self.exchange() {
            Ok(()) => {},
            Err(e) => {
                return Err(e);
            },
        }
        let ghost shadow = self.buffer.spec_data();
        let ghost h1 = self.port.history();
        proof {
            assert(h1 == h0 + write_txn_events(req@, shadow)) by {
                assert(write_txn_events(req@, shadow) =~= seq![
                    BusEvent::Select,
                    BusEvent::Transfer { mosi: req@, miso: shadow },
                    BusEvent::Release,
                ]);
            }
        }
        match self.wait_ready(budget) {
            Ok(()) => {},
            Err(e) => {
                proof {
                    lemma_prefix_plus_skip(h1, self.port.history());
                    let polls = self.port.history().skip(h1.len() as int);
                    if e == Lr1120Error::Timeout {
                        assert(polls =~= busy_polls(budget as nat));
                        assert(self.port.history() =~= h0 + write_txn_events(req@, shadow)
                            + busy_polls(budget as nat));
                        assert(write_then_timeout_history(
                            h0,
                            self.port.history(),
                            req@,
                            budget,
                        ));
                    }
                    assert(h0.is_prefix_of(self.port.history())) by {
                        assert(h0 =~= self.port.history().subrange(0, h0.len() as int));
                    }
                }
                return Err(e);
            },
        }
        let ghost polls = self.port.history().skip(h1.len() as int);
        let ghost h2 = self.port.history();
        proof {
            lemma_prefix_plus_skip(h1, h2);
        }
        self.buffer.stage_probe(response_len);
        match self.exchange() {
            Ok(()) => {},
            Err(e) => {
                proof {
                    assert(h0.is_prefix_of(self.port.history())) by {
                        assert(h0 =~= self.port.history().subrange(0, h0.len() as int));
                    }
                }
                return Err(e);
            },
        }
        let rsp = self.buffer.harvest();
        proof {
            assert(rsp@.len() == response_len);
            assert(read_txn_events(rsp@) =~= seq![
                BusEvent::Select,
                BusEvent::Transfer { mosi: zero_bytes(response_len as nat), miso: rsp@ },
                BusEvent::Release,
            ]);
            assert(self.port.history() =~= h0 + write_txn_events(req@, shadow) + polls
                + read_txn_events(rsp@));
            assert(write_then_read_history(h0, self.port.history(), req@, rsp@, budget));
            assert(h0.is_prefix_of(self.port.history())) by {
                assert(h0 =~= self.port.history().subrange(0, h0.len() as int));
            }
        }
        Ok(rsp)
    }

    /// As [`Self::write`], but afterwards retrieve the status header with a
    /// zero-payload read and validate the command outcome: `Fail` becomes
    /// [`Lr1120Error::CmdFail`], `ParamError` becomes
    /// [`Lr1120Error::CmdErr`], an undefined bit pattern becomes
    /// [`Lr1120Error::Unknown`].
    ///
    /// On a decoded error no further bus activity follows the status read.
    pub fn write_checked(&mut self, req: &[u8], budget: u32) -> (r: Result<(), Lr1120Error>)
        requires
            old(self).wf(),
        ensures
            final(self).spec_cap() == old(self).spec_cap(),
            final(self).spec_poll_budget() == old(self).spec_poll_budget(),
            old(self).port.history().is_prefix_of(final(self).port.history()),
            (req@.len() > old(self).spec_cap() || 2 > old(self).spec_cap()) ==> r == Err::<
                (),
                Lr1120Error,
            >(Lr1120Error::CmdErr) && *final(self) == *old(self),
            (r is Ok || r == Err::<(), Lr1120Error>(Lr1120Error::CmdFail) || r == Err::<
                (),
                Lr1120Error,
            >(Lr1120Error::Unknown) || (r == Err::<(), Lr1120Error>(Lr1120Error::CmdErr)
                && req@.len() <= old(self).spec_cap() && 2 <= old(self).spec_cap()))
                ==> final(self).wf() && write_checked_history(
                old(self).port.history(),
                final(self).port.history(),
                req@,
                budget,
                if r is Ok {
                    Ok(())
                } else {
                    r
                },
            ),
            r == Err::<(), Lr1120Error>(Lr1120Error::Timeout) ==> final(self).wf()
                && write_then_timeout_history(
                old(self).port.history(),
                final(self).port.history(),
                req@,
                budget,
            ),
            r == Err::<(), Lr1120Error>(Lr1120Error::Spi) ==> final(self).wf(),
    {
        let rsp = match self.write_then_read(req, 2, budget) {
            Ok(v) => v,
            Err(e) => {
                return Err(e);
            },
        };
        let status = Status::from_slice(rsp.as_slice());
        let r = status.check();
        proof {
            let pre = old(self).port.history();
            let post = self.port.history();
            let (shadow, polls): (Seq<u8>, Seq<BusEvent>) = choose|
                shadow: Seq<u8>,
                polls: Seq<BusEvent>,
            |
                {
                    &&& shadow.len() == req@.len()
                    &&& #[trigger] wait_ok_events(polls, budget)
                    &&& post == pre + #[trigger] write_txn_events(req@, shadow) + polls
                        + read_txn_events(rsp@)
                };
            assert(write_checked_history(pre, post, req@, budget, r));
        }
        r
    }

    /// As [`Self::write`], but the request carries a variable-length data
    /// block after the fixed parameter bytes.  The payload length is
    /// caller-determined; only the fixed buffer capacity bounds it here,
    /// opcode-specific length limits belong to the collaborator layer.
    pub fn write_with_trailing_payload(&mut self, req: &[u8], payload: &[u8]) -> (r: Result<
        (),
        Lr1120Error,
    >)
        requires
            old(self).wf(),
        ensures
            final(self).spec_cap() == old(self).spec_cap(),
            final(self).spec_poll_budget() == old(self).spec_poll_budget(),
            old(self).port.history().is_prefix_of(final(self).port.history()),
            req@.len() + payload@.len() > old(self).spec_cap() ==> r == Err::<
                (),
                Lr1120Error,
            >(Lr1120Error::CmdErr) && *final(self) == *old(self),
            r == Err::<(), Lr1120Error>(Lr1120Error::CmdErr) ==> req@.len() + payload@.len() > old(
                self,
            ).spec_cap(),
            r is Ok ==> final(self).wf() && write_cmd_history(
                old(self).port.history(),
                final(self).port.history(),
                req@ + payload@,
            ),
            r is Err ==> (r == Err::<(), Lr1120Error>(Lr1120Error::CmdErr) || r == Err::<
                (),
                Lr1120Error,
            >(Lr1120Error::Spi) || r == Err::<(), Lr1120Error>(Lr1120Error::Pin)),
            r == Err::<(), Lr1120Error>(Lr1120Error::Spi) ==> final(self).wf(),
    {
        let cap = self.buffer.capacity();
        if payload.len() > cap || req.len() > cap - payload.len() {
            return Err(Lr1120Error::CmdErr);
        }
        self.buffer.stage_with_payload(req, payload);
        let r = self.exchange();
        if r.is_ok() {
            proof {
                let shadow = self.buffer.spec_data();
                assert(self.port.history() =~= old(self).port.history() + write_txn_events(
                    req@ + payload@,
                    shadow,
                ));
                assert(write_cmd_history(
                    old(self).port.history(),
                    self.port.history(),
                    req@ + payload@,
                ));
            }
        }
        r
    }

    /// [`Self::write_then_read`] with the leading status byte of the
    /// response validated: the short-form status must report success, else
    /// the decoded error is returned.
    pub fn read_checked(&mut self, req: &[u8], response_len: usize, budget: u32) -> (r: Result<
        Vec<u8>,
        Lr1120Error,
    >)
        requires
            old(self).wf(),
            response_len >= 1,
        ensures
            final(self).spec_cap() == old(self).spec_cap(),
            final(self).spec_poll_budget() == old(self).spec_poll_budget(),
            old(self).port.history().is_prefix_of(final(self).port.history()),
            (req@.len() > old(self).spec_cap() || response_len > old(self).spec_cap()) ==> r
                == Err::<Vec<u8>, Lr1120Error>(Lr1120Error::CmdErr) && *final(self) == *old(self),
            r matches Ok(rsp) ==> final(self).wf() && rsp@.len() == response_len
                && write_then_read_history(
                old(self).port.history(),
                final(self).port.history(),
                req@,
                rsp@,
                budget,
            ) && crate::status::spec_status_byte_check(rsp@[0]) is Ok,
            (r == Err::<Vec<u8>, Lr1120Error>(Lr1120Error::CmdFail) || r == Err::<
                Vec<u8>,
                Lr1120Error,
            >(Lr1120Error::Unknown) || (r == Err::<Vec<u8>, Lr1120Error>(Lr1120Error::CmdErr)
                && req@.len() <= old(self).spec_cap() && response_len <= old(self).spec_cap()))
                ==> final(self).wf() && exists|rsp: Seq<u8>|
                rsp.len() == response_len && #[trigger] write_then_read_history(
                    old(self).port.history(),
                    final(self).port.history(),
                    req@,
                    rsp,
                    budget,
                ) && crate::status::spec_status_byte_check(rsp[0]) == Err::<(), Lr1120Error>(
                    r->Err_0,
                ),
            r == Err::<Vec<u8>, Lr1120Error>(Lr1120Error::Timeout) ==> final(self).wf()
                && write_then_timeout_history(
                old(self).port.history(),
                final(self).port.history(),
                req@,
                budget,
            ),
            r == Err::<Vec<u8>, Lr1120Error>(Lr1120Error::Spi) ==> final(self).wf(),
    {
        let rsp = match self.write_then_read(req, response_len, budget) {
            Ok(v) => v,
            Err(e) => {
                return Err(e);
            },
        };
        let status = Status::from_byte(rsp[0]);
        match status.check() {
            Ok(()) => Ok(rsp),
            Err(e) => {
                proof {
                    assert(crate::status::spec_status_byte_check(rsp@[0]) == Err::<
                        (),
                        Lr1120Error,
                    >(e));
                }
                Err(e)
            },
        }
    }
    /// Read-phase only: wait for readiness with the caller's poll budget,
    /// then pump `response_len` zero probe bytes to retrieve response bytes
    /// prepared by an earlier command.
    pub fn read_response(&mut self, response_len: usize, budget: u32) -> (r: Result<
        Vec<u8>,
        Lr1120Error,
    >)
        requires
            old(self).wf(),
        ensures
            final(self).spec_cap() == old(self).spec_cap(),
            final(self).spec_poll_budget() == old(self).spec_poll_budget(),
            old(self).port.history().is_prefix_of(final(self).port.history()),
            response_len > old(self).spec_cap() ==> r == Err::<Vec<u8>, Lr1120Error>(
                Lr1120Error::CmdErr,
            ) && *final(self) == *old(self),
            r == Err::<Vec<u8>, Lr1120Error>(Lr1120Error::CmdErr) ==> response_len > old(
                self,
            ).spec_cap(),
            r matches Ok(rsp) ==> final(self).wf() && rsp@.len() == response_len
                && read_phase_history(
                old(self).port.history(),
                final(self).port.history(),
                rsp@,
                budget,
            ),
            r == Err::<Vec<u8>, Lr1120Error>(Lr1120Error::Timeout) ==> final(self).wf()
                && final(self).port.history() == old(self).port.history() + busy_polls(
                budget as nat,
            ),
            r == Err::<Vec<u8>, Lr1120Error>(Lr1120Error::Spi) ==> final(self).wf(),
    {
        if response_len > self.buffer.capacity() {
            return Err(Lr1120Error::CmdErr);
        }
        let ghost h0 = self.port.history();
        match self.wait_ready(budget) {
            Ok(()) => {},
            Err(e) => {
                proof {
                    lemma_prefix_plus_skip(h0, self.port.history());
                    if e == Lr1120Error::Timeout {
                        let polls = self.port.history().skip(h0.len() as int);
                        assert(polls =~= busy_polls(budget as nat));
                    }
                }
                return Err(e);
            },
        }
        let ghost polls = self.port.history().skip(h0.len() as int);
        let ghost h1 = self.port.history();
        proof {
            lemma_prefix_plus_skip(h0, h1);
        }
        self.buffer.stage_probe(response_len);
        match self.exchange() {
            Ok(()) => {},
            Err(e) => {
                proof {
                    assert(h0.is_prefix_of(self.port.history())) by {
                        assert(h0 =~= self.port.history().subrange(0, h0.len() as int));
                    }
                }
                return Err(e);
            },
        }
        let rsp = self.buffer.harvest();
        proof {
            assert(read_txn_events(rsp@) =~= seq![
                BusEvent::Select,
                BusEvent::Transfer { mosi: zero_bytes(response_len as nat), miso: rsp@ },
                BusEvent::Release,
            ]);
            assert(self.port.history() =~= h0 + polls + read_txn_events(rsp@));
            assert(read_phase_history(h0, self.port.history(), rsp@, budget));
            assert(h0.is_prefix_of(self.port.history())) by {
                assert(h0 =~= self.port.history().subrange(0, h0.len() as int));
            }
        }
        Ok(rsp)
    }

    /// Streamed multi-chunk read, for results that may exceed the fixed
    /// buffer capacity: repeatedly issue read requests of at most
    /// `chunk_budget` data bytes, advancing the chip-side index between
    /// chunks, until `total_len` bytes are retrieved.
    ///
    /// Each chunk is an independent write-then-read whose request is the
    /// opcode followed by the index byte and the chunk length byte, and
    /// whose response carries one status byte before the data.  There is no
    /// partial-chunk retry: a failure mid-stream aborts the whole read and
    /// returns what was read together with the error, leaving result
    /// assembly to the caller.
    pub fn read_streaming(
        &mut self,
        opcode: &[u8],
        index: u8,
        total_len: usize,
        chunk_budget: usize,
        budget: u32,
    ) -> (r: (Vec<u8>, Option<Lr1120Error>))
        requires
            old(self).wf(),
            1 <= chunk_budget <= 255,
            index + total_len <= 256,
        ensures
            final(self).spec_cap() == old(self).spec_cap(),
            final(self).spec_poll_budget() == old(self).spec_poll_budget(),
            old(self).port.history().is_prefix_of(final(self).port.history()),
            r.0@.len() <= total_len,
            total_len == 0 ==> r.1 is None && r.0@.len() == 0 && *final(self) == *old(self),
            total_len > 0 && (opcode@.len() + 2 > old(self).spec_cap() || spec_stream_chunk(
                chunk_budget as int,
                total_len as int,
            ) + 1 > old(self).spec_cap()) ==> r.1 == Some(Lr1120Error::CmdErr) && r.0@.len() == 0
                && *final(self) == *old(self),
            r.1 is None ==> final(self).wf() && r.0@.len() == total_len && streamed_read_history(
                old(self).port.history(),
                final(self).port.history(),
                opcode@,
                index as int,
                r.0@,
                chunk_budget as int,
                budget,
            ),
            r.1 is Some ==> exists|mid: Seq<BusEvent>|
                #![trigger old(self).port.history().is_prefix_of(mid)]
                {
                    &&& old(self).port.history().is_prefix_of(mid)
                    &&& mid.is_prefix_of(final(self).port.history())
                    &&& streamed_read_history(
                        old(self).port.history(),
                        mid,
                        opcode@,
                        index as int,
                        r.0@,
                        chunk_budget as int,
                        budget,
                    )
                },
            r.1 == Some(Lr1120Error::Timeout) ==> final(self).wf() && exists|mid: Seq<BusEvent>|
                #![trigger old(self).port.history().is_prefix_of(mid)]
                {
                    &&& old(self).port.history().is_prefix_of(mid)
                    &&& streamed_read_history(
                        old(self).port.history(),
                        mid,
                        opcode@,
                        index as int,
                        r.0@,
                        chunk_budget as int,
                        budget,
                    )
                    &&& write_then_timeout_history(
                        mid,
                        final(self).port.history(),
                        opcode@ + seq![
                            (index + r.0@.len()) as u8,
                            spec_stream_chunk(
                                chunk_budget as int,
                                total_len - r.0@.len(),
                            ) as u8,
                        ],
                        budget,
                    )
                },
        decreases total_len,
    {
        if total_len == 0 {
            return (Vec::new(), None);
        }
        let n: usize = if chunk_budget < total_len {
            chunk_budget
        } else {
            total_len
        };
        let mut req: Vec<u8> = Vec::new();
        let mut i: usize = 0;
        while i < opcode.len()
            invariant
                i <= opcode@.len(),
                req@ == opcode@.take(i as int),
            decreases opcode@.len() - i,
        {
            req.push(opcode[i]);
            i += 1;
        }
        req.push(index);
        req.push(n as u8);
        proof {
            assert(req@ =~= opcode@ + seq![index, n as u8]);
            assert(spec_stream_chunk(chunk_budget as int, total_len as int) == n as int);
        }
        let ghost pre = self.port.history();
        let rsp = match self.read_checked(req.as_slice(), n + 1, budget) {
            Ok(v) => v,
            Err(e) => {
                let out: Vec<u8> = Vec::new();
                proof {
                    assert(out@ =~= Seq::<u8>::empty());
                    assert(old(self).port.history().is_prefix_of(old(self).port.history())) by {
                        assert(old(self).port.history() =~= old(self).port.history().subrange(
                            0,
                            old(self).port.history().len() as int,
                        ));
                    }
                    assert(streamed_read_history(
                        old(self).port.history(),
                        old(self).port.history(),
                        opcode@,
                        index as int,
                        out@,
                        chunk_budget as int,
                        budget,
                    ));
                    if e == Lr1120Error::Timeout {
                        assert(opcode@ + seq![
                            (index + out@.len()) as u8,
                            spec_stream_chunk(chunk_budget as int, total_len - out@.len()) as u8,
                        ] =~= req@);
                        assert(write_then_timeout_history(
                            old(self).port.history(),
                            self.port.history(),
                            opcode@ + seq![
                                (index + out@.len()) as u8,
                                spec_stream_chunk(
                                    chunk_budget as int,
                                    total_len - out@.len(),
                                ) as u8,
                            ],
                            budget,
                        ));
                    }
                }
                return (out, Some(e));
            },
        };
        let ghost mid = self.port.history();
        let mut out: Vec<u8> = Vec::new();
        let mut j: usize = 1;
        while j < rsp.len()
            invariant
                1 <= j <= rsp@.len(),
                out@ == rsp@.subrange(1, j as int),
            decreases rsp@.len() - j,
        {
            out.push(rsp[j]);
            j += 1;
        }
        proof {
            assert(out@ =~= rsp@.skip(1));
        }
        let next_index: u8 = if n < total_len {
            index + (n as u8)
        } else {
            index
        };
        let (tail, err) = self.read_streaming(opcode, next_index, total_len - n, chunk_budget,
            budget);
        let mut k: usize = 0;
        while k < tail.len()
            invariant
                k <= tail@.len(),
                out@ == rsp@.skip(1) + tail@.take(k as int),
            decreases tail@.len() - k,
        {
            out.push(tail[k]);
            k += 1;
        }
        proof {
            assert(out@ =~= rsp@.skip(1) + tail@);
        }
        proof {
            // The first chunk of the assembled data is this transaction's
            // response payload, and the rest is what the recursion read.
            let data = out@;
            let cl: int = spec_stream_chunk(chunk_budget as int, data.len() as int);
            if err is None {
                assert(data.len() == total_len);
            } else {
                assert(total_len > n && n == chunk_budget);
            }
            assert(cl == n as int);
            assert(data.take(cl) =~= rsp@.skip(1));
            assert(data.skip(cl) =~= tail@);
            assert(seq![rsp@[0]] + data.take(cl) =~= rsp@);
            assert(crate::status::spec_status_byte_check(rsp@[0]) is Ok);
            assert(old(self).port.history().is_prefix_of(mid)) by {
                assert(old(self).port.history() =~= mid.subrange(
                    0,
                    old(self).port.history().len() as int,
                ));
            }
            assert(write_then_read_history(
                pre,
                mid,
                opcode@ + seq![
                    (index as int) as u8,
                    spec_stream_chunk(chunk_budget as int, data.len() as int) as u8,
                ],
                seq![rsp@[0]] + data.take(spec_stream_chunk(chunk_budget as int, data.len() as int)),
                budget,
            )) by {
                assert(opcode@ + seq![
                    (index as int) as u8,
                    spec_stream_chunk(chunk_budget as int, data.len() as int) as u8,
                ] =~= opcode@ + seq![index, n as u8]);
                assert(seq![rsp@[0]] + data.take(spec_stream_chunk(chunk_budget as int, data.len() as int)) =~= rsp@);
            }
            if err is Some {
                // The recursion's own decomposition of the tail, stitched
                // after this chunk.
                let tail_mid = choose|m: Seq<BusEvent>|
                    #![trigger mid.is_prefix_of(m)]
                    {
                        &&& mid.is_prefix_of(m)
                        &&& m.is_prefix_of(self.port.history())
                        &&& streamed_read_history(
                            mid,
                            m,
                            opcode@,
                            next_index as int,
                            tail@,
                            chunk_budget as int,
                            budget,
                        )
                    };
                assert(next_index as int == index + n);
                assert(streamed_read_history(
                    mid,
                    tail_mid,
                    opcode@,
                    (index as int) + spec_stream_chunk(chunk_budget as int, data.len() as int),
                    data.skip(spec_stream_chunk(chunk_budget as int, data.len() as int)),
                    chunk_budget as int,
                    budget,
                ));
                assert(old(self).port.history().is_prefix_of(tail_mid)) by {
                    assert(old(self).port.history() =~= tail_mid.subrange(
                        0,
                        old(self).port.history().len() as int,
                    ));
                }
                assert(streamed_read_history(
                    old(self).port.history(),
                    tail_mid,
                    opcode@,
                    index as int,
                    data,
                    chunk_budget as int,
                    budget,
                ));
                if err == Some(Lr1120Error::Timeout) {
                    let tail_mid_t = choose|m: Seq<BusEvent>|
                        #![trigger mid.is_prefix_of(m)]
                        {
                            &&& mid.is_prefix_of(m)
                            &&& streamed_read_history(
                                mid,
                                m,
                                opcode@,
                                next_index as int,
                                tail@,
                                chunk_budget as int,
                                budget,
                            )
                            &&& write_then_timeout_history(
                                m,
                                self.port.history(),
                                opcode@ + seq![
                                    (next_index + tail@.len()) as u8,
                                    spec_stream_chunk(
                                        chunk_budget as int,
                                        (total_len - n) - tail@.len(),
                                    ) as u8,
                                ],
                                budget,
                            )
                        };
                    assert(streamed_read_history(
                        mid,
                        tail_mid_t,
                        opcode@,
                        (index as int) + spec_stream_chunk(
                            chunk_budget as int,
                            data.len() as int,
                        ),
                        data.skip(spec_stream_chunk(chunk_budget as int, data.len() as int)),
                        chunk_budget as int,
                        budget,
                    ));
                    assert(old(self).port.history().is_prefix_of(tail_mid_t)) by {
                        assert(old(self).port.history() =~= tail_mid_t.subrange(
                            0,
                            old(self).port.history().len() as int,
                        ));
                    }
                    assert(streamed_read_history(
                        old(self).port.history(),
                        tail_mid_t,
                        opcode@,
                        index as int,
                        data,
                        chunk_budget as int,
                        budget,
                    ));
                    assert(opcode@ + seq![
                        (index + data.len()) as u8,
                        spec_stream_chunk(chunk_budget as int, total_len - data.len()) as u8,
                    ] =~= opcode@ + seq![
                        (next_index + tail@.len()) as u8,
                        spec_stream_chunk(
                            chunk_budget as int,
                            (total_len - n) - tail@.len(),
                        ) as u8,
                    ]);
                    assert(write_then_timeout_history(
                        tail_mid_t,
                        self.port.history(),
                        opcode@ + seq![
                            (index + data.len()) as u8,
                            spec_stream_chunk(
                                chunk_budget as int,
                                total_len - data.len(),
                            ) as u8,
                        ],
                        budget,
                    ));
                }
            } else {
                assert(streamed_read_history(
                    mid,
                    self.port.history(),
                    opcode@,
                    (index as int) + spec_stream_chunk(chunk_budget as int, data.len() as int),
                    data.skip(spec_stream_chunk(chunk_budget as int, data.len() as int)),
                    chunk_budget as int,
                    budget,
                ));
                assert(streamed_read_history(
                    old(self).port.history(),
                    self.port.history(),
                    opcode@,
                    index as int,
                    data,
                    chunk_budget as int,
                    budget,
                ));
            }
            assert(old(self).port.history().is_prefix_of(self.port.history())) by {
                assert(old(self).port.history() =~= self.port.history().subrange(
                    0,
                    old(self).port.history().len() as int,
                ));
            }
        }
        (out, err)
    }

}

/// Hand the staged buffer to the port's transfer primitive.
fn transfer_buffer<Q: SpiPort>(port: &mut Q, buffer: &mut TransactionBuffer) -> (ok: bool)
    requires
        old(port).selected(),
    ensures
        final(port).selected() == old(port).selected(),
        final(buffer).spec_cap() == old(buffer).spec_cap(),
        final(buffer).spec_data().len() == old(buffer).spec_data().len(),
        ok ==> final(port).history() == old(port).history().push(
            BusEvent::Transfer {
                mosi: old(buffer).spec_data(),
                miso: final(buffer).spec_data(),
            },
        ),
        !ok ==> final(port).history() == old(port).history(),
{
    let mut data: Vec<u8> = Vec::new();
    core::mem::swap(&mut buffer.data, &mut data);
    let ok = port.transfer(&mut data).is_ok();
    core::mem::swap(&mut buffer.data, &mut data);
    ok
}


/// The history of a whole streamed read: the data decomposes from the
/// front into chunks of at most `chunk_budget` bytes, each retrieved by an
/// independent write-then-read whose request is the opcode followed by the
/// chip-side index and the chunk length, and whose response carries one
/// status byte, reporting success, before the data.
/// Size of the next streamed chunk: at most the chunk budget.
pub open spec fn spec_stream_chunk(chunk_budget: int, remaining: int) -> int {
    if remaining < chunk_budget {
        remaining
    } else {
        chunk_budget
    }
}

pub open spec fn streamed_read_history(
    pre: Seq<BusEvent>,
    post: Seq<BusEvent>,
    opcode: Seq<u8>,
    index: int,
    data: Seq<u8>,
    chunk_budget: int,
    budget: u32,
) -> bool
    decreases data.len(),
{
    if chunk_budget < 1 {
        false
    } else if data.len() == 0 {
        post == pre
    } else {
        exists|mid: Seq<BusEvent>, sb: u8|
            #![trigger crate::status::spec_status_byte_check(sb), pre.is_prefix_of(mid)]
            {
                &&& pre.is_prefix_of(mid)
                &&& write_then_read_history(
                    pre,
                    mid,
                    opcode + seq![
                        index as u8,
                        spec_stream_chunk(chunk_budget, data.len() as int) as u8,
                    ],
                    seq![sb] + data.take(spec_stream_chunk(chunk_budget, data.len() as int)),
                    budget,
                )
                &&& crate::status::spec_status_byte_check(sb) is Ok
                &&& streamed_read_history(
                    mid,
                    post,
                    opcode,
                    index + spec_stream_chunk(chunk_budget, data.len() as int),
                    data.skip(spec_stream_chunk(chunk_budget, data.len() as int)),
                    chunk_budget,
                    budget,
                )
            }
    }
}

/// The history extension of a standalone read phase: a successful
/// readiness wait within `budget` polls, then the read phase that carried
/// the response bytes.
pub open spec fn read_phase_history(
    pre: Seq<BusEvent>,
    post: Seq<BusEvent>,
    rsp: Seq<u8>,
    budget: u32,
) -> bool {
    exists|polls: Seq<BusEvent>|
        #[trigger] wait_ok_events(polls, budget) && post == pre + polls + read_txn_events(rsp)
}

/// What every engine operation preserves: the buffer capacity, the
/// configured poll budget, and the history already recorded.
pub open spec fn preserves_frame<P: SpiPort>(pre: Lr1120<P>, post: Lr1120<P>) -> bool {
    &&& post.spec_cap() == pre.spec_cap()
    &&& post.spec_poll_budget() == pre.spec_poll_budget()
    &&& pre.port.history().is_prefix_of(post.port.history())
}

/// The history extension of one successful fire-and-forget write: exactly
/// one write phase whose outgoing bytes are the request.
pub open spec fn write_cmd_history(pre: Seq<BusEvent>, post: Seq<BusEvent>, req: Seq<u8>) -> bool {
    exists|shadow: Seq<u8>|
        shadow.len() == req.len() && post == pre + #[trigger] write_txn_events(req, shadow)
}

/// The history extension of one successful write-then-read transaction:
/// the write phase for the request, a successful readiness wait within
/// `budget` polls, then the read phase that carried the response bytes.
pub open spec fn write_then_read_history(
    pre: Seq<BusEvent>,
    post: Seq<BusEvent>,
    req: Seq<u8>,
    rsp: Seq<u8>,
    budget: u32,
) -> bool {
    exists|shadow: Seq<u8>, polls: Seq<BusEvent>|
        {
            &&& shadow.len() == req.len()
            &&& #[trigger] wait_ok_events(polls, budget)
            &&& post == pre + #[trigger] write_txn_events(req, shadow) + polls + read_txn_events(
                rsp,
            )
        }
}

/// The history extension of a write-then-read transaction whose readiness
/// wait timed out: the write phase, then exactly `budget` polls that all
/// reported busy, and no read phase at all.
pub open spec fn write_then_timeout_history(
    pre: Seq<BusEvent>,
    post: Seq<BusEvent>,
    req: Seq<u8>,
    budget: u32,
) -> bool {
    exists|shadow: Seq<u8>|
        shadow.len() == req.len() && post == pre + #[trigger] write_txn_events(req, shadow)
            + busy_polls(budget as nat)
}

/// The history extension of a checked write whose status header could be
/// retrieved, together with the outcome decoded from that header.
pub open spec fn write_checked_history(
    pre: Seq<BusEvent>,
    post: Seq<BusEvent>,
    req: Seq<u8>,
    budget: u32,
    out: Result<(), Lr1120Error>,
) -> bool {
    exists|sb: Seq<u8>|
        {
            &&& sb.len() == 2
            &&& #[trigger] write_then_read_history(pre, post, req, sb, budget)
            &&& out == crate::status::spec_status_word_check(Status::spec_from_slice(sb))
        }
}

/// A sequence concatenation identity: a prefix plus the rest is the whole.
proof fn lemma_prefix_plus_skip(pre: Seq<BusEvent>, post: Seq<BusEvent>)
    requires
        pre.is_prefix_of(post),
    ensures
        post == pre + post.skip(pre.len() as int),
{
    assert(post =~= pre + post.skip(pre.len() as int));
}

/// Ordering of a successful transaction: the chip reported ready strictly
/// before the transfer that carried the response bytes out, and the
/// response transfer is the last transfer of the transaction.
pub proof fn lemma_response_follows_ready(
    pre: Seq<BusEvent>,
    post: Seq<BusEvent>,
    req: Seq<u8>,
    rsp: Seq<u8>,
    budget: u32,
)
    requires
        write_then_read_history(pre, post, req, rsp, budget),
    ensures
        exists|j: int, k: int|
            pre.len() <= j < k < post.len() && post[j] == (BusEvent::Poll { ready: true })
                && post[k] == (BusEvent::Transfer { mosi: zero_bytes(rsp.len()), miso: rsp }),
{
    let (shadow, polls): (Seq<u8>, Seq<BusEvent>) = choose|shadow: Seq<u8>, polls: Seq<BusEvent>|
        {
            &&& shadow.len() == req.len()
            &&& #[trigger] wait_ok_events(polls, budget)
            &&& post == pre + #[trigger] write_txn_events(req, shadow) + polls + read_txn_events(
                rsp,
            )
        };
    let j: int = pre.len() + 3 + polls.len() - 1;
    let k: int = pre.len() + 3 + polls.len() + 1int;
    assert(post[j] == polls.last());
    assert(post[k] == read_txn_events(rsp)[1]);
    assert(pre.len() <= j < k < post.len() && post[j] == (BusEvent::Poll { ready: true })
        && post[k] == (BusEvent::Transfer { mosi: zero_bytes(rsp.len()), miso: rsp }));
}

/// A timed-out transaction never yields response bytes: after the write
/// phase the history holds exactly `budget` busy polls and nothing else, in
/// particular no transfer that could have read undefined data.
pub proof fn lemma_timeout_reads_nothing(
    pre: Seq<BusEvent>,
    post: Seq<BusEvent>,
    req: Seq<u8>,
    budget: u32,
)
    requires
        write_then_timeout_history(pre, post, req, budget),
    ensures
        post.len() == pre.len() + 3 + budget,
        forall|k: int|
            pre.len() + 3 <= k < post.len() ==> post[k] == (BusEvent::Poll { ready: false }),
{
    let shadow = choose|shadow: Seq<u8>|
        shadow.len() == req.len() && post == pre + #[trigger] write_txn_events(req, shadow)
            + busy_polls(budget as nat);
    assert forall|k: int|
        pre.len() + 3 <= k < post.len() implies post[k] == (BusEvent::Poll { ready: false }) by {
        assert(post[k] == busy_polls(budget as nat)[k - pre.len() - 3]);
    }
}

} // verus!
