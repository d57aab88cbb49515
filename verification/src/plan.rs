//! Step-by-step transaction plans, for runners whose bus operations
//! suspend.
//!
//! The engine in [`crate::engine`] drives a blocking port directly.  A
//! runner built on an asynchronous bus cannot implement the blocking port
//! trait, so it drives a plan instead: the plan hands out one action at a
//! time and absorbs each outcome, so the sequencing of the transaction and
//! the outcome policy stay verified here while the runner only performs
//! the actions.  The phases mirror the transaction's state machine: the
//! request write, the readiness wait, the response read, and the decoded
//! outcome.

use vstd::prelude::*;

use crate::Lr1120Error;
use crate::status::Status;

verus! {

/// The next action a runner must perform.
pub enum PlanAction {
    /// Assert chip-select, shift the plan's request bytes out (discarding
    /// the shadow bytes), release chip-select, and report the outcome.
    WriteRequest,
    /// Poll the readiness signal until it reports ready or the runner's
    /// time budget elapses, and report the outcome.
    WaitReady,
    /// Assert chip-select, pump this many zero probe bytes, release
    /// chip-select, and report the bytes shifted back.
    ReadResponse(usize),
    /// The transaction is over, with this outcome.
    Finish(Result<Vec<u8>, Lr1120Error>),
}

/// How the response's status header is validated.
#[derive(Clone, Copy, PartialEq, Eq, Structural, Debug)]
pub enum StatusCheck {
    /// Hand the raw bytes back unchecked; the caller inspects byte 0.
    Unchecked,
    /// Validate the short, single-byte status form in byte 0 (skipped for
    /// an empty response).
    Leading,
    /// Validate the full two-byte status word.
    Word,
}

/// Where a write-then-read transaction stands.
#[derive(Clone, Copy, PartialEq, Eq, Structural, Debug)]
pub enum PlanPhase {
    /// The request write phase has not been issued yet.
    SendRequest,
    /// The request write was issued; awaiting its outcome.
    WriteIssued,
    /// The request was written; awaiting readiness.
    AwaitingReady,
    /// Ready was observed; the read phase was issued.
    ReadIssued,
    /// The transaction is over.
    Complete,
}

/// The outcome owed for a response validated as `check` asks.
pub open spec fn spec_read_result(check: StatusCheck, bytes: Seq<u8>) -> Result<
    (),
    Lr1120Error,
> {
    match check {
        StatusCheck::Unchecked => Ok(()),
        StatusCheck::Leading => if bytes.len() == 0 {
            Ok(())
        } else {
            crate::status::spec_status_byte_check(bytes[0])
        },
        StatusCheck::Word => crate::status::spec_status_word_check(Status::spec_from_slice(bytes)),
    }
}

/// The finished action carries the response iff the validation passed,
/// else the decoded error.
pub open spec fn spec_outcome_matches(
    check: StatusCheck,
    bytes: Seq<u8>,
    a: PlanAction,
) -> bool {
    match spec_read_result(check, bytes) {
        Ok(_) => a matches PlanAction::Finish(out) && out matches Ok(v) && v@ == bytes,
        Err(e) => a == PlanAction::Finish(Err::<Vec<u8>, Lr1120Error>(e)),
    }
}

/// One write-then-read transaction as a plan: the runner performs each
/// action it is handed and reports what happened; any reported failure
/// finishes the plan with that error, and a phase violation finishes it
/// with the protocol error.
pub struct WriteThenReadPlan {
    /// The request bytes, written in the first phase.
    pub req: Vec<u8>,
    /// Number of response bytes to pump out in the read phase.
    pub response_len: usize,
    /// How the response status is validated.
    pub check: StatusCheck,
    /// Where the transaction stands.
    pub phase: PlanPhase,
}

impl WriteThenReadPlan {
    /// A fresh plan, before any action was handed out.
    pub fn new(req: Vec<u8>, response_len: usize, check: StatusCheck) -> (r: WriteThenReadPlan)
        ensures
            r.req@ == req@,
            r.response_len == response_len,
            r.check == check,
            r.phase == PlanPhase::SendRequest,
    {
        WriteThenReadPlan { req, response_len, check, phase: PlanPhase::SendRequest }
    }

    /// Begin the transaction: the first action is the request write.
    pub fn start(&mut self) -> (a: PlanAction)
        ensures
            final(self).req@ == old(self).req@,
            final(self).response_len == old(self).response_len,
            final(self).check == old(self).check,
            old(self).phase == PlanPhase::SendRequest ==> final(self).phase
                == PlanPhase::WriteIssued && a == PlanAction::WriteRequest,
            old(self).phase != PlanPhase::SendRequest ==> final(self).phase == PlanPhase::Complete
                && a == PlanAction::Finish(Err::<Vec<u8>, Lr1120Error>(Lr1120Error::Unknown)),
    {
        if self.phase == PlanPhase::SendRequest {
            self.phase = PlanPhase::WriteIssued;
            PlanAction::WriteRequest
        } else {
            self.phase = PlanPhase::Complete;
            PlanAction::Finish(Err(Lr1120Error::Unknown))
        }
    }

    /// Absorb the outcome of the request write: next comes the readiness
    /// wait, or the transaction finishes with the write's error.
    pub fn on_write(&mut self, r: Result<(), Lr1120Error>) -> (a: PlanAction)
        ensures
            final(self).req@ == old(self).req@,
            final(self).response_len == old(self).response_len,
            final(self).check == old(self).check,
            old(self).phase == PlanPhase::WriteIssued && r is Ok ==> final(self).phase
                == PlanPhase::AwaitingReady && a == PlanAction::WaitReady,
            old(self).phase == PlanPhase::WriteIssued ==> (r matches Err(e)
                ==> final(self).phase == PlanPhase::Complete && a == PlanAction::Finish(
                Err::<Vec<u8>, Lr1120Error>(e),
            )),
            old(self).phase != PlanPhase::WriteIssued ==> final(self).phase == PlanPhase::Complete
                && a == PlanAction::Finish(Err::<Vec<u8>, Lr1120Error>(Lr1120Error::Unknown)),
    {
        if self.phase != PlanPhase::WriteIssued {
            self.phase = PlanPhase::Complete;
            return PlanAction::Finish(Err(Lr1120Error::Unknown));
        }
        match r {
            Ok(()) => {
                self.phase = PlanPhase::AwaitingReady;
                PlanAction::WaitReady
            },
            Err(e) => {
                self.phase = PlanPhase::Complete;
                PlanAction::Finish(Err(e))
            },
        }
    }

    /// Absorb the outcome of the readiness wait: only an observed ready
    /// lets the read phase be issued, so response bytes are never pumped
    /// before the chip reported ready.
    pub fn on_ready(&mut self, r: Result<(), Lr1120Error>) -> (a: PlanAction)
        ensures
            final(self).req@ == old(self).req@,
            final(self).response_len == old(self).response_len,
            final(self).check == old(self).check,
            old(self).phase == PlanPhase::AwaitingReady && r is Ok ==> final(self).phase
                == PlanPhase::ReadIssued && a == PlanAction::ReadResponse(old(self).response_len),
            old(self).phase == PlanPhase::AwaitingReady ==> (r matches Err(e)
                ==> final(self).phase == PlanPhase::Complete && a == PlanAction::Finish(
                Err::<Vec<u8>, Lr1120Error>(e),
            )),
            old(self).phase != PlanPhase::AwaitingReady ==> final(self).phase
                == PlanPhase::Complete && a == PlanAction::Finish(
                Err::<Vec<u8>, Lr1120Error>(Lr1120Error::Unknown),
            ),
    {
        if self.phase != PlanPhase::AwaitingReady {
            self.phase = PlanPhase::Complete;
            return PlanAction::Finish(Err(Lr1120Error::Unknown));
        }
        match r {
            Ok(()) => {
                self.phase = PlanPhase::ReadIssued;
                PlanAction::ReadResponse(self.response_len)
            },
            Err(e) => {
                self.phase = PlanPhase::Complete;
                PlanAction::Finish(Err(e))
            },
        }
    }

    /// Absorb the outcome of the read phase: validate the status header as
    /// configured and finish with the response bytes or the decoded error.
    pub fn on_read(&mut self, r: Result<Vec<u8>, Lr1120Error>) -> (a: PlanAction)
        ensures
            final(self).req@ == old(self).req@,
            final(self).response_len == old(self).response_len,
            final(self).check == old(self).check,
            final(self).phase == PlanPhase::Complete || old(self).phase != PlanPhase::ReadIssued,
            old(self).phase == PlanPhase::ReadIssued ==> (r matches Ok(rsp)
                ==> final(self).phase == PlanPhase::Complete && spec_outcome_matches(
                old(self).check,
                rsp@,
                a,
            )),
            old(self).phase == PlanPhase::ReadIssued ==> (r matches Err(e)
                ==> final(self).phase == PlanPhase::Complete && a == PlanAction::Finish(
                Err::<Vec<u8>, Lr1120Error>(e),
            )),
            old(self).phase != PlanPhase::ReadIssued ==> final(self).phase == PlanPhase::Complete
                && a == PlanAction::Finish(Err::<Vec<u8>, Lr1120Error>(Lr1120Error::Unknown)),
    {
        if self.phase != PlanPhase::ReadIssued {
            self.phase = PlanPhase::Complete;
            return PlanAction::Finish(Err(Lr1120Error::Unknown));
        }
        self.phase = PlanPhase::Complete;
        match r {
            Ok(rsp) => {
                let checked: Result<(), Lr1120Error> = match self.check {
                    StatusCheck::Unchecked => Ok(()),
                    StatusCheck::Leading => {
                        if rsp.len() == 0 {
                            Ok(())
                        } else {
                            Status::from_byte(rsp[0]).check()
                        }
                    },
                    StatusCheck::Word => Status::from_slice(rsp.as_slice()).check(),
                };
                match checked {
                    Ok(()) => PlanAction::Finish(Ok(rsp)),
                    Err(e) => PlanAction::Finish(Err(e)),
                }
            },
            Err(e) => PlanAction::Finish(Err(e)),
        }
    }
}

} // verus!
