//! Host-side transaction engine for the LR1120 radio transceiver.
//!
//! The driver turns opcode + payload byte sequences into correctly sequenced
//! bus transactions: chip-select framing, readiness polling with a timeout
//! budget, the full-duplex transfer itself, and decoding of the status header
//! that prefixes every response.
//!
//! Hardware access goes through the [`port::SpiPort`] trait so that a
//! deterministic test double can stand in for a real SPI bus; every byte that
//! crosses the bus is recorded in a ghost event history that the contracts of
//! the transaction engine are stated over.  Readiness timeouts are counted
//! in polls of that trait; an adapter paces each poll in wall-clock time.

use vstd::prelude::*;

pub mod buffer;
pub mod bytes;
pub mod cmd;
pub mod crypto;
pub mod engine;
pub mod fake;
pub mod fsk;
pub mod gnss;
pub mod lora;
pub mod plan;
pub mod port;
pub mod radio;
pub mod status;
pub mod system;
pub mod wifi_scan;

verus! {

/// Errors surfaced by the transaction engine.
///
/// Transport and pin failures are unrecoverable at this layer.  A readiness
/// timeout may be retried by the caller with a longer budget.  `CmdFail` and
/// `CmdErr` report the chip's own rejection of a command; `Unknown` marks a
/// status word outside the defined encoding and hints at a framing bug.
#[derive(Debug, Clone, Copy, PartialEq, Eq, Structural)]
pub enum Lr1120Error {
    /// The serial transfer failed at the bus level.
    Spi,
    /// Asserting or releasing chip-select failed.
    Pin,
    /// The chip did not report ready within the caller's poll budget.
    Timeout,
    /// The chip reported it could not execute the command in its current state.
    CmdFail,
    /// The chip reported invalid parameters, or the request was over capacity.
    CmdErr,
    /// A request was rejected by the driver's own validation before any bus
    /// activity, as the chip itself would have rejected it.
    InvalidParam,
    /// The status bits decoded to a value outside the defined enumeration.
    Unknown,
}

} // verus!
