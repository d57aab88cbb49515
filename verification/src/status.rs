//! Device status and interrupts.
//!
//! The device status is a 16-bit word returned as the first two bytes of
//! (almost) every response.  It carries:
//! - the outcome of the previous command (ok, fail, invalid parameters, ...),
//! - a flag for a pending interrupt,
//! - the source of the last reset,
//! - the current chip mode.
//!
//! When a command acknowledges with a single byte, that byte is the high byte
//! of the word and the low byte is forced to zero, so the reset source and
//! chip mode are not independently knowable from the short form.
//!
//! The interrupt snapshot [`Intr`] is a 32-bit word in which each bit is an
//! independently defined event; all events since the last clear are OR'ed
//! together.

use vstd::prelude::*;

use crate::Lr1120Error;

verus! {

/// Status word layout, within the 16-bit big-endian value:
///  - 11:9 command outcome
///  -    8 interrupt pending
///  -  7:4 reset source
///  -  2:0 chip mode
///  -    0 execution context (meaningful for boot status reads)
#[derive(Clone, Copy)]
pub struct Status(u16);

impl View for Status {
    type V = u16;

    closed spec fn view(&self) -> u16 {
        self.0
    }
}

/// Outcome of the previous command.
#[derive(Debug, Clone, Copy, PartialEq, Eq, Structural)]
pub enum CmdStatus {
    /// The last command could not be executed.
    Fail,
    /// The last command had invalid parameters or an unknown opcode.
    PErr,
    /// The last command succeeded.
    Okay,
    /// The last command succeeded and the chip is now streaming data.
    Data,
    /// A bit pattern outside the defined encoding.
    Unknown,
}

impl CmdStatus {
    /// Numeric code of the outcome in the 3-bit status field.
    pub open spec fn spec_code(&self) -> u8 {
        match self {
            CmdStatus::Fail => 0,
            CmdStatus::PErr => 1,
            CmdStatus::Okay => 2,
            CmdStatus::Data => 3,
            CmdStatus::Unknown => 8,
        }
    }

    /// Outcome decoded from the 3-bit status field.
    pub open spec fn spec_from_code(v: u8) -> CmdStatus {
        if v == 0 {
            CmdStatus::Fail
        } else if v == 1 {
            CmdStatus::PErr
        } else if v == 2 {
            CmdStatus::Okay
        } else if v == 3 {
            CmdStatus::Data
        } else {
            CmdStatus::Unknown
        }
    }

    /// Decode the 3-bit outcome field of the status word.
    pub fn from_code(v: u8) -> (r: CmdStatus)
        ensures
            r == CmdStatus::spec_from_code(v),
    {
        match v {
            0 => CmdStatus::Fail,
            1 => CmdStatus::PErr,
            2 => CmdStatus::Okay,
            3 => CmdStatus::Data,
            _ => CmdStatus::Unknown,
        }
    }

    /// The result owed to a caller for this outcome.
    pub open spec fn spec_check(self) -> Result<(), Lr1120Error> {
        match self {
            CmdStatus::Unknown => Err(Lr1120Error::Unknown),
            CmdStatus::Fail => Err(Lr1120Error::CmdFail),
            CmdStatus::PErr => Err(Lr1120Error::CmdErr),
            CmdStatus::Okay => Ok(()),
            CmdStatus::Data => Ok(()),
        }
    }

    /// Check the command outcome: `Okay` and `Data` succeed, the others map
    /// each to their own error.
    pub fn check(&self) -> (r: Result<(), Lr1120Error>)
        ensures
            r == self.spec_check(),
    {
        match self {
            CmdStatus::Unknown => Err(Lr1120Error::Unknown),
            CmdStatus::Fail => Err(Lr1120Error::CmdFail),
            CmdStatus::PErr => Err(Lr1120Error::CmdErr),
            CmdStatus::Okay => Ok(()),
            CmdStatus::Data => Ok(()),
        }
    }

    /// Encode the outcome code for packing into a status word.
    #[verifier::when_used_as_spec(spec_code)]
    pub fn code(&self) -> (r: u8)
        ensures
            r == self.spec_code(),
    {
        match self {
            CmdStatus::Fail => 0,
            CmdStatus::PErr => 1,
            CmdStatus::Okay => 2,
            CmdStatus::Data => 3,
            CmdStatus::Unknown => 8,
        }
    }}

/// Source of the last reset.
#[derive(Debug, Clone, Copy, PartialEq, Eq, Structural)]
pub enum ResetSrc {
    Cleared,
    Analog,
    External,
    System,
    Watchdog,
    Iocd,
    Rtc,
    /// A bit pattern outside the defined encoding.
    Unknown,
}

impl ResetSrc {
    /// Numeric code of the reset source in the 4-bit status field.
    pub open spec fn spec_code(&self) -> u8 {
        match self {
            ResetSrc::Cleared => 0,
            ResetSrc::Analog => 1,
            ResetSrc::External => 2,
            ResetSrc::System => 3,
            ResetSrc::Watchdog => 4,
            ResetSrc::Iocd => 5,
            ResetSrc::Rtc => 6,
            ResetSrc::Unknown => 16,
        }
    }

    /// Reset source decoded from the 4-bit status field.
    pub open spec fn spec_from_code(v: u8) -> ResetSrc {
        if v == 0 {
            ResetSrc::Cleared
        } else if v == 1 {
            ResetSrc::Analog
        } else if v == 2 {
            ResetSrc::External
        } else if v == 3 {
            ResetSrc::System
        } else if v == 4 {
            ResetSrc::Watchdog
        } else if v == 5 {
            ResetSrc::Iocd
        } else if v == 6 {
            ResetSrc::Rtc
        } else {
            ResetSrc::Unknown
        }
    }

    /// Decode the 4-bit reset-source field of the status word.
    pub fn from_code(v: u8) -> (r: ResetSrc)
        ensures
            r == ResetSrc::spec_from_code(v),
    {
        match v {
            0 => ResetSrc::Cleared,
            1 => ResetSrc::Analog,
            2 => ResetSrc::External,
            3 => ResetSrc::System,
            4 => ResetSrc::Watchdog,
            5 => ResetSrc::Iocd,
            6 => ResetSrc::Rtc,
            _ => ResetSrc::Unknown,
        }
    }

    /// Encode the reset-source code for packing into a status word.
    #[verifier::when_used_as_spec(spec_code)]
    pub fn code(&self) -> (r: u8)
        ensures
            r == self.spec_code(),
    {
        match self {
            ResetSrc::Cleared => 0,
            ResetSrc::Analog => 1,
            ResetSrc::External => 2,
            ResetSrc::System => 3,
            ResetSrc::Watchdog => 4,
            ResetSrc::Iocd => 5,
            ResetSrc::Rtc => 6,
            ResetSrc::Unknown => 16,
        }
    }}

/// Current chip mode.
#[derive(Debug, Clone, Copy, PartialEq, Eq, Structural)]
pub enum ChipModeStatus {
    Sleep,
    Rc,
    Xosc,
    Fs,
    Rx,
    Tx,
    Loc,
    /// A bit pattern outside the defined encoding.
    Unknown,
}

impl ChipModeStatus {
    /// Numeric code of the chip mode in the 3-bit status field.
    pub open spec fn spec_code(&self) -> u8 {
        match self {
            ChipModeStatus::Sleep => 0,
            ChipModeStatus::Rc => 1,
            ChipModeStatus::Xosc => 2,
            ChipModeStatus::Fs => 3,
            ChipModeStatus::Rx => 4,
            ChipModeStatus::Tx => 5,
            ChipModeStatus::Loc => 6,
            ChipModeStatus::Unknown => 8,
        }
    }

    /// Chip mode decoded from the 3-bit status field.
    pub open spec fn spec_from_code(v: u8) -> ChipModeStatus {
        if v == 0 {
            ChipModeStatus::Sleep
        } else if v == 1 {
            ChipModeStatus::Rc
        } else if v == 2 {
            ChipModeStatus::Xosc
        } else if v == 3 {
            ChipModeStatus::Fs
        } else if v == 4 {
            ChipModeStatus::Rx
        } else if v == 5 {
            ChipModeStatus::Tx
        } else if v == 6 {
            ChipModeStatus::Loc
        } else {
            ChipModeStatus::Unknown
        }
    }

    /// Decode the 3-bit chip-mode field of the status word.
    pub fn from_code(v: u8) -> (r: ChipModeStatus)
        ensures
            r == ChipModeStatus::spec_from_code(v),
    {
        match v {
            0 => ChipModeStatus::Sleep,
            1 => ChipModeStatus::Rc,
            2 => ChipModeStatus::Xosc,
            3 => ChipModeStatus::Fs,
            4 => ChipModeStatus::Rx,
            5 => ChipModeStatus::Tx,
            6 => ChipModeStatus::Loc,
            _ => ChipModeStatus::Unknown,
        }
    }

    /// Encode the chip-mode code for packing into a status word.
    #[verifier::when_used_as_spec(spec_code)]
    pub fn code(&self) -> (r: u8)
        ensures
            r == self.spec_code(),
    {
        match self {
            ChipModeStatus::Sleep => 0,
            ChipModeStatus::Rc => 1,
            ChipModeStatus::Xosc => 2,
            ChipModeStatus::Fs => 3,
            ChipModeStatus::Rx => 4,
            ChipModeStatus::Tx => 5,
            ChipModeStatus::Loc => 6,
            ChipModeStatus::Unknown => 8,
        }
    }}

/// Execution context reported in the low status bit of a boot status read.
#[derive(Debug, Clone, Copy, PartialEq, Eq, Structural)]
pub enum ExecutionContext {
    Bootloader,
    Flash,
}

impl Status {
    /// Status word assembled from a slice of bytes: the first byte is the
    /// high byte; a missing second byte (short, single-byte acknowledgement)
    /// is treated as zero.
    pub open spec fn spec_from_slice(bytes: Seq<u8>) -> u16 {
        (if bytes.len() >= 1 {
            (bytes[0] as u16) << 8
        } else {
            0u16
        }) | (if bytes.len() >= 2 {
            bytes[1] as u16
        } else {
            0u16
        })
    }

    /// Create a status from an array of two bytes, big-endian.
    pub fn from_array(bytes: [u8; 2]) -> (r: Status)
        ensures
            r@ == (((bytes[0] as u16) << 8) | (bytes[1] as u16)),
    {
        Status(((bytes[0] as u16) << 8) | (bytes[1] as u16))
    }

    /// Create a status from a slice of bytes.
    ///
    /// A single-byte slice is the documented short form: the byte is taken as
    /// the high byte of the word and the low byte is forced to zero, so the
    /// reset source and chip mode decode as if cleared.  An empty slice gives
    /// the zero word.
    pub fn from_slice(bytes: &[u8]) -> (r: Status)
        ensures
            r@ == Status::spec_from_slice(bytes@),
    {
        let hi: u16 = if bytes.len() >= 1 {
            (bytes[0] as u16) << 8
        } else {
            0u16
        };
        let lo: u16 = if bytes.len() >= 2 {
            bytes[1] as u16
        } else {
            0u16
        };
        Status(hi | lo)
    }

    /// Create a status from the short, single-byte form: the byte is the high
    /// byte of the word and the low byte is forced to zero.
    pub fn from_byte(byte: u8) -> (r: Status)
        ensures
            r@ == ((byte as u16) << 8),
    {
        Status((byte as u16) << 8)
    }

    /// Command outcome held in bits 11:9.
    pub open spec fn spec_cmd(self) -> CmdStatus {
        CmdStatus::spec_from_code(((self@ >> 9) & 7) as u8)
    }

    /// Return the command outcome.
    pub fn cmd(&self) -> (r: CmdStatus)
        ensures
            r == self.spec_cmd(),
    {
        let bits_cmd = ((self.0 >> 9) & 7) as u8;
        CmdStatus::from_code(bits_cmd)
    }

    /// True if the outcome reports success (plain or streaming).
    pub open spec fn spec_is_ok(self) -> bool {
        self.spec_cmd() == CmdStatus::Okay || self.spec_cmd() == CmdStatus::Data
    }

    /// Return true if the command outcome reports success.
    pub fn is_ok(&self) -> (r: bool)
        ensures
            r == self.spec_is_ok(),
    {
        let c = self.cmd();
        c == CmdStatus::Okay || c == CmdStatus::Data
    }

    /// True if an interrupt is pending (bit 8).
    pub open spec fn spec_irq(self) -> bool {
        (self@ & 0x0100) != 0
    }

    /// Return true if an interrupt is pending.
    pub fn irq(&self) -> (r: bool)
        ensures
            r == self.spec_irq(),
    {
        (self.0 & 0x0100) != 0
    }

    /// Reset source held in bits 7:4.
    pub open spec fn spec_reset_src(self) -> ResetSrc {
        ResetSrc::spec_from_code(((self@ >> 4) & 15) as u8)
    }

    /// Return the source of the last reset.
    pub fn reset_src(&self) -> (r: ResetSrc)
        ensures
            r == self.spec_reset_src(),
    {
        let bits_rst = ((self.0 >> 4) & 15) as u8;
        ResetSrc::from_code(bits_rst)
    }

    /// Chip mode held in bits 2:0.
    pub open spec fn spec_chip_mode(self) -> ChipModeStatus {
        ChipModeStatus::spec_from_code((self@ & 7) as u8)
    }

    /// Return the current chip mode.
    pub fn chip_mode(&self) -> (r: ChipModeStatus)
        ensures
            r == self.spec_chip_mode(),
    {
        let bits_mode = (self.0 & 7) as u8;
        ChipModeStatus::from_code(bits_mode)
    }

    /// The result owed to a caller for this status word.
    pub open spec fn spec_check(self) -> Result<(), Lr1120Error> {
        self.spec_cmd().spec_check()
    }

    /// Check the command outcome and return `Ok` or the matching error.
    pub fn check(&self) -> (r: Result<(), Lr1120Error>)
        ensures
            r == self.spec_check(),
    {
        self.cmd().check()
    }

    /// Execution context held in the low bit.
    pub open spec fn spec_context(self) -> ExecutionContext {
        if (self@ & 1) == 1 {
            ExecutionContext::Flash
        } else {
            ExecutionContext::Bootloader
        }
    }

    /// Return the execution context reported in the low status bit.
    pub fn context(&self) -> (r: ExecutionContext)
        ensures
            r == self.spec_context(),
    {
        if (self.0 & 1) == 1 {
            ExecutionContext::Flash
        } else {
            ExecutionContext::Bootloader
        }
    }

    /// Status word packed from its fields.  The fields must be encodable:
    /// none of the `Unknown` placeholders, whose codes do not fit the fields.
    pub open spec fn spec_from_fields(
        cmd: CmdStatus,
        irq: bool,
        reset: ResetSrc,
        mode: ChipModeStatus,
    ) -> u16 {
        (((cmd.spec_code() as u16) << 9) | (if irq {
            0x0100u16
        } else {
            0u16
        }) | ((reset.spec_code() as u16) << 4) | (mode.spec_code() as u16))
    }

    /// Pack a status word from its fields.
    ///
    /// The `Unknown` placeholder of each enumeration stands for every bit
    /// pattern outside the defined encoding, so it has no canonical encoding
    /// of its own and is excluded.
    pub fn from_fields(cmd: CmdStatus, irq: bool, reset: ResetSrc, mode: ChipModeStatus) -> (r:
        Status)
        requires
            cmd != CmdStatus::Unknown,
            reset != ResetSrc::Unknown,
            mode != ChipModeStatus::Unknown,
        ensures
            r@ == Status::spec_from_fields(cmd, irq, reset, mode),
            r.spec_cmd() == cmd,
            r.spec_irq() == irq,
            r.spec_reset_src() == reset,
            r.spec_chip_mode() == mode,
    {
        let w: u16 = ((cmd.code() as u16) << 9) | (if irq {
            0x0100u16
        } else {
            0u16
        }) | ((reset.code() as u16) << 4) | (mode.code() as u16);
        let r = Status(w);
        proof {
            lemma_status_round_trip(cmd, irq, reset, mode);
        }
        r
    }

    /// The two status bytes, big-endian.
    pub fn to_bytes(&self) -> (r: [u8; 2])
        ensures
            r@ == seq![((self@ >> 8) & 0xFF) as u8, (self@ & 0xFF) as u8],
            Status::spec_from_slice(r@) == self@,
    {
        let r = [((self.0 >> 8) & 0xFF) as u8, (self.0 & 0xFF) as u8];
        proof {
            let w = self.0;
            assert((((((w >> 8) & 0xFF) as u8) as u16) << 8) | (((w & 0xFF) as u8) as u16)
                == w) by (bit_vector);
        }
        r
    }
}

/// Round trip of the status word: packing encodable fields (no `Unknown`
/// placeholder) into the 16-bit word and decoding yields the same fields.
pub proof fn lemma_status_round_trip(cmd: CmdStatus, irq: bool, reset: ResetSrc,
    mode: ChipModeStatus)
    requires
        cmd != CmdStatus::Unknown,
        reset != ResetSrc::Unknown,
        mode != ChipModeStatus::Unknown,
    ensures
        ({
            let s = Status::spec_from_fields(cmd, irq, reset, mode);
            &&& CmdStatus::spec_from_code(((s >> 9) & 7) as u8) == cmd
            &&& ((s & 0x0100) != 0) == irq
            &&& ResetSrc::spec_from_code(((s >> 4) & 15) as u8) == reset
            &&& ChipModeStatus::spec_from_code((s & 7) as u8) == mode
        }),
{
    let c = cmd.spec_code();
    let i: u16 = if irq {
        0x0100u16
    } else {
        0u16
    };
    let rs = reset.spec_code();
    let m = mode.spec_code();
    let s: u16 = ((c as u16) << 9) | i | ((rs as u16) << 4) | (m as u16);
    assert(c < 4 && rs < 7 && m < 7 && (i == 0x0100 || i == 0) ==> {
        &&& ((s >> 9) & 7) as u8 == c
        &&& ((s & 0x0100) != 0) == (i == 0x0100)
        &&& ((s >> 4) & 15) as u8 == rs
        &&& (s & 7) as u8 == m
    }) by (bit_vector)
        requires
            s == ((c as u16) << 9) | i | ((rs as u16) << 4) | (m as u16),
    ;
}

/// The short, single-byte status form decodes exactly as the two-byte form
/// with the low byte zero.
pub proof fn lemma_short_form_status(byte: u8)
    ensures
        Status::spec_from_slice(seq![byte]) == Status::spec_from_slice(seq![byte, 0u8]),
{
    assert(Status::spec_from_slice(seq![byte]) == ((byte as u16) << 8) | 0u16);
    assert(Status::spec_from_slice(seq![byte, 0u8]) == ((byte as u16) << 8) | (0u8 as u16));
    assert(((byte as u16) << 8) | 0u16 == ((byte as u16) << 8) | (0u8 as u16)) by (bit_vector);
}

/// Packet transmission completed.
pub const IRQ_MASK_TX_DONE: u32 = 0x00000004;

/// Packet received.
pub const IRQ_MASK_RX_DONE: u32 = 0x00000008;

/// Preamble detected.
pub const IRQ_MASK_PREAMBLE_DETECTED: u32 = 0x00000010;

/// LoRa header detected / valid sync word.
pub const IRQ_MASK_SW_HDR_VALID: u32 = 0x00000020;

/// LoRa header CRC error.
pub const IRQ_MASK_HEADER_ERR: u32 = 0x00000040;

/// Raised if the packet was received with a wrong CRC.
pub const IRQ_MASK_CRC_ERROR: u32 = 0x00000080;

/// Channel activity detection finished.
pub const IRQ_MASK_CAD_DONE: u32 = 0x00000100;

/// Channel activity detected.
pub const IRQ_MASK_CAD_DETECTED: u32 = 0x00000200;

/// RX or TX timeout.
pub const IRQ_MASK_TIMEOUT: u32 = 0x00000400;

/// Raised for LR-FHSS intra-packet hopping.
pub const IRQ_MASK_LRFHSS_HOP: u32 = 0x00000800;

/// GNSS scan finished.
pub const IRQ_MASK_GNSS_DONE: u32 = 0x00080000;

/// Wi-Fi scan finished.
pub const IRQ_MASK_WIFI_DONE: u32 = 0x00100000;

/// Low battery detected.
pub const IRQ_MASK_LOW_BAT: u32 = 0x00200000;

/// There was a host command fail/error.
pub const IRQ_MASK_CMD: u32 = 0x00400000;

/// There was another kind of error (use GetErrors).
pub const IRQ_MASK_ERROR: u32 = 0x00800000;

/// Raised if the packet was received with a length error.
pub const IRQ_MASK_LEN_ERROR: u32 = 0x01000000;

/// Raised if the packet was received with a wrong address match.
pub const IRQ_MASK_ADDR_ERROR: u32 = 0x02000000;

/// Raised to time-stamp the end of a packet reception, without the dependent
/// delay of demodulation or mode switching.  Only for timestamping, not for
/// changing mode or re-configuring the device.
pub const IRQ_MASK_RX_TIMESTAMP: u32 = 0x08000000;

/// The last GNSS command was aborted.
pub const IRQ_MASK_GNSS_ABORT: u32 = 0x10000000;

/// All interrupts useful for LoRa TX/RX (preamble detected, header ok/err,
/// tx/rx done, CAD, timeout, CRC error).
pub const IRQ_MASK_LORA_TXRX: u32 = IRQ_MASK_PREAMBLE_DETECTED | IRQ_MASK_HEADER_ERR
    | IRQ_MASK_SW_HDR_VALID | IRQ_MASK_RX_DONE | IRQ_MASK_TX_DONE | IRQ_MASK_CAD_DETECTED
    | IRQ_MASK_CAD_DONE | IRQ_MASK_TIMEOUT | IRQ_MASK_CRC_ERROR;

/// All interrupts useful for FSK TX/RX (preamble detected, tx/rx done,
/// timeout, CRC/length error).
pub const IRQ_MASK_FSK_TXRX: u32 = IRQ_MASK_PREAMBLE_DETECTED | IRQ_MASK_RX_DONE
    | IRQ_MASK_TX_DONE | IRQ_MASK_LEN_ERROR | IRQ_MASK_TIMEOUT | IRQ_MASK_CRC_ERROR;

/// All possible sources of reception error.
pub const IRQ_MASK_RX_ERROR: u32 = IRQ_MASK_HEADER_ERR | IRQ_MASK_CRC_ERROR
    | IRQ_MASK_LEN_ERROR | IRQ_MASK_ADDR_ERROR;

/// Snapshot of the 32-bit interrupt word: each bit an independently defined
/// event, OR'ed over everything that occurred since the last clear.
#[derive(Clone, Copy)]
pub struct Intr(u32);

impl View for Intr {
    type V = u32;

    closed spec fn view(&self) -> u32 {
        self.0
    }
}

impl Intr {
    /// Interrupt word assembled from up to four big-endian bytes; missing
    /// bytes are taken as zero.
    pub open spec fn spec_from_slice(bytes: Seq<u8>) -> u32 {
        (if bytes.len() >= 1 {
            (bytes[0] as u32) << 24
        } else {
            0u32
        }) | (if bytes.len() >= 2 {
            (bytes[1] as u32) << 16
        } else {
            0u32
        }) | (if bytes.len() >= 3 {
            (bytes[2] as u32) << 8
        } else {
            0u32
        }) | (if bytes.len() >= 4 {
            bytes[3] as u32
        } else {
            0u32
        })
    }

    /// Create an interrupt snapshot from a slice of big-endian bytes.
    ///
    /// A slice shorter than four bytes is handled gracefully, with the
    /// missing bytes taken as zero (this happens when retrieving the
    /// interrupt value while writing a command shorter than 6 bytes).
    pub fn from_slice(bytes: &[u8]) -> (r: Intr)
        ensures
            r@ == Intr::spec_from_slice(bytes@),
    {
        let b0: u32 = if bytes.len() >= 1 {
            (bytes[0] as u32) << 24
        } else {
            0u32
        };
        let b1: u32 = if bytes.len() >= 2 {
            (bytes[1] as u32) << 16
        } else {
            0u32
        };
        let b2: u32 = if bytes.len() >= 3 {
            (bytes[2] as u32) << 8
        } else {
            0u32
        };
        let b3: u32 = if bytes.len() >= 4 {
            bytes[3] as u32
        } else {
            0u32
        };
        Intr(b0 | b1 | b2 | b3)
    }

    /// Create an interrupt value from a mask; use the `IRQ_MASK_*` constants
    /// to build it.
    pub fn new(value: u32) -> (r: Intr)
        ensures
            r@ == value,
    {
        Intr(value)
    }

    /// Create an interrupt mask that raises on TX/RX done as well as timeout.
    pub fn new_txrx() -> (r: Intr)
        ensures
            r@ == (IRQ_MASK_RX_DONE | IRQ_MASK_TX_DONE | IRQ_MASK_TIMEOUT),
    {
        Intr(IRQ_MASK_RX_DONE | IRQ_MASK_TX_DONE | IRQ_MASK_TIMEOUT)
    }

    /// Return the interrupt word as a `u32`.
    pub fn value(&self) -> (r: u32)
        ensures
            r == self@,
    {
        self.0
    }

    /// True iff some bit of `mask` is set in this snapshot.
    pub open spec fn spec_intr_match(&self, mask: u32) -> bool {
        (self@ & mask) != 0
    }

    /// Check the snapshot against a mask.
    pub fn intr_match(&self, mask: u32) -> (r: bool)
        ensures
            r == self.spec_intr_match(mask),
    {
        (self.0 & mask) != 0
    }

    /// Returns true if no interrupt is raised.
    pub fn none(&self) -> (r: bool)
        ensures
            r == (self@ == 0),
    {
        self.0 == 0
    }

    /// True iff the bits of `IRQ_MASK_RX_TIMESTAMP` are set in this snapshot.
    pub open spec fn spec_rx_timestamp(&self) -> bool {
        (self@ & IRQ_MASK_RX_TIMESTAMP) != 0
    }

    /// Returns true if RX timestamp interrupt has been raised.
    /// For time-stamping the end of a packet reception, without the dependent
    /// delay of demodulation or mode switching; only for timestamping.
    pub fn rx_timestamp(&self) -> (r: bool)
        ensures
            r == self.spec_rx_timestamp(),
    {
        (self.0 & IRQ_MASK_RX_TIMESTAMP) != 0
    }

    /// True iff the bits of `IRQ_MASK_PREAMBLE_DETECTED` are set in this snapshot.
    pub open spec fn spec_preamble_detected(&self) -> bool {
        (self@ & IRQ_MASK_PREAMBLE_DETECTED) != 0
    }

    /// Returns true if preamble detected interrupt has been raised.
    pub fn preamble_detected(&self) -> (r: bool)
        ensures
            r == self.spec_preamble_detected(),
    {
        (self.0 & IRQ_MASK_PREAMBLE_DETECTED) != 0
    }

    /// True iff the bits of `IRQ_MASK_SW_HDR_VALID` are set in this snapshot.
    pub open spec fn spec_sw_header_valid(&self) -> bool {
        (self@ & IRQ_MASK_SW_HDR_VALID) != 0
    }

    /// Returns true if LoRa header detected / valid sync word interrupt has been raised.
    pub fn sw_header_valid(&self) -> (r: bool)
        ensures
            r == self.spec_sw_header_valid(),
    {
        (self.0 & IRQ_MASK_SW_HDR_VALID) != 0
    }

    /// True iff the bits of `IRQ_MASK_CAD_DETECTED` are set in this snapshot.
    pub open spec fn spec_cad_detected(&self) -> bool {
        (self@ & IRQ_MASK_CAD_DETECTED) != 0
    }

    /// Returns true if channel activity detected interrupt has been raised.
    pub fn cad_detected(&self) -> (r: bool)
        ensures
            r == self.spec_cad_detected(),
    {
        (self.0 & IRQ_MASK_CAD_DETECTED) != 0
    }

    /// True iff the bits of `IRQ_MASK_HEADER_ERR` are set in this snapshot.
    pub open spec fn spec_header_err(&self) -> bool {
        (self@ & IRQ_MASK_HEADER_ERR) != 0
    }

    /// Returns true if LoRa header CRC error interrupt has been raised.
    pub fn header_err(&self) -> (r: bool)
        ensures
            r == self.spec_header_err(),
    {
        (self.0 & IRQ_MASK_HEADER_ERR) != 0
    }

    /// True iff the bits of `IRQ_MASK_LOW_BAT` are set in this snapshot.
    pub open spec fn spec_low_bat(&self) -> bool {
        (self@ & IRQ_MASK_LOW_BAT) != 0
    }

    /// Returns true if a low battery level was detected.
    pub fn low_bat(&self) -> (r: bool)
        ensures
            r == self.spec_low_bat(),
    {
        (self.0 & IRQ_MASK_LOW_BAT) != 0
    }

    /// True iff the bits of `IRQ_MASK_LRFHSS_HOP` are set in this snapshot.
    pub open spec fn spec_lrfhss_hop(&self) -> bool {
        (self@ & IRQ_MASK_LRFHSS_HOP) != 0
    }

    /// Returns true if LR-FHSS intra-packet hopping interrupt has been raised.
    pub fn lrfhss_hop(&self) -> (r: bool)
        ensures
            r == self.spec_lrfhss_hop(),
    {
        (self.0 & IRQ_MASK_LRFHSS_HOP) != 0
    }

    /// True iff the bits of `IRQ_MASK_ERROR` are set in this snapshot.
    pub open spec fn spec_error(&self) -> bool {
        (self@ & IRQ_MASK_ERROR) != 0
    }

    /// Returns true if an error other than a command error occurred (see GetErrors).
    pub fn error(&self) -> (r: bool)
        ensures
            r == self.spec_error(),
    {
        (self.0 & IRQ_MASK_ERROR) != 0
    }

    /// True iff the bits of `IRQ_MASK_CMD` are set in this snapshot.
    pub open spec fn spec_cmd(&self) -> bool {
        (self@ & IRQ_MASK_CMD) != 0
    }

    /// Returns true if there was a host command fail/error.
    pub fn cmd(&self) -> (r: bool)
        ensures
            r == self.spec_cmd(),
    {
        (self.0 & IRQ_MASK_CMD) != 0
    }

    /// True iff the bits of `IRQ_MASK_RX_DONE` are set in this snapshot.
    pub open spec fn spec_rx_done(&self) -> bool {
        (self@ & IRQ_MASK_RX_DONE) != 0
    }

    /// Returns true if packet received interrupt has been raised.
    pub fn rx_done(&self) -> (r: bool)
        ensures
            r == self.spec_rx_done(),
    {
        (self.0 & IRQ_MASK_RX_DONE) != 0
    }

    /// True iff the bits of `IRQ_MASK_TX_DONE` are set in this snapshot.
    pub open spec fn spec_tx_done(&self) -> bool {
        (self@ & IRQ_MASK_TX_DONE) != 0
    }

    /// Returns true if packet transmission completed interrupt has been raised.
    pub fn tx_done(&self) -> (r: bool)
        ensures
            r == self.spec_tx_done(),
    {
        (self.0 & IRQ_MASK_TX_DONE) != 0
    }

    /// True iff the bits of `IRQ_MASK_CAD_DONE` are set in this snapshot.
    pub open spec fn spec_cad_done(&self) -> bool {
        (self@ & IRQ_MASK_CAD_DONE) != 0
    }

    /// Returns true if channel activity detection finished interrupt has been raised.
    pub fn cad_done(&self) -> (r: bool)
        ensures
            r == self.spec_cad_done(),
    {
        (self.0 & IRQ_MASK_CAD_DONE) != 0
    }

    /// True iff the bits of `IRQ_MASK_TIMEOUT` are set in this snapshot.
    pub open spec fn spec_timeout(&self) -> bool {
        (self@ & IRQ_MASK_TIMEOUT) != 0
    }

    /// Returns true if an RX or TX timeout interrupt has been raised.
    pub fn timeout(&self) -> (r: bool)
        ensures
            r == self.spec_timeout(),
    {
        (self.0 & IRQ_MASK_TIMEOUT) != 0
    }

    /// True iff the bits of `IRQ_MASK_CRC_ERROR` are set in this snapshot.
    pub open spec fn spec_crc_error(&self) -> bool {
        (self@ & IRQ_MASK_CRC_ERROR) != 0
    }

    /// Returns true if the packet was received with a wrong CRC.
    pub fn crc_error(&self) -> (r: bool)
        ensures
            r == self.spec_crc_error(),
    {
        (self.0 & IRQ_MASK_CRC_ERROR) != 0
    }

    /// True iff the bits of `IRQ_MASK_LEN_ERROR` are set in this snapshot.
    pub open spec fn spec_len_error(&self) -> bool {
        (self@ & IRQ_MASK_LEN_ERROR) != 0
    }

    /// Returns true if the packet was received with a length error.
    pub fn len_error(&self) -> (r: bool)
        ensures
            r == self.spec_len_error(),
    {
        (self.0 & IRQ_MASK_LEN_ERROR) != 0
    }

    /// True iff the bits of `IRQ_MASK_ADDR_ERROR` are set in this snapshot.
    pub open spec fn spec_addr_error(&self) -> bool {
        (self@ & IRQ_MASK_ADDR_ERROR) != 0
    }

    /// Returns true if the packet was received with a wrong address match.
    pub fn addr_error(&self) -> (r: bool)
        ensures
            r == self.spec_addr_error(),
    {
        (self.0 & IRQ_MASK_ADDR_ERROR) != 0
    }

    /// True iff the bits of `IRQ_MASK_RX_ERROR` are set in this snapshot.
    pub open spec fn spec_rx_error(&self) -> bool {
        (self@ & IRQ_MASK_RX_ERROR) != 0
    }

    /// Returns true if a reception error occurred (address/length/header/CRC).
    pub fn rx_error(&self) -> (r: bool)
        ensures
            r == self.spec_rx_error(),
    {
        (self.0 & IRQ_MASK_RX_ERROR) != 0
    }
}

/// Decode the status header of a response: the first one or two bytes.
///
/// A single byte is the short form and decodes as if followed by a zero byte.
pub fn decode_status(bytes: &[u8]) -> (r: Status)
    ensures
        r@ == Status::spec_from_slice(bytes@),
{
    Status::from_slice(bytes)
}

/// Decode a 4-byte interrupt field into a snapshot of bit-test accessors.
pub fn decode_interrupts(bytes: &[u8]) -> (r: Intr)
    ensures
        r@ == Intr::spec_from_slice(bytes@),
{
    Intr::from_slice(bytes)
}

/// Every named accessor of an interrupt snapshot is a pure test of its
/// documented bit, independent of all other bits.
pub proof fn lemma_intr_accessors_are_bit_tests(i: Intr)
    ensures
        i.spec_tx_done() == ((i@ >> 2) & 1 == 1),
        i.spec_rx_done() == ((i@ >> 3) & 1 == 1),
        i.spec_preamble_detected() == ((i@ >> 4) & 1 == 1),
        i.spec_sw_header_valid() == ((i@ >> 5) & 1 == 1),
        i.spec_header_err() == ((i@ >> 6) & 1 == 1),
        i.spec_crc_error() == ((i@ >> 7) & 1 == 1),
        i.spec_cad_done() == ((i@ >> 8) & 1 == 1),
        i.spec_cad_detected() == ((i@ >> 9) & 1 == 1),
        i.spec_timeout() == ((i@ >> 10) & 1 == 1),
        i.spec_lrfhss_hop() == ((i@ >> 11) & 1 == 1),
        i.spec_low_bat() == ((i@ >> 21) & 1 == 1),
        i.spec_cmd() == ((i@ >> 22) & 1 == 1),
        i.spec_error() == ((i@ >> 23) & 1 == 1),
        i.spec_len_error() == ((i@ >> 24) & 1 == 1),
        i.spec_addr_error() == ((i@ >> 25) & 1 == 1),
        i.spec_rx_timestamp() == ((i@ >> 27) & 1 == 1),
{
    let v = i@;
    assert({
        &&& ((v & 0x00000004u32) != 0) == ((v >> 2) & 1 == 1)
        &&& ((v & 0x00000008u32) != 0) == ((v >> 3) & 1 == 1)
        &&& ((v & 0x00000010u32) != 0) == ((v >> 4) & 1 == 1)
        &&& ((v & 0x00000020u32) != 0) == ((v >> 5) & 1 == 1)
        &&& ((v & 0x00000040u32) != 0) == ((v >> 6) & 1 == 1)
        &&& ((v & 0x00000080u32) != 0) == ((v >> 7) & 1 == 1)
        &&& ((v & 0x00000100u32) != 0) == ((v >> 8) & 1 == 1)
        &&& ((v & 0x00000200u32) != 0) == ((v >> 9) & 1 == 1)
        &&& ((v & 0x00000400u32) != 0) == ((v >> 10) & 1 == 1)
        &&& ((v & 0x00000800u32) != 0) == ((v >> 11) & 1 == 1)
        &&& ((v & 0x00200000u32) != 0) == ((v >> 21) & 1 == 1)
        &&& ((v & 0x00400000u32) != 0) == ((v >> 22) & 1 == 1)
        &&& ((v & 0x00800000u32) != 0) == ((v >> 23) & 1 == 1)
        &&& ((v & 0x01000000u32) != 0) == ((v >> 24) & 1 == 1)
        &&& ((v & 0x02000000u32) != 0) == ((v >> 25) & 1 == 1)
        &&& ((v & 0x08000000u32) != 0) == ((v >> 27) & 1 == 1)
    }) by (bit_vector);
}

/// The accessors commute with bitwise OR of two interrupt snapshots: an
/// event is reported on the union exactly when one of the snapshots
/// reports it.
pub proof fn lemma_intr_accessors_commute_with_or(a: Intr, b: Intr, u: Intr)
    requires
        u@ == (a@ | b@),
    ensures
        u.spec_tx_done() == (a.spec_tx_done() || b.spec_tx_done()),
        u.spec_rx_done() == (a.spec_rx_done() || b.spec_rx_done()),
        u.spec_preamble_detected() == (a.spec_preamble_detected() || b.spec_preamble_detected()),
        u.spec_sw_header_valid() == (a.spec_sw_header_valid() || b.spec_sw_header_valid()),
        u.spec_header_err() == (a.spec_header_err() || b.spec_header_err()),
        u.spec_crc_error() == (a.spec_crc_error() || b.spec_crc_error()),
        u.spec_cad_done() == (a.spec_cad_done() || b.spec_cad_done()),
        u.spec_cad_detected() == (a.spec_cad_detected() || b.spec_cad_detected()),
        u.spec_timeout() == (a.spec_timeout() || b.spec_timeout()),
        u.spec_lrfhss_hop() == (a.spec_lrfhss_hop() || b.spec_lrfhss_hop()),
        u.spec_low_bat() == (a.spec_low_bat() || b.spec_low_bat()),
        u.spec_cmd() == (a.spec_cmd() || b.spec_cmd()),
        u.spec_error() == (a.spec_error() || b.spec_error()),
        u.spec_len_error() == (a.spec_len_error() || b.spec_len_error()),
        u.spec_addr_error() == (a.spec_addr_error() || b.spec_addr_error()),
        u.spec_rx_timestamp() == (a.spec_rx_timestamp() || b.spec_rx_timestamp()),
        u.spec_rx_error() == (a.spec_rx_error() || b.spec_rx_error()),
{
    let x = a@;
    let y = b@;
    assert(forall|m: u32| ((((x | y) & m) != 0) == (((x & m) != 0) || ((y & m) != 0))))
        by (bit_vector);
}

/// The result owed to a caller for a full 16-bit status word.
pub open spec fn spec_status_word_check(w: u16) -> Result<(), Lr1120Error> {
    CmdStatus::spec_from_code(((w >> 9) & 7) as u8).spec_check()
}

/// The result owed to a caller for the short, single-byte status form.
pub open spec fn spec_status_byte_check(b: u8) -> Result<(), Lr1120Error> {
    spec_status_word_check((b as u16) << 8)
}

} // verus!
