//! LoRa commands: modulation, packet parameters, channel activity
//! detection, syncword and ranging.

use vstd::prelude::*;

#[allow(unused_imports)]
use crate::bytes::{be16, be32, be64, spec_be16, spec_be32, spec_be64, spec_u16_hi, spec_u16_lo,
    spec_u32_b0, spec_u32_b1, spec_u32_b2, spec_u32_b3, spec_u64_b0, spec_u64_b1, spec_u64_b2,
    spec_u64_b3, spec_u64_b4, spec_u64_b5, spec_u64_b6, spec_u64_b7, to_array, u16_hi, u16_lo,
    u32_b0, u32_b1, u32_b2, u32_b3, u64_b0, u64_b1, u64_b2, u64_b3, u64_b4, u64_b5, u64_b6,
    u64_b7};
#[allow(unused_imports)]
use crate::port::zero_bytes;
#[allow(unused_imports)]
use crate::status::Status;

verus! {

/// Spreading factor.
#[derive(Debug, Clone, Copy, PartialEq, Eq, PartialOrd, Ord, Structural)]
pub enum Sf {
    Sf5,
    Sf6,
    Sf7,
    Sf8,
    Sf9,
    Sf10,
    Sf11,
    Sf12,
}

impl Sf {
    /// Numeric code of this value on the wire.
    pub open spec fn spec_code(&self) -> u8 {
        match self {
            Sf::Sf5 => 5,
            Sf::Sf6 => 6,
            Sf::Sf7 => 7,
            Sf::Sf8 => 8,
            Sf::Sf9 => 9,
            Sf::Sf10 => 10,
            Sf::Sf11 => 11,
            Sf::Sf12 => 12,
        }
    }

    /// Encode this value for a request byte.
    #[verifier::when_used_as_spec(spec_code)]
    pub fn code(&self) -> (r: u8)
        ensures
            r == self.spec_code(),
    {
        match self {
            Sf::Sf5 => 5,
            Sf::Sf6 => 6,
            Sf::Sf7 => 7,
            Sf::Sf8 => 8,
            Sf::Sf9 => 9,
            Sf::Sf10 => 10,
            Sf::Sf11 => 11,
            Sf::Sf12 => 12,
        }
    }
}

/// LoRa bandwidth.
#[derive(Debug, Clone, Copy, PartialEq, Eq, Structural)]
pub enum LoraBw {
    Bw7,
    Bw15,
    Bw31,
    Bw62,
    Bw125,
    Bw250,
    Bw500,
    Bw1000,
    Bw10,
    Bw20,
    Bw41,
    Bw83,
    Bw101,
    Bw203,
    Bw406,
    Bw812,
}

impl LoraBw {
    /// Numeric code of this value on the wire.
    pub open spec fn spec_code(&self) -> u8 {
        match self {
            LoraBw::Bw7 => 0,
            LoraBw::Bw15 => 1,
            LoraBw::Bw31 => 2,
            LoraBw::Bw62 => 3,
            LoraBw::Bw125 => 4,
            LoraBw::Bw250 => 5,
            LoraBw::Bw500 => 6,
            LoraBw::Bw1000 => 7,
            LoraBw::Bw10 => 8,
            LoraBw::Bw20 => 9,
            LoraBw::Bw41 => 10,
            LoraBw::Bw83 => 11,
            LoraBw::Bw101 => 12,
            LoraBw::Bw203 => 13,
            LoraBw::Bw406 => 14,
            LoraBw::Bw812 => 15,
        }
    }

    /// Encode this value for a request byte.
    #[verifier::when_used_as_spec(spec_code)]
    pub fn code(&self) -> (r: u8)
        ensures
            r == self.spec_code(),
    {
        match self {
            LoraBw::Bw7 => 0,
            LoraBw::Bw15 => 1,
            LoraBw::Bw31 => 2,
            LoraBw::Bw62 => 3,
            LoraBw::Bw125 => 4,
            LoraBw::Bw250 => 5,
            LoraBw::Bw500 => 6,
            LoraBw::Bw1000 => 7,
            LoraBw::Bw10 => 8,
            LoraBw::Bw20 => 9,
            LoraBw::Bw41 => 10,
            LoraBw::Bw83 => 11,
            LoraBw::Bw101 => 12,
            LoraBw::Bw203 => 13,
            LoraBw::Bw406 => 14,
            LoraBw::Bw812 => 15,
        }
    }
}

impl LoraBw {
    /// The bandwidth in Hz.
    pub open spec fn spec_to_hz(&self) -> u32 {
        match self {
            LoraBw::Bw1000 => 1_000_000,
            LoraBw::Bw812 => 812_500,
            LoraBw::Bw500 => 500_000,
            LoraBw::Bw406 => 406_250,
            LoraBw::Bw250 => 250_000,
            LoraBw::Bw203 => 203_125,
            LoraBw::Bw125 => 125_000,
            LoraBw::Bw101 => 101_562,
            LoraBw::Bw83 => 83_333,
            LoraBw::Bw62 => 62_500,
            LoraBw::Bw41 => 41_666,
            LoraBw::Bw31 => 31_250,
            LoraBw::Bw20 => 20_833,
            LoraBw::Bw15 => 15_625,
            LoraBw::Bw10 => 10_416,
            LoraBw::Bw7 => 7_812,
        }
    }

    /// Return the bandwidth in Hz.
    #[verifier::when_used_as_spec(spec_to_hz)]
    pub fn to_hz(&self) -> (r: u32)
        ensures
            r == self.spec_to_hz(),
    {
        match self {
            LoraBw::Bw1000 => 1_000_000,
            LoraBw::Bw812 => 812_500,
            LoraBw::Bw500 => 500_000,
            LoraBw::Bw406 => 406_250,
            LoraBw::Bw250 => 250_000,
            LoraBw::Bw203 => 203_125,
            LoraBw::Bw125 => 125_000,
            LoraBw::Bw101 => 101_562,
            LoraBw::Bw83 => 83_333,
            LoraBw::Bw62 => 62_500,
            LoraBw::Bw41 => 41_666,
            LoraBw::Bw31 => 31_250,
            LoraBw::Bw20 => 20_833,
            LoraBw::Bw15 => 15_625,
            LoraBw::Bw10 => 10_416,
            LoraBw::Bw7 => 7_812,
        }
    }

    /// True for the fractional bandwidths, which correspond to the bands
    /// used in the SX1280.
    pub open spec fn spec_is_fractional(&self) -> bool {
        self is Bw812 || self is Bw406 || self is Bw203 || self is Bw101
    }

    /// Flag a fractional bandwidth.
    #[verifier::when_used_as_spec(spec_is_fractional)]
    pub fn is_fractional(&self) -> (r: bool)
        ensures
            r == self.spec_is_fractional(),
    {
        matches!(self, LoraBw::Bw812 | LoraBw::Bw406 | LoraBw::Bw203 | LoraBw::Bw101)
    }
}

/// Coding rate.  For the long interleaver (LI) the minimum payload is
/// 8 bytes and the maximum 253 bytes (CRC on) or 255 bytes (CRC off).
#[derive(Debug, Clone, Copy, PartialEq, Eq, Structural)]
pub enum LoraCr {
    Cr1Ham45Si,
    Cr2Ham23Si,
    Cr3Ham47Si,
    Cr4Ham12Si,
    Cr5Ham45Li,
    Cr6Ham23Li,
    Cr7Ham12Li,
    NoCoding,
}

impl LoraCr {
    /// Numeric code of this value on the wire.
    pub open spec fn spec_code(&self) -> u8 {
        match self {
            LoraCr::Cr1Ham45Si => 1,
            LoraCr::Cr2Ham23Si => 2,
            LoraCr::Cr3Ham47Si => 3,
            LoraCr::Cr4Ham12Si => 4,
            LoraCr::Cr5Ham45Li => 5,
            LoraCr::Cr6Ham23Li => 6,
            LoraCr::Cr7Ham12Li => 7,
            LoraCr::NoCoding => 0,
        }
    }

    /// Encode this value for a request byte.
    #[verifier::when_used_as_spec(spec_code)]
    pub fn code(&self) -> (r: u8)
        ensures
            r == self.spec_code(),
    {
        match self {
            LoraCr::Cr1Ham45Si => 1,
            LoraCr::Cr2Ham23Si => 2,
            LoraCr::Cr3Ham47Si => 3,
            LoraCr::Cr4Ham12Si => 4,
            LoraCr::Cr5Ham45Li => 5,
            LoraCr::Cr6Ham23Li => 6,
            LoraCr::Cr7Ham12Li => 7,
            LoraCr::NoCoding => 0,
        }
    }

    /// Decode a response byte; unknown codes map to the fallback value.
    pub open spec fn spec_from_code(v: u8) -> LoraCr {
        if v == 1 {
            LoraCr::Cr1Ham45Si
        } else if v == 2 {
            LoraCr::Cr2Ham23Si
        } else if v == 3 {
            LoraCr::Cr3Ham47Si
        } else if v == 4 {
            LoraCr::Cr4Ham12Si
        } else if v == 5 {
            LoraCr::Cr5Ham45Li
        } else if v == 6 {
            LoraCr::Cr6Ham23Li
        } else if v == 7 {
            LoraCr::Cr7Ham12Li
        } else {
            LoraCr::NoCoding
        }
    }

    /// Decode a response byte.
    pub fn from_code(v: u8) -> (r: LoraCr)
        ensures
            r == LoraCr::spec_from_code(v),
    {
        match v {
            1 => LoraCr::Cr1Ham45Si,
            2 => LoraCr::Cr2Ham23Si,
            3 => LoraCr::Cr3Ham47Si,
            4 => LoraCr::Cr4Ham12Si,
            5 => LoraCr::Cr5Ham45Li,
            6 => LoraCr::Cr6Ham23Li,
            7 => LoraCr::Cr7Ham12Li,
            _ => LoraCr::NoCoding,
        }
    }
}

impl LoraCr {
    /// True for the coding rates that use long interleaving.
    pub open spec fn spec_is_li(&self) -> bool {
        self is Cr5Ham45Li || self is Cr6Ham23Li || self is Cr7Ham12Li
    }

    /// Return whether this coding rate uses long interleaving.
    #[verifier::when_used_as_spec(spec_is_li)]
    pub fn is_li(&self) -> (r: bool)
        ensures
            r == self.spec_is_li(),
    {
        matches!(self, LoraCr::Cr5Ham45Li | LoraCr::Cr6Ham23Li | LoraCr::Cr7Ham12Li)
    }

    /// The denominator of the coding rate, for a numerator of 4.
    pub open spec fn spec_denominator(&self) -> u8 {
        match self {
            LoraCr::NoCoding => 4,
            LoraCr::Cr1Ham45Si => 5,
            LoraCr::Cr5Ham45Li => 5,
            LoraCr::Cr2Ham23Si => 6,
            LoraCr::Cr6Ham23Li => 6,
            LoraCr::Cr3Ham47Si => 7,
            LoraCr::Cr4Ham12Si => 8,
            LoraCr::Cr7Ham12Li => 8,
        }
    }

    /// Return the denominator of the coding rate, for a numerator of 4.
    #[verifier::when_used_as_spec(spec_denominator)]
    pub fn denominator(&self) -> (r: u8)
        ensures
            r == self.spec_denominator(),
    {
        match self {
            LoraCr::NoCoding => 4,
            LoraCr::Cr1Ham45Si | LoraCr::Cr5Ham45Li => 5,
            LoraCr::Cr2Ham23Si | LoraCr::Cr6Ham23Li => 6,
            LoraCr::Cr3Ham47Si => 7,
            LoraCr::Cr4Ham12Si | LoraCr::Cr7Ham12Li => 8,
        }
    }
}

/// Low data rate optimisation.  Enable for high spreading factors to
/// increase tolerance to clock drift; mandatory for SF11/SF12 at BW125 and
/// SF12 at BW250.
#[derive(Debug, Clone, Copy, PartialEq, Eq, Structural)]
pub enum Ldro {
    Off,
    On,
}

impl Ldro {
    /// Numeric code of this value on the wire.
    pub open spec fn spec_code(&self) -> u8 {
        match self {
            Ldro::Off => 0,
            Ldro::On => 1,
        }
    }

    /// Encode this value for a request byte.
    #[verifier::when_used_as_spec(spec_code)]
    pub fn code(&self) -> (r: u8)
        ensures
            r == self.spec_code(),
    {
        match self {
            Ldro::Off => 0,
            Ldro::On => 1,
        }
    }
}

/// Explicit header (default) or implicit header.
#[derive(Debug, Clone, Copy, PartialEq, Eq, Structural)]
pub enum HeaderType {
    Explicit,
    Implicit,
}

impl HeaderType {
    /// Numeric code of this value on the wire.
    pub open spec fn spec_code(&self) -> u8 {
        match self {
            HeaderType::Explicit => 0,
            HeaderType::Implicit => 1,
        }
    }

    /// Encode this value for a request byte.
    #[verifier::when_used_as_spec(spec_code)]
    pub fn code(&self) -> (r: u8)
        ensures
            r == self.spec_code(),
    {
        match self {
            HeaderType::Explicit => 0,
            HeaderType::Implicit => 1,
        }
    }
}

/// CAD exit mode: return to standby, stay in RX if activity was
/// detected, or go to TX if no activity was detected (listen before talk).
#[derive(Debug, Clone, Copy, PartialEq, Eq, Structural)]
pub enum ExitMode {
    CadOnly,
    CadRx,
    CadLbt,
}

impl ExitMode {
    /// Numeric code of this value on the wire.
    pub open spec fn spec_code(&self) -> u8 {
        match self {
            ExitMode::CadOnly => 0,
            ExitMode::CadRx => 1,
            ExitMode::CadLbt => 16,
        }
    }

    /// Encode this value for a request byte.
    #[verifier::when_used_as_spec(spec_code)]
    pub fn code(&self) -> (r: u8)
        ensures
            r == self.spec_code(),
    {
        match self {
            ExitMode::CadOnly => 0,
            ExitMode::CadRx => 1,
            ExitMode::CadLbt => 16,
        }
    }
}

/// How many of the 4 address bytes are checked against the request
/// address sent by the initiator; the checked bytes are the LSBs when
/// fewer than 4.
#[derive(Debug, Clone, Copy, PartialEq, Eq, Structural)]
pub enum CheckLength {
    Addr8b,
    Addr16b,
    Addr24b,
    Addr32b,
}

impl CheckLength {
    /// Numeric code of this value on the wire.
    pub open spec fn spec_code(&self) -> u8 {
        match self {
            CheckLength::Addr8b => 1,
            CheckLength::Addr16b => 2,
            CheckLength::Addr24b => 3,
            CheckLength::Addr32b => 4,
        }
    }

    /// Encode this value for a request byte.
    #[verifier::when_used_as_spec(spec_code)]
    pub fn code(&self) -> (r: u8)
        ensures
            r == self.spec_code(),
    {
        match self {
            CheckLength::Addr8b => 1,
            CheckLength::Addr16b => 2,
            CheckLength::Addr24b => 3,
            CheckLength::Addr32b => 4,
        }
    }
}

/// Ranging result type: last distance result or last RSSI result.
#[derive(Debug, Clone, Copy, PartialEq, Eq, Structural)]
pub enum RangingResKind {
    Distance,
    Rssi,
}

impl RangingResKind {
    /// Numeric code of this value on the wire.
    pub open spec fn spec_code(&self) -> u8 {
        match self {
            RangingResKind::Distance => 0,
            RangingResKind::Rssi => 1,
        }
    }

    /// Encode this value for a request byte.
    #[verifier::when_used_as_spec(spec_code)]
    pub fn code(&self) -> (r: u8)
        ensures
            r == self.spec_code(),
    {
        match self {
            RangingResKind::Distance => 0,
            RangingResKind::Rssi => 1,
        }
    }
}

/// Bytes of the SetLoraModulationParams request.
pub open spec fn spec_set_lora_modulation_params_cmd(sf: Sf, lora_bw: LoraBw, lora_cr: LoraCr, ldro: Ldro) -> Seq<u8> {
    seq![
        0x02u8,
        0x0Fu8,
        sf.spec_code(),
        lora_bw.spec_code(),
        (lora_cr.spec_code() & 0x7),
        (ldro.spec_code() & 0x3),
    ]
}

/// Configures the LoRa modulation parameters (SF, BW, CR, LDRO).  Fails if
/// the packet type is not LoRa.  SF5/SF6 are compatible with the SX126x.
pub fn set_lora_modulation_params_cmd(sf: Sf, lora_bw: LoraBw, lora_cr: LoraCr, ldro: Ldro) -> (r: [u8; 6])
    ensures
        r@ == spec_set_lora_modulation_params_cmd(sf, lora_bw, lora_cr, ldro),
{
    [
        0x02,
        0x0F,
        sf.code(),
        lora_bw.code(),
        lora_cr.code() & 0x7,
        ldro.code() & 0x3,
    ]
}

/// Bytes of the SetLoraPacketParams request.
pub open spec fn spec_set_lora_packet_params_cmd(pbl_len: u16, header_type: HeaderType, pld_len: u8, crc_en: bool, invert_iq: bool) -> Seq<u8> {
    seq![
        0x02u8,
        0x10u8,
        spec_u16_hi(pbl_len),
        spec_u16_lo(pbl_len),
        header_type.spec_code(),
        pld_len,
        (if crc_en { 1u8 } else { 0u8 }),
        (if invert_iq { 1u8 } else { 0u8 }),
    ]
}

/// Configures the LoRa RF packet parameters.  Fails if no packet type is
/// set.
pub fn set_lora_packet_params_cmd(pbl_len: u16, header_type: HeaderType, pld_len: u8, crc_en: bool, invert_iq: bool) -> (r: [u8; 8])
    ensures
        r@ == spec_set_lora_packet_params_cmd(pbl_len, header_type, pld_len, crc_en, invert_iq),
{
    [
        0x02,
        0x10,
        u16_hi(pbl_len),
        u16_lo(pbl_len),
        header_type.code(),
        pld_len,
        if crc_en { 1 } else { 0 },
        if invert_iq { 1 } else { 0 },
    ]
}

/// Bytes of the SetLoraCad request.
pub open spec fn spec_set_lora_cad_cmd() -> Seq<u8> {
    seq![
        0x02u8,
        0x18u8,
    ]
}

/// Activates the channel activity detection (CAD) feature, searching for a
/// LoRa preamble signal.  Triggers the CadDone interrupt when complete and
/// CadDetected if a valid signal was found.  Returns to standby afterwards.
pub fn set_lora_cad_cmd() -> (r: [u8; 2])
    ensures
        r@ == spec_set_lora_cad_cmd(),
{
    [
        0x02,
        0x18,
    ]
}

/// Bytes of the SetLoraCadParams request.
pub open spec fn spec_set_lora_cad_params_cmd(nb_symbols: u8, det_peak: u8, det_min: u8, exit_mode: ExitMode, timeout: u32) -> Seq<u8> {
    seq![
        0x02u8,
        0x0Du8,
        nb_symbols,
        det_peak,
        det_min,
        exit_mode.spec_code(),
        spec_u32_b2(timeout),
        spec_u32_b1(timeout),
        spec_u32_b0(timeout),
    ]
}

/// Defines the LoRa CAD parameters.  The detection peak and minimum depend
/// on SF, BW and symbol count, and must be tested carefully for good
/// sensitivity with minimal false detections.
pub fn set_lora_cad_params_cmd(nb_symbols: u8, det_peak: u8, det_min: u8, exit_mode: ExitMode, timeout: u32) -> (r: [u8; 9])
    ensures
        r@ == spec_set_lora_cad_params_cmd(nb_symbols, det_peak, det_min, exit_mode, timeout),
{
    [
        0x02,
        0x0D,
        nb_symbols,
        det_peak,
        det_min,
        exit_mode.code(),
        u32_b2(timeout),
        u32_b1(timeout),
        u32_b0(timeout),
    ]
}

/// Bytes of the SetLoraSynchTimeout request.
pub open spec fn spec_set_lora_synch_timeout_cmd(symbol_num: u8) -> Seq<u8> {
    seq![
        0x02u8,
        0x1Bu8,
        symbol_num,
    ]
}

/// Configures the LoRa modem to issue an RX timeout after exactly this
/// many symbols if no packet was detected.
pub fn set_lora_synch_timeout_cmd(symbol_num: u8) -> (r: [u8; 3])
    ensures
        r@ == spec_set_lora_synch_timeout_cmd(symbol_num),
{
    [
        0x02,
        0x1B,
        symbol_num,
    ]
}

/// Bytes of the SetLoraSyncword request.
pub open spec fn spec_set_lora_syncword_cmd(syncword: u8) -> Seq<u8> {
    seq![
        0x02u8,
        0x2Bu8,
        syncword,
    ]
}

/// Sets the LoRa syncword.  Valid for all spreading factors.
pub fn set_lora_syncword_cmd(syncword: u8) -> (r: [u8; 3])
    ensures
        r@ == spec_set_lora_syncword_cmd(syncword),
{
    [
        0x02,
        0x2B,
        syncword,
    ]
}

/// Bytes of the GetLoraRxHeaderInfos request.
pub open spec fn spec_get_lora_rx_header_infos_req() -> Seq<u8> {
    seq![
        0x02u8,
        0x30u8,
    ]
}

/// Returns the information coded in the last received packet header
/// (explicit header mode), or the configured coding rate and CRC settings
/// (implicit mode).
pub fn get_lora_rx_header_infos_req() -> (r: [u8; 2])
    ensures
        r@ == spec_get_lora_rx_header_infos_req(),
{
    [
        0x02,
        0x30,
    ]
}

/// Bytes of the SetRangingAddr request.
pub open spec fn spec_set_ranging_addr_cmd(addr: u32, check_length: CheckLength) -> Seq<u8> {
    seq![
        0x02u8,
        0x1Cu8,
        spec_u32_b3(addr),
        spec_u32_b2(addr),
        spec_u32_b1(addr),
        spec_u32_b0(addr),
        (check_length.spec_code() & 0x7),
    ]
}

/// Sets the ranging ID of this slave device, and which address bytes are
/// checked against the master's request.
pub fn set_ranging_addr_cmd(addr: u32, check_length: CheckLength) -> (r: [u8; 7])
    ensures
        r@ == spec_set_ranging_addr_cmd(addr, check_length),
{
    [
        0x02,
        0x1C,
        u32_b3(addr),
        u32_b2(addr),
        u32_b1(addr),
        u32_b0(addr),
        check_length.code() & 0x7,
    ]
}

/// Bytes of the SetRangingAddr request.
pub open spec fn spec_set_ranging_req_addr_cmd(req_addr: u32) -> Seq<u8> {
    seq![
        0x02u8,
        0x1Du8,
        spec_u32_b3(req_addr),
        spec_u32_b2(req_addr),
        spec_u32_b1(req_addr),
        spec_u32_b0(req_addr),
    ]
}

/// Sets the address requested by the master in the ranging request.  Must
/// match the receiving slave's ranging address.
pub fn set_ranging_req_addr_cmd(req_addr: u32) -> (r: [u8; 6])
    ensures
        r@ == spec_set_ranging_req_addr_cmd(req_addr),
{
    [
        0x02,
        0x1D,
        u32_b3(req_addr),
        u32_b2(req_addr),
        u32_b1(req_addr),
        u32_b0(req_addr),
    ]
}

/// Bytes of the GetRangingResult request.
pub open spec fn spec_get_ranging_result_req(ranging_res_kind: RangingResKind) -> Seq<u8> {
    seq![
        0x02u8,
        0x1Eu8,
        ranging_res_kind.spec_code(),
    ]
}

/// Reads the ranging results in the master.  Distance formula: round trip
/// distance (m) = result * 3e8 / (2^12 * BW); RSSI formula: RSSI (dB) =
/// result / 2.
pub fn get_ranging_result_req(ranging_res_kind: RangingResKind) -> (r: [u8; 3])
    ensures
        r@ == spec_get_ranging_result_req(ranging_res_kind),
{
    [
        0x02,
        0x1E,
        ranging_res_kind.code(),
    ]
}

/// Bytes of the SetRangingTxRxDelay request.
pub open spec fn spec_set_ranging_tx_rx_delay_cmd(delay: u32) -> Seq<u8> {
    seq![
        0x02u8,
        0x1Fu8,
        spec_u32_b3(delay),
        spec_u32_b2(delay),
        spec_u32_b1(delay),
        spec_u32_b0(delay),
    ]
}

/// Sets the TX/RX delay for ranging calibration, compensating the
/// deterministic fixed delay in processing a ranging exchange.  The same
/// value must be written in both master and slave; it depends on the LoRa
/// BW/SF used.
pub fn set_ranging_tx_rx_delay_cmd(delay: u32) -> (r: [u8; 6])
    ensures
        r@ == spec_set_ranging_tx_rx_delay_cmd(delay),
{
    [
        0x02,
        0x1F,
        u32_b3(delay),
        u32_b2(delay),
        u32_b1(delay),
        u32_b0(delay),
    ]
}

/// Bytes of the SetRangingParameter request.
pub open spec fn spec_set_ranging_parameter_cmd(reserved: u8, symb_nb: u8) -> Seq<u8> {
    seq![
        0x02u8,
        0x28u8,
        reserved,
        symb_nb,
    ]
}

/// Defines the number of symbols used during ranging synchronization.  A
/// value of 15 is a good compromise between accuracy and time on air.
pub fn set_ranging_parameter_cmd(reserved: u8, symb_nb: u8) -> (r: [u8; 4])
    ensures
        r@ == spec_set_ranging_parameter_cmd(reserved, symb_nb),
{
    [
        0x02,
        0x28,
        reserved,
        symb_nb,
    ]
}

// Response structs

/// Bytes of the GetPacketStatus request, read with the LoRa packet type
/// configured.
pub open spec fn spec_get_lora_packet_status_req() -> Seq<u8> {
    seq![0x02u8, 0x04u8]
}

/// Returns the status of the last received LoRa packet: RSSI and SNR.
pub fn get_lora_packet_status_req() -> (r: [u8; 2])
    ensures
        r@ == spec_get_lora_packet_status_req(),
{
    [0x02, 0x04]
}

/// Response for the GetPacketStatus command with the LoRa packet type.
pub struct LoraPacketStatusRsp([u8; 4]);

impl LoraPacketStatusRsp {
    /// The raw response bytes.
    pub closed spec fn bytes(&self) -> Seq<u8> {
        self.0@
    }

    /// Create a zero-filled response buffer.
    pub fn new() -> (r: Self)
        ensures
            r.bytes() == zero_bytes(4),
    {
        let r = LoraPacketStatusRsp([0u8; 4]);
        proof {
            assert(r.bytes() =~= zero_bytes(4));
        }
        r
    }

    /// Wrap the raw bytes returned by a read transaction.
    pub fn from_bytes(bytes: &[u8]) -> (r: Self)
        requires
            bytes@.len() == 4,
        ensures
            r.bytes() == bytes@,
    {
        LoraPacketStatusRsp(to_array(bytes))
    }

    /// Return the status header (short form, from byte 0).
    pub fn status(&self) -> (r: Status)
        ensures
            r@ == ((self.bytes()[0] as u16) << 8),
    {
        Status::from_byte(self.0[0])
    }

    /// Average RSSI over the packet.  Convert to dBm with
    /// RSSI(dBm) = -rssi/2.
    pub fn rssi_pkt(&self) -> (r: u8)
        ensures
            r == self.bytes()[1],
    {
        self.0[1]
    }

    /// SNR of the packet, signed, in 0.25dB steps.
    pub fn snr_pkt(&self) -> (r: i8)
        ensures
            r == (self.bytes()[2] as i8),
    {
        self.0[2] as i8
    }

    /// RSSI of the despread LoRa signal.  Convert to dBm with
    /// RSSI(dBm) = -rssi/2.
    pub fn signal_rssi_pkt(&self) -> (r: u8)
        ensures
            r == self.bytes()[3],
    {
        self.0[3]
    }
}



/// Response for the GetLoraRxHeaderInfos command.
pub struct LoraRxHeaderInfosRsp([u8; 2]);

impl LoraRxHeaderInfosRsp {
    /// The raw response bytes.
    pub closed spec fn bytes(&self) -> Seq<u8> {
        self.0@
    }

    /// Create a zero-filled response buffer.
    pub fn new() -> (r: Self)
        ensures
            r.bytes() == zero_bytes(2),
    {
        let r = LoraRxHeaderInfosRsp([0u8; 2]);
        proof {
            assert(r.bytes() =~= zero_bytes(2));
        }
        r
    }

    /// Wrap the raw bytes returned by a read transaction.
    pub fn from_bytes(bytes: &[u8]) -> (r: Self)
        requires
            bytes@.len() == 2,
        ensures
            r.bytes() == bytes@,
    {
        LoraRxHeaderInfosRsp(to_array(bytes))
    }

    /// Return the status header (short form, from byte 0).
    pub fn status(&self) -> (r: Status)
        ensures
            r@ == ((self.bytes()[0] as u16) << 8),
    {
        Status::from_byte(self.0[0])
    }

    /// CRC status from the header (explicit mode) or the configured setting
    /// (implicit mode).
    pub fn crc(&self) -> (r: bool)
        ensures
            r == ((self.bytes()[1] & 0x10) != 0),
    {
        (self.0[1] & 0x10) != 0
    }

    /// Coding rate from the header (explicit mode) or the configured
    /// setting (implicit mode).
    pub fn lora_cr(&self) -> (r: LoraCr)
        ensures
            r == LoraCr::spec_from_code((self.bytes()[1] & 0x7)),
    {
        LoraCr::from_code(self.0[1] & 0x7)
    }
}

/// Response for the GetRangingResult command.
pub struct RangingResultRsp([u8; 4]);

impl RangingResultRsp {
    /// The raw response bytes.
    pub closed spec fn bytes(&self) -> Seq<u8> {
        self.0@
    }

    /// Create a zero-filled response buffer.
    pub fn new() -> (r: Self)
        ensures
            r.bytes() == zero_bytes(4),
    {
        let r = RangingResultRsp([0u8; 4]);
        proof {
            assert(r.bytes() =~= zero_bytes(4));
        }
        r
    }

    /// Wrap the raw bytes returned by a read transaction.
    pub fn from_bytes(bytes: &[u8]) -> (r: Self)
        requires
            bytes@.len() == 4,
        ensures
            r.bytes() == bytes@,
    {
        RangingResultRsp(to_array(bytes))
    }

    /// Return the status header (short form, from byte 0).
    pub fn status(&self) -> (r: Status)
        ensures
            r@ == ((self.bytes()[0] as u16) << 8),
    {
        Status::from_byte(self.0[0])
    }

    /// Raw ranging result.  The distance in meters is
    /// rng * 150 / (2^12 * bandwidth).
    pub fn rng(&self) -> (r: u32)
        ensures
            r == (((self.bytes()[1] as u32) << 16) | ((self.bytes()[2] as u32) << 8) | (self.bytes()[3] as u32)),
    {
        ((self.0[1] as u32) << 16) | ((self.0[2] as u32) << 8) | (self.0[3] as u32)
    }
}

/// Response for the GetRangingRssi command.
pub struct RangingRssiRsp([u8; 2]);

impl RangingRssiRsp {
    /// The raw response bytes.
    pub closed spec fn bytes(&self) -> Seq<u8> {
        self.0@
    }

    /// Create a zero-filled response buffer.
    pub fn new() -> (r: Self)
        ensures
            r.bytes() == zero_bytes(2),
    {
        let r = RangingRssiRsp([0u8; 2]);
        proof {
            assert(r.bytes() =~= zero_bytes(2));
        }
        r
    }

    /// Wrap the raw bytes returned by a read transaction.
    pub fn from_bytes(bytes: &[u8]) -> (r: Self)
        requires
            bytes@.len() == 2,
        ensures
            r.bytes() == bytes@,
    {
        RangingRssiRsp(to_array(bytes))
    }

    /// Return the status header (short form, from byte 0).
    pub fn status(&self) -> (r: Status)
        ensures
            r@ == ((self.bytes()[0] as u16) << 8),
    {
        Status::from_byte(self.0[0])
    }

    /// RSSI value in -0.5 dBm steps.
    pub fn rssi(&self) -> (r: u8)
        ensures
            r == self.bytes()[1],
    {
        self.0[1]
    }
}

} // verus!
