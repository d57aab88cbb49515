//! (G)FSK commands: modulation, packet parameters, syncword,
//! addressing, CRC and whitening.

use vstd::prelude::*;

#[allow(unused_imports)]
use crate::bytes::{be16, be32, be64, spec_be16, spec_be32, spec_be64, spec_u16_hi, spec_u16_lo,
    spec_u32_b0, spec_u32_b1, spec_u32_b2, spec_u32_b3, spec_u64_b0, spec_u64_b1, spec_u64_b2,
    spec_u64_b3, spec_u64_b4, spec_u64_b5, spec_u64_b6, spec_u64_b7, to_array, u16_hi, u16_lo,
    u32_b0, u32_b1, u32_b2, u32_b3, u64_b0, u64_b1, u64_b2, u64_b3, u64_b4, u64_b5, u64_b6,
    u64_b7};
#[allow(unused_imports)]
use crate::port::zero_bytes;
#[allow(unused_imports)]
use crate::status::Status;

verus! {

/// Bit rate precision: high means 8 fractional bits, basic means no
/// fractional bits.
#[derive(Debug, Clone, Copy, PartialEq, Eq, Structural)]
pub enum Precision {
    Basic,
    High,
}

impl Precision {
    /// Numeric code of this value on the wire.
    pub open spec fn spec_code(&self) -> u8 {
        match self {
            Precision::Basic => 0,
            Precision::High => 1,
        }
    }

    /// Encode this value for a request byte.
    #[verifier::when_used_as_spec(spec_code)]
    pub fn code(&self) -> (r: u8)
        ensures
            r == self.spec_code(),
    {
        match self {
            Precision::Basic => 0,
            Precision::High => 1,
        }
    }
}

/// Pulse shape filter.
#[derive(Debug, Clone, Copy, PartialEq, Eq, Structural)]
pub enum PulseShape {
    Off,
    Bt0p3,
    Bt0p5,
    Bt0p7,
    Bt1p0,
    Rc0p7,
}

impl PulseShape {
    /// Numeric code of this value on the wire.
    pub open spec fn spec_code(&self) -> u8 {
        match self {
            PulseShape::Off => 0,
            PulseShape::Bt0p3 => 8,
            PulseShape::Bt0p5 => 9,
            PulseShape::Bt0p7 => 10,
            PulseShape::Bt1p0 => 11,
            PulseShape::Rc0p7 => 22,
        }
    }

    /// Encode this value for a request byte.
    #[verifier::when_used_as_spec(spec_code)]
    pub fn code(&self) -> (r: u8)
        ensures
            r == self.spec_code(),
    {
        match self {
            PulseShape::Off => 0,
            PulseShape::Bt0p3 => 8,
            PulseShape::Bt0p5 => 9,
            PulseShape::Bt0p7 => 10,
            PulseShape::Bt1p0 => 11,
            PulseShape::Rc0p7 => 22,
        }
    }
}

/// RX bandwidth (double side-band).
#[derive(Debug, Clone, Copy, PartialEq, Eq, Structural)]
pub enum RxBw {
    Bw4800,
    Bw5800,
    Bw7300,
    Bw9700,
    Bw11700,
    Bw14600,
    Bw19500,
    Bw23400,
    Bw29300,
    Bw39000,
    Bw46900,
    Bw58600,
    Bw78200,
    Bw93800,
    Bw117300,
    Bw156200,
    Bw187200,
    Bw234300,
    Bw312000,
    Bw373600,
    Bw467000,
}

impl RxBw {
    /// Numeric code of this value on the wire.
    pub open spec fn spec_code(&self) -> u8 {
        match self {
            RxBw::Bw4800 => 31,
            RxBw::Bw5800 => 23,
            RxBw::Bw7300 => 15,
            RxBw::Bw9700 => 30,
            RxBw::Bw11700 => 22,
            RxBw::Bw14600 => 14,
            RxBw::Bw19500 => 29,
            RxBw::Bw23400 => 21,
            RxBw::Bw29300 => 13,
            RxBw::Bw39000 => 28,
            RxBw::Bw46900 => 20,
            RxBw::Bw58600 => 12,
            RxBw::Bw78200 => 27,
            RxBw::Bw93800 => 19,
            RxBw::Bw117300 => 11,
            RxBw::Bw156200 => 26,
            RxBw::Bw187200 => 18,
            RxBw::Bw234300 => 10,
            RxBw::Bw312000 => 25,
            RxBw::Bw373600 => 17,
            RxBw::Bw467000 => 9,
        }
    }

    /// Encode this value for a request byte.
    #[verifier::when_used_as_spec(spec_code)]
    pub fn code(&self) -> (r: u8)
        ensures
            r == self.spec_code(),
    {
        match self {
            RxBw::Bw4800 => 31,
            RxBw::Bw5800 => 23,
            RxBw::Bw7300 => 15,
            RxBw::Bw9700 => 30,
            RxBw::Bw11700 => 22,
            RxBw::Bw14600 => 14,
            RxBw::Bw19500 => 29,
            RxBw::Bw23400 => 21,
            RxBw::Bw29300 => 13,
            RxBw::Bw39000 => 28,
            RxBw::Bw46900 => 20,
            RxBw::Bw58600 => 12,
            RxBw::Bw78200 => 27,
            RxBw::Bw93800 => 19,
            RxBw::Bw117300 => 11,
            RxBw::Bw156200 => 26,
            RxBw::Bw187200 => 18,
            RxBw::Bw234300 => 10,
            RxBw::Bw312000 => 25,
            RxBw::Bw373600 => 17,
            RxBw::Bw467000 => 9,
        }
    }
}

/// Preamble detector length: off (lock on the syncword directly) or 8,
/// 16 (recommended), 24 or 32 bits.  Must be shorter than the syncword.
#[derive(Debug, Clone, Copy, PartialEq, Eq, Structural)]
pub enum PblLenDetect {
    Off,
    Len8Bits,
    Len16Bits,
    Len24Bits,
    Len32Bits,
}

impl PblLenDetect {
    /// Numeric code of this value on the wire.
    pub open spec fn spec_code(&self) -> u8 {
        match self {
            PblLenDetect::Off => 0,
            PblLenDetect::Len8Bits => 4,
            PblLenDetect::Len16Bits => 5,
            PblLenDetect::Len24Bits => 6,
            PblLenDetect::Len32Bits => 7,
        }
    }

    /// Encode this value for a request byte.
    #[verifier::when_used_as_spec(spec_code)]
    pub fn code(&self) -> (r: u8)
        ensures
            r == self.spec_code(),
    {
        match self {
            PblLenDetect::Off => 0,
            PblLenDetect::Len8Bits => 4,
            PblLenDetect::Len16Bits => 5,
            PblLenDetect::Len24Bits => 6,
            PblLenDetect::Len32Bits => 7,
        }
    }
}

/// Address filtering: disabled, enabled on the node address, or enabled
/// on node and broadcast addresses.  Reception is aborted with an address
/// error if the comparison fails.
#[derive(Debug, Clone, Copy, PartialEq, Eq, Structural)]
pub enum AddrComp {
    Off,
    Node,
    NodeBcast,
}

impl AddrComp {
    /// Numeric code of this value on the wire.
    pub open spec fn spec_code(&self) -> u8 {
        match self {
            AddrComp::Off => 0,
            AddrComp::Node => 1,
            AddrComp::NodeBcast => 2,
        }
    }

    /// Encode this value for a request byte.
    #[verifier::when_used_as_spec(spec_code)]
    pub fn code(&self) -> (r: u8)
        ensures
            r == self.spec_code(),
    {
        match self {
            AddrComp::Off => 0,
            AddrComp::Node => 1,
            AddrComp::NodeBcast => 2,
        }
    }
}

/// Packet format: fixed length, or variable length with an 8-bit
/// (SX126x) or 9-bit (SX128x) header.
#[derive(Debug, Clone, Copy, PartialEq, Eq, Structural)]
pub enum FskPktFormat {
    FixedLength,
    Variable8bit,
    Variable9bit,
}

impl FskPktFormat {
    /// Numeric code of this value on the wire.
    pub open spec fn spec_code(&self) -> u8 {
        match self {
            FskPktFormat::FixedLength => 0,
            FskPktFormat::Variable8bit => 1,
            FskPktFormat::Variable9bit => 2,
        }
    }

    /// Encode this value for a request byte.
    #[verifier::when_used_as_spec(spec_code)]
    pub fn code(&self) -> (r: u8)
        ensures
            r == self.spec_code(),
    {
        match self {
            FskPktFormat::FixedLength => 0,
            FskPktFormat::Variable8bit => 1,
            FskPktFormat::Variable9bit => 2,
        }
    }
}

/// CRC configuration: off, one or two bytes, plain or inverted.  The
/// polynomial and initial value are set with the CRC parameter command.
#[derive(Debug, Clone, Copy, PartialEq, Eq, Structural)]
pub enum Crc {
    CrcOff,
    Crc1Byte,
    Crc2Byte,
    Crc1ByteInv,
    Crc2ByteInv,
}

impl Crc {
    /// Numeric code of this value on the wire.
    pub open spec fn spec_code(&self) -> u8 {
        match self {
            Crc::CrcOff => 1,
            Crc::Crc1Byte => 0,
            Crc::Crc2Byte => 2,
            Crc::Crc1ByteInv => 4,
            Crc::Crc2ByteInv => 6,
        }
    }

    /// Encode this value for a request byte.
    #[verifier::when_used_as_spec(spec_code)]
    pub fn code(&self) -> (r: u8)
        ensures
            r == self.spec_code(),
    {
        match self {
            Crc::CrcOff => 1,
            Crc::Crc1Byte => 0,
            Crc::Crc2Byte => 2,
            Crc::Crc1ByteInv => 4,
            Crc::Crc2ByteInv => 6,
        }
    }
}

/// Whitening: no encoding, SX127x/SX126x/LR11xx compatible, or SX128x
/// compatible.  The seed is set with the whitening parameter command.
#[derive(Debug, Clone, Copy, PartialEq, Eq, Structural)]
pub enum DcFree {
    DcFreeOff,
    DcFreeWhitening,
    DcFreeSx128x,
}

impl DcFree {
    /// Numeric code of this value on the wire.
    pub open spec fn spec_code(&self) -> u8 {
        match self {
            DcFree::DcFreeOff => 0,
            DcFree::DcFreeWhitening => 1,
            DcFree::DcFreeSx128x => 3,
        }
    }

    /// Encode this value for a request byte.
    #[verifier::when_used_as_spec(spec_code)]
    pub fn code(&self) -> (r: u8)
        ensures
            r == self.spec_code(),
    {
        match self {
            DcFree::DcFreeOff => 0,
            DcFree::DcFreeWhitening => 1,
            DcFree::DcFreeSx128x => 3,
        }
    }
}

/// Bytes of the SetFskModulationParams request.
pub open spec fn spec_set_fsk_modulation_params_cmd(precision: Precision, bitrate: u32, pulse_shape: PulseShape, rx_bw: RxBw, fdev: u32) -> Seq<u8> {
    seq![
        0x02u8,
        0x0Fu8,
        ((precision.spec_code() & 0x1) | spec_u32_b3(bitrate)),
        spec_u32_b2(bitrate),
        spec_u32_b1(bitrate),
        spec_u32_b0(bitrate),
        pulse_shape.spec_code(),
        rx_bw.spec_code(),
        spec_u32_b3(fdev),
        spec_u32_b2(fdev),
        spec_u32_b1(fdev),
        spec_u32_b0(fdev),
    ]
}

/// Configures the (G)FSK modulation parameters.  Fails if the packet type
/// is not (G)FSK.  The bandwidth must satisfy (2*Fdev + BR) < bandwidth.
/// Byte 2 carries the precision bit OR'ed with the high bit-rate byte, as
/// the hardware table lays it out.
pub fn set_fsk_modulation_params_cmd(precision: Precision, bitrate: u32, pulse_shape: PulseShape, rx_bw: RxBw, fdev: u32) -> (r: [u8; 12])
    ensures
        r@ == spec_set_fsk_modulation_params_cmd(precision, bitrate, pulse_shape, rx_bw, fdev),
{
    [
        0x02,
        0x0F,
        (precision.code() & 0x1) | u32_b3(bitrate),
        u32_b2(bitrate),
        u32_b1(bitrate),
        u32_b0(bitrate),
        pulse_shape.code(),
        rx_bw.code(),
        u32_b3(fdev),
        u32_b2(fdev),
        u32_b1(fdev),
        u32_b0(fdev),
    ]
}

/// Bytes of the SetFskPacketParams request.
pub open spec fn spec_set_fsk_packet_params_cmd(pbl_len_tx: u16, pbl_len_detect: PblLenDetect, sync_word_len: u8, addr_comp: AddrComp, fsk_pkt_format: FskPktFormat, pld_len: u8, crc: Crc, dc_free: DcFree) -> Seq<u8> {
    seq![
        0x02u8,
        0x10u8,
        spec_u16_hi(pbl_len_tx),
        spec_u16_lo(pbl_len_tx),
        pbl_len_detect.spec_code(),
        sync_word_len,
        (addr_comp.spec_code() & 0x3),
        (fsk_pkt_format.spec_code() & 0x3),
        pld_len,
        crc.spec_code(),
        dc_free.spec_code(),
    ]
}

/// Configures the (G)FSK RF packet parameters.  A preamble of at least 16
/// bits is recommended, and the preamble detector length must be shorter
/// than the syncword length.
pub fn set_fsk_packet_params_cmd(pbl_len_tx: u16, pbl_len_detect: PblLenDetect, sync_word_len: u8, addr_comp: AddrComp, fsk_pkt_format: FskPktFormat, pld_len: u8, crc: Crc, dc_free: DcFree) -> (r: [u8; 11])
    ensures
        r@ == spec_set_fsk_packet_params_cmd(pbl_len_tx, pbl_len_detect, sync_word_len, addr_comp, fsk_pkt_format, pld_len, crc, dc_free),
{
    [
        0x02,
        0x10,
        u16_hi(pbl_len_tx),
        u16_lo(pbl_len_tx),
        pbl_len_detect.code(),
        sync_word_len,
        addr_comp.code() & 0x3,
        fsk_pkt_format.code() & 0x3,
        pld_len,
        crc.code(),
        dc_free.code(),
    ]
}

/// Bytes of the SetFskSyncWord request.
pub open spec fn spec_set_fsk_sync_word_cmd(syncword: u64) -> Seq<u8> {
    seq![
        0x02u8,
        0x06u8,
        spec_u64_b7(syncword),
        spec_u64_b6(syncword),
        spec_u64_b5(syncword),
        spec_u64_b4(syncword),
        spec_u64_b3(syncword),
        spec_u64_b2(syncword),
        spec_u64_b1(syncword),
        spec_u64_b0(syncword),
    ]
}

/// Configures the (G)FSK syncword.  For RX the syncword must be a multiple
/// of 8 bits; if not, configure the next multiple of 8 and add filler bits
/// at the beginning.
pub fn set_fsk_sync_word_cmd(syncword: u64) -> (r: [u8; 10])
    ensures
        r@ == spec_set_fsk_sync_word_cmd(syncword),
{
    [
        0x02,
        0x06,
        u64_b7(syncword),
        u64_b6(syncword),
        u64_b5(syncword),
        u64_b4(syncword),
        u64_b3(syncword),
        u64_b2(syncword),
        u64_b1(syncword),
        u64_b0(syncword),
    ]
}

/// Bytes of the SetFskAddress request.
pub open spec fn spec_set_fsk_address_cmd(addr_node: u8, addr_bcast: u8) -> Seq<u8> {
    seq![
        0x02u8,
        0x12u8,
        addr_node,
        addr_bcast,
    ]
}

/// Sets the node and broadcast addresses for (G)FSK packet filtering when
/// address comparison is enabled.  Reception is aborted with an address
/// error if the comparison fails.
pub fn set_fsk_address_cmd(addr_node: u8, addr_bcast: u8) -> (r: [u8; 4])
    ensures
        r@ == spec_set_fsk_address_cmd(addr_node, addr_bcast),
{
    [
        0x02,
        0x12,
        addr_node,
        addr_bcast,
    ]
}

/// Bytes of the SetFskCrcParams request.
pub open spec fn spec_set_fsk_crc_params_cmd(init: u32, polynom: u32) -> Seq<u8> {
    seq![
        0x02u8,
        0x24u8,
        spec_u32_b3(init),
        spec_u32_b2(init),
        spec_u32_b1(init),
        spec_u32_b0(init),
        spec_u32_b3(polynom),
        spec_u32_b2(polynom),
        spec_u32_b1(polynom),
        spec_u32_b0(polynom),
    ]
}

/// Configures the CRC polynomial and initial value.  Examples: IBM CRC
/// (init 0xFFFF, polynomial 0x8005, two bytes), CCITT CRC (init 0x1D0F,
/// polynomial 0x1021, two bytes inverted).
pub fn set_fsk_crc_params_cmd(init: u32, polynom: u32) -> (r: [u8; 10])
    ensures
        r@ == spec_set_fsk_crc_params_cmd(init, polynom),
{
    [
        0x02,
        0x24,
        u32_b3(init),
        u32_b2(init),
        u32_b1(init),
        u32_b0(init),
        u32_b3(polynom),
        u32_b2(polynom),
        u32_b1(polynom),
        u32_b0(polynom),
    ]
}

/// Bytes of the SetFskWhitParams request.
pub open spec fn spec_set_fsk_whit_params_cmd(seed: u16) -> Seq<u8> {
    seq![
        0x02u8,
        0x25u8,
        spec_u16_hi(seed),
        spec_u16_lo(seed),
    ]
}

/// Sets the whitening seed.  The polynomial is x^9+x^5+1 on the sub-GHz
/// path and x^7+x^4+1 on the HF path.  The seed must match on all peer
/// devices.
pub fn set_fsk_whit_params_cmd(seed: u16) -> (r: [u8; 4])
    ensures
        r@ == spec_set_fsk_whit_params_cmd(seed),
{
    [
        0x02,
        0x25,
        u16_hi(seed),
        u16_lo(seed),
    ]
}

// Response structs

/// Bytes of the GetPacketStatus request, read with the (G)FSK packet type
/// configured.
pub open spec fn spec_get_fsk_packet_status_req() -> Seq<u8> {
    seq![0x02u8, 0x04u8]
}

/// Returns the status of the last received (G)FSK packet: RX status flags
/// and RSSI.
pub fn get_fsk_packet_status_req() -> (r: [u8; 2])
    ensures
        r@ == spec_get_fsk_packet_status_req(),
{
    [0x02, 0x04]
}

/// Response for the GetPacketStatus command with the (G)FSK packet type.
pub struct FskPacketStatusRsp([u8; 4]);

impl FskPacketStatusRsp {
    /// The raw response bytes.
    pub closed spec fn bytes(&self) -> Seq<u8> {
        self.0@
    }

    /// Create a zero-filled response buffer.
    pub fn new() -> (r: Self)
        ensures
            r.bytes() == zero_bytes(4),
    {
        let r = FskPacketStatusRsp([0u8; 4]);
        proof {
            assert(r.bytes() =~= zero_bytes(4));
        }
        r
    }

    /// Wrap the raw bytes returned by a read transaction.
    pub fn from_bytes(bytes: &[u8]) -> (r: Self)
        requires
            bytes@.len() == 4,
        ensures
            r.bytes() == bytes@,
    {
        FskPacketStatusRsp(to_array(bytes))
    }

    /// Return the status header (short form, from byte 0).
    pub fn status(&self) -> (r: Status)
        ensures
            r@ == ((self.bytes()[0] as u16) << 8),
    {
        Status::from_byte(self.0[0])
    }

    /// RX status flags of the last packet (error source: address, CRC,
    /// length, abort, packet received/sent).
    pub fn rx_status(&self) -> (r: u8)
        ensures
            r == self.bytes()[1],
    {
        self.0[1]
    }

    /// RSSI sampled on the syncword.  Convert to dBm with
    /// RSSI(dBm) = -rssi/2.
    pub fn rssi_sync(&self) -> (r: u8)
        ensures
            r == self.bytes()[2],
    {
        self.0[2]
    }

    /// RSSI averaged over the payload.  Convert to dBm with
    /// RSSI(dBm) = -rssi/2.
    pub fn rssi_avg(&self) -> (r: u8)
        ensures
            r == self.bytes()[3],
    {
        self.0[3]
    }
}

} // verus!
