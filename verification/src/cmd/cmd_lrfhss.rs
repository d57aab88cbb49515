//! LR-FHSS commands: frame building and syncword.

use vstd::prelude::*;

#[allow(unused_imports)]
use crate::bytes::{be16, be32, be64, spec_be16, spec_be32, spec_be64, spec_u16_hi, spec_u16_lo,
    spec_u32_b0, spec_u32_b1, spec_u32_b2, spec_u32_b3, spec_u64_b0, spec_u64_b1, spec_u64_b2,
    spec_u64_b3, spec_u64_b4, spec_u64_b5, spec_u64_b6, spec_u64_b7, to_array, u16_hi, u16_lo,
    u32_b0, u32_b1, u32_b2, u32_b3, u64_b0, u64_b1, u64_b2, u64_b3, u64_b4, u64_b5, u64_b6,
    u64_b7};
#[allow(unused_imports)]
use crate::port::zero_bytes;
#[allow(unused_imports)]
use crate::status::Status;

verus! {

/// Coding rate.
#[derive(Debug, Clone, Copy, PartialEq, Eq, Structural)]
pub enum LrfhssCr {
    Cr5p6,
    Cr2p3,
    Cr1p2,
    Cr1p3,
}

impl LrfhssCr {
    /// Numeric code of this value on the wire.
    pub open spec fn spec_code(&self) -> u8 {
        match self {
            LrfhssCr::Cr5p6 => 0,
            LrfhssCr::Cr2p3 => 1,
            LrfhssCr::Cr1p2 => 2,
            LrfhssCr::Cr1p3 => 3,
        }
    }

    /// Encode this value for a request byte.
    #[verifier::when_used_as_spec(spec_code)]
    pub fn code(&self) -> (r: u8)
        ensures
            r == self.spec_code(),
    {
        match self {
            LrfhssCr::Cr5p6 => 0,
            LrfhssCr::Cr2p3 => 1,
            LrfhssCr::Cr1p2 => 2,
            LrfhssCr::Cr1p3 => 3,
        }
    }
}

/// Frequency grid selection: 25.39kHz or 3.91kHz.
#[derive(Debug, Clone, Copy, PartialEq, Eq, Structural)]
pub enum Grid {
    Grid25,
    Grid4,
}

impl Grid {
    /// Numeric code of this value on the wire.
    pub open spec fn spec_code(&self) -> u8 {
        match self {
            Grid::Grid25 => 0,
            Grid::Grid4 => 1,
        }
    }

    /// Encode this value for a request byte.
    #[verifier::when_used_as_spec(spec_code)]
    pub fn code(&self) -> (r: u8)
        ensures
            r == self.spec_code(),
    {
        match self {
            Grid::Grid25 => 0,
            Grid::Grid4 => 1,
        }
    }
}

/// Intra-packet hopping.
#[derive(Debug, Clone, Copy, PartialEq, Eq, Structural)]
pub enum Hopping {
    NoHopping,
    HoppingEnabled,
}

impl Hopping {
    /// Numeric code of this value on the wire.
    pub open spec fn spec_code(&self) -> u8 {
        match self {
            Hopping::NoHopping => 0,
            Hopping::HoppingEnabled => 1,
        }
    }

    /// Encode this value for a request byte.
    #[verifier::when_used_as_spec(spec_code)]
    pub fn code(&self) -> (r: u8)
        ensures
            r == self.spec_code(),
    {
        match self {
            Hopping::NoHopping => 0,
            Hopping::HoppingEnabled => 1,
        }
    }
}

/// Bandwidth occupied by the hopping pattern.
#[derive(Debug, Clone, Copy, PartialEq, Eq, Structural)]
pub enum LrfhssBw {
    Bw39p06,
    Bw85p94,
    Bw136p72,
    Bw183p59,
    Bw335p94,
    Bw386p72,
    Bw722p66,
    Bw773p44,
    Bw1523p4,
    Bw1574p2,
}

impl LrfhssBw {
    /// Numeric code of this value on the wire.
    pub open spec fn spec_code(&self) -> u8 {
        match self {
            LrfhssBw::Bw39p06 => 0,
            LrfhssBw::Bw85p94 => 1,
            LrfhssBw::Bw136p72 => 2,
            LrfhssBw::Bw183p59 => 3,
            LrfhssBw::Bw335p94 => 4,
            LrfhssBw::Bw386p72 => 5,
            LrfhssBw::Bw722p66 => 6,
            LrfhssBw::Bw773p44 => 7,
            LrfhssBw::Bw1523p4 => 8,
            LrfhssBw::Bw1574p2 => 9,
        }
    }

    /// Encode this value for a request byte.
    #[verifier::when_used_as_spec(spec_code)]
    pub fn code(&self) -> (r: u8)
        ensures
            r == self.spec_code(),
    {
        match self {
            LrfhssBw::Bw39p06 => 0,
            LrfhssBw::Bw85p94 => 1,
            LrfhssBw::Bw136p72 => 2,
            LrfhssBw::Bw183p59 => 3,
            LrfhssBw::Bw335p94 => 4,
            LrfhssBw::Bw386p72 => 5,
            LrfhssBw::Bw722p66 => 6,
            LrfhssBw::Bw773p44 => 7,
            LrfhssBw::Bw1523p4 => 8,
            LrfhssBw::Bw1574p2 => 9,
        }
    }
}

/// Bytes of the LrFhssBuildFrame request.
pub open spec fn spec_lr_fhss_build_frame_cmd(sync_header_cnt: u8, lrfhss_cr: LrfhssCr, mod_type: u8, grid: Grid, hopping: Hopping, lrfhss_bw: LrfhssBw, hop_sequence: u16, device_offset: i8) -> Seq<u8> {
    seq![
        0x02u8,
        0x2Cu8,
        sync_header_cnt,
        lrfhss_cr.spec_code(),
        mod_type,
        grid.spec_code(),
        hopping.spec_code(),
        lrfhss_bw.spec_code(),
        spec_u16_hi(hop_sequence),
        spec_u16_lo(hop_sequence),
        device_offset as u8,
    ]
}

/// Encodes the payload and configures the internal hopping table; the
/// payload itself follows as a trailing payload.  Succeeds if valid,
/// reports a parameter error if not.  Does not send the packet: use SetTx
/// to transmit.  The maximum coded packet is 255 bytes.
pub fn lr_fhss_build_frame_cmd(sync_header_cnt: u8, lrfhss_cr: LrfhssCr, mod_type: u8, grid: Grid, hopping: Hopping, lrfhss_bw: LrfhssBw, hop_sequence: u16, device_offset: i8) -> (r: [u8; 11])
    ensures
        r@ == spec_lr_fhss_build_frame_cmd(sync_header_cnt, lrfhss_cr, mod_type, grid, hopping, lrfhss_bw, hop_sequence, device_offset),
{
    [
        0x02,
        0x2C,
        sync_header_cnt,
        lrfhss_cr.code(),
        mod_type,
        grid.code(),
        hopping.code(),
        lrfhss_bw.code(),
        u16_hi(hop_sequence),
        u16_lo(hop_sequence),
        device_offset as u8,
    ]
}

/// Bytes of the LrFhssSetSyncWord request.
pub open spec fn spec_lr_fhss_set_sync_word_cmd(syncword: u32) -> Seq<u8> {
    seq![
        0x02u8,
        0x2Du8,
        spec_u32_b3(syncword),
        spec_u32_b2(syncword),
        spec_u32_b1(syncword),
        spec_u32_b0(syncword),
    ]
}

/// Sets the LR-FHSS syncword (4 bytes).
pub fn lr_fhss_set_sync_word_cmd(syncword: u32) -> (r: [u8; 6])
    ensures
        r@ == spec_lr_fhss_set_sync_word_cmd(syncword),
{
    [
        0x02,
        0x2D,
        u32_b3(syncword),
        u32_b2(syncword),
        u32_b1(syncword),
        u32_b0(syncword),
    ]
}

} // verus!
