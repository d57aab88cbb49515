//! GNSS commands: constellation selection, scans, assistance data,
//! time handling and almanac management.

use vstd::prelude::*;

#[allow(unused_imports)]
use crate::bytes::{be16, be32, be48, be64, spec_be16, spec_be32, spec_be48, spec_be64, spec_u16_hi, spec_u16_lo,
    spec_u32_b0, spec_u32_b1, spec_u32_b2, spec_u32_b3, spec_u64_b0, spec_u64_b1, spec_u64_b2,
    spec_u64_b3, spec_u64_b4, spec_u64_b5, spec_u64_b6, spec_u64_b7, to_array, u16_hi, u16_lo,
    u32_b0, u32_b1, u32_b2, u32_b3, u64_b0, u64_b1, u64_b2, u64_b3, u64_b4, u64_b5, u64_b6,
    u64_b7};
#[allow(unused_imports)]
use crate::port::zero_bytes;
#[allow(unused_imports)]
use crate::status::Status;

verus! {

/// Legacy (single) scanning or advanced (multiple) scanning; other
/// values are reserved.
#[derive(Debug, Clone, Copy, PartialEq, Eq, Structural)]
pub enum GnssScanMode {
    Single,
    Multi,
}

impl GnssScanMode {
    /// Numeric code of this value on the wire.
    pub open spec fn spec_code(&self) -> u8 {
        match self {
            GnssScanMode::Single => 0,
            GnssScanMode::Multi => 3,
        }
    }

    /// Encode this value for a request byte.
    #[verifier::when_used_as_spec(spec_code)]
    pub fn code(&self) -> (r: u8)
        ensures
            r == self.spec_code(),
    {
        match self {
            GnssScanMode::Single => 0,
            GnssScanMode::Multi => 3,
        }
    }
}

/// Source of a context error, if any.
#[derive(Debug, Clone, Copy, PartialEq, Eq, Structural)]
pub enum ContextError {
    AlmanacOld,
    AlmanacCrc,
    FlashIntegrity,
    AlmanacLocked,
    NoError,
}

impl ContextError {
    /// Numeric code of this value on the wire.
    pub open spec fn spec_code(&self) -> u8 {
        match self {
            ContextError::AlmanacOld => 1,
            ContextError::AlmanacCrc => 2,
            ContextError::FlashIntegrity => 3,
            ContextError::AlmanacLocked => 4,
            ContextError::NoError => 0,
        }
    }

    /// Encode this value for a request byte.
    #[verifier::when_used_as_spec(spec_code)]
    pub fn code(&self) -> (r: u8)
        ensures
            r == self.spec_code(),
    {
        match self {
            ContextError::AlmanacOld => 1,
            ContextError::AlmanacCrc => 2,
            ContextError::FlashIntegrity => 3,
            ContextError::AlmanacLocked => 4,
            ContextError::NoError => 0,
        }
    }

    /// Decode a response byte; unknown codes map to the fallback value.
    pub open spec fn spec_from_code(v: u8) -> ContextError {
        if v == 1 {
            ContextError::AlmanacOld
        } else if v == 2 {
            ContextError::AlmanacCrc
        } else if v == 3 {
            ContextError::FlashIntegrity
        } else if v == 4 {
            ContextError::AlmanacLocked
        } else {
            ContextError::NoError
        }
    }

    /// Decode a response byte.
    pub fn from_code(v: u8) -> (r: ContextError)
        ensures
            r == ContextError::spec_from_code(v),
    {
        match v {
            1 => ContextError::AlmanacOld,
            2 => ContextError::AlmanacCrc,
            3 => ContextError::FlashIntegrity,
            4 => ContextError::AlmanacLocked,
            _ => ContextError::NoError,
        }
    }
}

/// Frequency search space in Hz.
#[derive(Debug, Clone, Copy, PartialEq, Eq, Structural)]
pub enum FreqSearchSpace {
    F500,
    F1000,
    F2000,
    F250,
}

impl FreqSearchSpace {
    /// Numeric code of this value on the wire.
    pub open spec fn spec_code(&self) -> u8 {
        match self {
            FreqSearchSpace::F500 => 1,
            FreqSearchSpace::F1000 => 2,
            FreqSearchSpace::F2000 => 3,
            FreqSearchSpace::F250 => 0,
        }
    }

    /// Encode this value for a request byte.
    #[verifier::when_used_as_spec(spec_code)]
    pub fn code(&self) -> (r: u8)
        ensures
            r == self.spec_code(),
    {
        match self {
            FreqSearchSpace::F500 => 1,
            FreqSearchSpace::F1000 => 2,
            FreqSearchSpace::F2000 => 3,
            FreqSearchSpace::F250 => 0,
        }
    }

    /// Decode a response byte; unknown codes map to the fallback value.
    pub open spec fn spec_from_code(v: u8) -> FreqSearchSpace {
        if v == 1 {
            FreqSearchSpace::F500
        } else if v == 2 {
            FreqSearchSpace::F1000
        } else if v == 3 {
            FreqSearchSpace::F2000
        } else {
            FreqSearchSpace::F250
        }
    }

    /// Decode a response byte.
    pub fn from_code(v: u8) -> (r: FreqSearchSpace)
        ensures
            r == FreqSearchSpace::spec_from_code(v),
    {
        match v {
            1 => FreqSearchSpace::F500,
            2 => FreqSearchSpace::F1000,
            3 => FreqSearchSpace::F2000,
            _ => FreqSearchSpace::F250,
        }
    }
}

/// The kind of scan launched: assisted (time and position known), cold
/// start, cold start with time known, fetch time / integrated 2D, almanac
/// update without flash, keep sync, or almanac update with one or two
/// constellations flashed.
#[derive(Debug, Clone, Copy, PartialEq, Eq, Structural)]
pub enum GnssScanType {
    ColdStart,
    TimeKnown,
    FetchTime,
    AlmanacUpdt0,
    KeepSync,
    AlmanacUpdt1,
    AlmanacUpdt2,
    Assisted,
}

impl GnssScanType {
    /// Numeric code of this value on the wire.
    pub open spec fn spec_code(&self) -> u8 {
        match self {
            GnssScanType::ColdStart => 4,
            GnssScanType::TimeKnown => 5,
            GnssScanType::FetchTime => 6,
            GnssScanType::AlmanacUpdt0 => 7,
            GnssScanType::KeepSync => 8,
            GnssScanType::AlmanacUpdt1 => 9,
            GnssScanType::AlmanacUpdt2 => 10,
            GnssScanType::Assisted => 3,
        }
    }

    /// Encode this value for a request byte.
    #[verifier::when_used_as_spec(spec_code)]
    pub fn code(&self) -> (r: u8)
        ensures
            r == self.spec_code(),
    {
        match self {
            GnssScanType::ColdStart => 4,
            GnssScanType::TimeKnown => 5,
            GnssScanType::FetchTime => 6,
            GnssScanType::AlmanacUpdt0 => 7,
            GnssScanType::KeepSync => 8,
            GnssScanType::AlmanacUpdt1 => 9,
            GnssScanType::AlmanacUpdt2 => 10,
            GnssScanType::Assisted => 3,
        }
    }

    /// Decode a response byte; unknown codes map to the fallback value.
    pub open spec fn spec_from_code(v: u8) -> GnssScanType {
        if v == 4 {
            GnssScanType::ColdStart
        } else if v == 5 {
            GnssScanType::TimeKnown
        } else if v == 6 {
            GnssScanType::FetchTime
        } else if v == 7 {
            GnssScanType::AlmanacUpdt0
        } else if v == 8 {
            GnssScanType::KeepSync
        } else if v == 9 {
            GnssScanType::AlmanacUpdt1
        } else if v == 10 {
            GnssScanType::AlmanacUpdt2
        } else {
            GnssScanType::Assisted
        }
    }

    /// Decode a response byte.
    pub fn from_code(v: u8) -> (r: GnssScanType)
        ensures
            r == GnssScanType::spec_from_code(v),
    {
        match v {
            4 => GnssScanType::ColdStart,
            5 => GnssScanType::TimeKnown,
            6 => GnssScanType::FetchTime,
            7 => GnssScanType::AlmanacUpdt0,
            8 => GnssScanType::KeepSync,
            9 => GnssScanType::AlmanacUpdt1,
            10 => GnssScanType::AlmanacUpdt2,
            _ => GnssScanType::Assisted,
        }
    }
}

/// Time-fetch mode.  Time-of-week only should only be used once the
/// week number is known; rollover is for the BeiDou constellation only.
#[derive(Debug, Clone, Copy, PartialEq, Eq, Structural)]
pub enum FetchTimeMode {
    TowOnly,
    TowWn,
    Rollover,
}

impl FetchTimeMode {
    /// Numeric code of this value on the wire.
    pub open spec fn spec_code(&self) -> u8 {
        match self {
            FetchTimeMode::TowOnly => 0,
            FetchTimeMode::TowWn => 1,
            FetchTimeMode::Rollover => 2,
        }
    }

    /// Encode this value for a request byte.
    #[verifier::when_used_as_spec(spec_code)]
    pub fn code(&self) -> (r: u8)
        ensures
            r == self.spec_code(),
    {
        match self {
            FetchTimeMode::TowOnly => 0,
            FetchTimeMode::TowWn => 1,
            FetchTimeMode::Rollover => 2,
        }
    }
}

/// Failure reason of the 2D solver.
#[derive(Debug, Clone, Copy, PartialEq, Eq, Structural)]
pub enum SolverError {
    ResidueHigh,
    NotConverged,
    NotEnoughSv,
    IllegalMatrix,
    TimeError,
    PartialAlamanacOld,
    Inconsistent,
    FullAlamanacOld,
    NoError,
}

impl SolverError {
    /// Numeric code of this value on the wire.
    pub open spec fn spec_code(&self) -> u8 {
        match self {
            SolverError::ResidueHigh => 1,
            SolverError::NotConverged => 2,
            SolverError::NotEnoughSv => 3,
            SolverError::IllegalMatrix => 4,
            SolverError::TimeError => 5,
            SolverError::PartialAlamanacOld => 6,
            SolverError::Inconsistent => 7,
            SolverError::FullAlamanacOld => 8,
            SolverError::NoError => 0,
        }
    }

    /// Encode this value for a request byte.
    #[verifier::when_used_as_spec(spec_code)]
    pub fn code(&self) -> (r: u8)
        ensures
            r == self.spec_code(),
    {
        match self {
            SolverError::ResidueHigh => 1,
            SolverError::NotConverged => 2,
            SolverError::NotEnoughSv => 3,
            SolverError::IllegalMatrix => 4,
            SolverError::TimeError => 5,
            SolverError::PartialAlamanacOld => 6,
            SolverError::Inconsistent => 7,
            SolverError::FullAlamanacOld => 8,
            SolverError::NoError => 0,
        }
    }

    /// Decode a response byte; unknown codes map to the fallback value.
    pub open spec fn spec_from_code(v: u8) -> SolverError {
        if v == 1 {
            SolverError::ResidueHigh
        } else if v == 2 {
            SolverError::NotConverged
        } else if v == 3 {
            SolverError::NotEnoughSv
        } else if v == 4 {
            SolverError::IllegalMatrix
        } else if v == 5 {
            SolverError::TimeError
        } else if v == 6 {
            SolverError::PartialAlamanacOld
        } else if v == 7 {
            SolverError::Inconsistent
        } else if v == 8 {
            SolverError::FullAlamanacOld
        } else {
            SolverError::NoError
        }
    }

    /// Decode a response byte.
    pub fn from_code(v: u8) -> (r: SolverError)
        ensures
            r == SolverError::spec_from_code(v),
    {
        match v {
            1 => SolverError::ResidueHigh,
            2 => SolverError::NotConverged,
            3 => SolverError::NotEnoughSv,
            4 => SolverError::IllegalMatrix,
            5 => SolverError::TimeError,
            6 => SolverError::PartialAlamanacOld,
            7 => SolverError::Inconsistent,
            8 => SolverError::FullAlamanacOld,
            _ => SolverError::NoError,
        }
    }
}

/// Source of the week number: not set, set by a scan, or set by the
/// time commands.
#[derive(Debug, Clone, Copy, PartialEq, Eq, Structural)]
pub enum WnSource {
    Scan,
    Time,
    NotSet,
}

impl WnSource {
    /// Numeric code of this value on the wire.
    pub open spec fn spec_code(&self) -> u8 {
        match self {
            WnSource::Scan => 1,
            WnSource::Time => 2,
            WnSource::NotSet => 0,
        }
    }

    /// Encode this value for a request byte.
    #[verifier::when_used_as_spec(spec_code)]
    pub fn code(&self) -> (r: u8)
        ensures
            r == self.spec_code(),
    {
        match self {
            WnSource::Scan => 1,
            WnSource::Time => 2,
            WnSource::NotSet => 0,
        }
    }

    /// Decode a response byte; unknown codes map to the fallback value.
    pub open spec fn spec_from_code(v: u8) -> WnSource {
        if v == 1 {
            WnSource::Scan
        } else if v == 2 {
            WnSource::Time
        } else {
            WnSource::NotSet
        }
    }

    /// Decode a response byte.
    pub fn from_code(v: u8) -> (r: WnSource)
        ensures
            r == WnSource::spec_from_code(v),
    {
        match v {
            1 => WnSource::Scan,
            2 => WnSource::Time,
            _ => WnSource::NotSet,
        }
    }
}

/// GPS almanac status.
#[derive(Debug, Clone, Copy, PartialEq, Eq, Structural)]
pub enum AlmanacStatus {
    Success,
    NothingTodo,
    PageIdUnknown,
    NextTimeUnknown,
    NoTimeSet,
    LowAccuracy,
}

impl AlmanacStatus {
    /// Numeric code of this value on the wire.
    pub open spec fn spec_code(&self) -> u8 {
        match self {
            AlmanacStatus::Success => 1,
            AlmanacStatus::NothingTodo => 0,
            AlmanacStatus::PageIdUnknown => 255,
            AlmanacStatus::NextTimeUnknown => 254,
            AlmanacStatus::NoTimeSet => 253,
            AlmanacStatus::LowAccuracy => 252,
        }
    }

    /// Encode this value for a request byte.
    #[verifier::when_used_as_spec(spec_code)]
    pub fn code(&self) -> (r: u8)
        ensures
            r == self.spec_code(),
    {
        match self {
            AlmanacStatus::Success => 1,
            AlmanacStatus::NothingTodo => 0,
            AlmanacStatus::PageIdUnknown => 255,
            AlmanacStatus::NextTimeUnknown => 254,
            AlmanacStatus::NoTimeSet => 253,
            AlmanacStatus::LowAccuracy => 252,
        }
    }

    /// Decode a response byte; unknown codes map to the fallback value.
    pub open spec fn spec_from_code(v: u8) -> AlmanacStatus {
        if v == 1 {
            AlmanacStatus::Success
        } else if v == 0 {
            AlmanacStatus::NothingTodo
        } else if v == 255 {
            AlmanacStatus::PageIdUnknown
        } else if v == 254 {
            AlmanacStatus::NextTimeUnknown
        } else if v == 253 {
            AlmanacStatus::NoTimeSet
        } else {
            AlmanacStatus::LowAccuracy
        }
    }

    /// Decode a response byte.
    pub fn from_code(v: u8) -> (r: AlmanacStatus)
        ensures
            r == AlmanacStatus::spec_from_code(v),
    {
        match v {
            1 => AlmanacStatus::Success,
            0 => AlmanacStatus::NothingTodo,
            255 => AlmanacStatus::PageIdUnknown,
            254 => AlmanacStatus::NextTimeUnknown,
            253 => AlmanacStatus::NoTimeSet,
            _ => AlmanacStatus::LowAccuracy,
        }
    }
}

/// MEO or IGSO satellite.  No impact on GPS.
#[derive(Debug, Clone, Copy, PartialEq, Eq, Structural)]
pub enum BeidouType {
    Meo,
    Igso,
}

impl BeidouType {
    /// Numeric code of this value on the wire.
    pub open spec fn spec_code(&self) -> u8 {
        match self {
            BeidouType::Meo => 0,
            BeidouType::Igso => 1,
        }
    }

    /// Encode this value for a request byte.
    #[verifier::when_used_as_spec(spec_code)]
    pub fn code(&self) -> (r: u8)
        ensures
            r == self.spec_code(),
    {
        match self {
            BeidouType::Meo => 0,
            BeidouType::Igso => 1,
        }
    }
}

/// Bytes of the GnssSetConstellationToUse request.
pub open spec fn spec_gnss_set_constellation_to_use_cmd(gps_en: bool, beidou_en: bool) -> Seq<u8> {
    seq![
        0x04u8,
        0x00u8,
        ((if gps_en { 1u8 } else { 0u8 }) | (if beidou_en { 2u8 } else { 0u8 })),
    ]
}

/// Configures GNSS scanning for the selected constellations (GPS/BeiDou).
/// If both are selected, GPS scans first and BeiDou after a delay.  Dual
/// constellation requires the 32.768kHz clock.  BUSY stays high until both
/// scans complete.
pub fn gnss_set_constellation_to_use_cmd(gps_en: bool, beidou_en: bool) -> (r: [u8; 3])
    ensures
        r@ == spec_gnss_set_constellation_to_use_cmd(gps_en, beidou_en),
{
    [
        0x04,
        0x00,
        (if gps_en { 1u8 } else { 0 }) | (if beidou_en { 2 } else { 0 }),
    ]
}

/// Bytes of the GnssReadConstellationToUse request.
pub open spec fn spec_gnss_read_constellation_to_use_req() -> Seq<u8> {
    seq![
        0x04u8,
        0x01u8,
    ]
}

/// Reads the selected constellations (GPS/BeiDou).
pub fn gnss_read_constellation_to_use_req() -> (r: [u8; 2])
    ensures
        r@ == spec_gnss_read_constellation_to_use_req(),
{
    [
        0x04,
        0x01,
    ]
}

/// Bytes of the GnssReadSupportedConstellations request.
pub open spec fn spec_gnss_read_supported_constellations_req() -> Seq<u8> {
    seq![
        0x04u8,
        0x07u8,
    ]
}

/// Reads the supported constellations.
pub fn gnss_read_supported_constellations_req() -> (r: [u8; 2])
    ensures
        r@ == spec_gnss_read_supported_constellations_req(),
{
    [
        0x04,
        0x07,
    ]
}

/// Bytes of the GnssSetMode request.
pub open spec fn spec_gnss_set_mode_cmd(gnss_scan_mode: GnssScanMode) -> Seq<u8> {
    seq![
        0x04u8,
        0x08u8,
        gnss_scan_mode.spec_code(),
    ]
}

/// Configures GNSS for legacy (single) or advanced (multiple) scanning.
/// Advanced scanning performs multiple captures and averages them for
/// increased precision, at the expense of longer duration and higher
/// energy.
pub fn gnss_set_mode_cmd(gnss_scan_mode: GnssScanMode) -> (r: [u8; 3])
    ensures
        r@ == spec_gnss_set_mode_cmd(gnss_scan_mode),
{
    [
        0x04,
        0x08,
        gnss_scan_mode.code(),
    ]
}

/// Bytes of the GnssAutonomous request.
pub open spec fn spec_gnss_autonomous_cmd(time: u32, best_effort: bool, pseudo_range_en: bool, doppler_info_en: bool, bit_changes_en: bool, nb_sv_max: u8) -> Seq<u8> {
    seq![
        0x04u8,
        0x09u8,
        spec_u32_b3(time),
        spec_u32_b2(time),
        spec_u32_b1(time),
        spec_u32_b0(time),
        (if best_effort { 1u8 } else { 0u8 }),
        ((if pseudo_range_en { 1u8 } else { 0u8 }) | (if doppler_info_en { 2u8 } else { 0u8 }) | (if bit_changes_en { 4u8 } else { 0u8 })),
        nb_sv_max,
    ]
}

/// Captures GNSS signals in autonomous mode, with no assistance
/// information available.  Resets the previous GNSS results.  BUSY is high
/// during the scan and the scan-done interrupt is raised when complete.
pub fn gnss_autonomous_cmd(time: u32, best_effort: bool, pseudo_range_en: bool, doppler_info_en: bool, bit_changes_en: bool, nb_sv_max: u8) -> (r: [u8; 9])
    ensures
        r@ == spec_gnss_autonomous_cmd(time, best_effort, pseudo_range_en, doppler_info_en, bit_changes_en, nb_sv_max),
{
    [
        0x04,
        0x09,
        u32_b3(time),
        u32_b2(time),
        u32_b1(time),
        u32_b0(time),
        if best_effort { 1 } else { 0 },
        (if pseudo_range_en { 1u8 } else { 0 }) | (if doppler_info_en { 2 } else { 0 }) | (if bit_changes_en { 4 } else { 0 }),
        nb_sv_max,
    ]
}

/// Bytes of the GnssAssisted request.
pub open spec fn spec_gnss_assisted_cmd(time: u32, best_effort: bool, pseudo_range_en: bool, doppler_info_en: bool, bit_changes_en: bool, nb_sv_max: u8) -> Seq<u8> {
    seq![
        0x04u8,
        0x0Au8,
        spec_u32_b3(time),
        spec_u32_b2(time),
        spec_u32_b1(time),
        spec_u32_b0(time),
        (if best_effort { 1u8 } else { 0u8 }),
        ((if pseudo_range_en { 1u8 } else { 0u8 }) | (if doppler_info_en { 2u8 } else { 0u8 }) | (if bit_changes_en { 4u8 } else { 0u8 })),
        nb_sv_max,
    ]
}

/// Captures GNSS signals using assistance data (time, position, almanac).
/// Resets the previous GNSS results.  BUSY is high during the scan and the
/// scan-done interrupt is raised when complete.
pub fn gnss_assisted_cmd(time: u32, best_effort: bool, pseudo_range_en: bool, doppler_info_en: bool, bit_changes_en: bool, nb_sv_max: u8) -> (r: [u8; 9])
    ensures
        r@ == spec_gnss_assisted_cmd(time, best_effort, pseudo_range_en, doppler_info_en, bit_changes_en, nb_sv_max),
{
    [
        0x04,
        0x0A,
        u32_b3(time),
        u32_b2(time),
        u32_b1(time),
        u32_b0(time),
        if best_effort { 1 } else { 0 },
        (if pseudo_range_en { 1u8 } else { 0 }) | (if doppler_info_en { 2 } else { 0 }) | (if bit_changes_en { 4 } else { 0 }),
        nb_sv_max,
    ]
}

/// Bytes of the GnssScan request.
pub open spec fn spec_gnss_scan_cmd(best_effort: bool, pseudo_range_en: bool, doppler_info_en: bool, bit_changes_en: bool, nb_sv_max: u8) -> Seq<u8> {
    seq![
        0x04u8,
        0x0Bu8,
        (if best_effort { 1u8 } else { 0u8 }),
        ((if pseudo_range_en { 1u8 } else { 0u8 }) | (if doppler_info_en { 2u8 } else { 0u8 }) | (if bit_changes_en { 4u8 } else { 0u8 })),
        nb_sv_max,
    ]
}

/// Captures GNSS signals independently of assistance data availability:
/// cold start when no time or position is known, assisted when both are.
/// Use sleep with retention to preserve the assistance data between scans.
pub fn gnss_scan_cmd(best_effort: bool, pseudo_range_en: bool, doppler_info_en: bool, bit_changes_en: bool, nb_sv_max: u8) -> (r: [u8; 5])
    ensures
        r@ == spec_gnss_scan_cmd(best_effort, pseudo_range_en, doppler_info_en, bit_changes_en, nb_sv_max),
{
    [
        0x04,
        0x0B,
        if best_effort { 1 } else { 0 },
        (if pseudo_range_en { 1u8 } else { 0 }) | (if doppler_info_en { 2 } else { 0 }) | (if bit_changes_en { 4 } else { 0 }),
        nb_sv_max,
    ]
}

/// Bytes of the GnssSetAssistancePosition request.
pub open spec fn spec_gnss_set_assistance_position_cmd(latitude: u16, longitude: u16) -> Seq<u8> {
    seq![
        0x04u8,
        0x10u8,
        spec_u16_hi(latitude),
        spec_u16_lo(latitude),
        spec_u16_hi(longitude),
        spec_u16_lo(longitude),
    ]
}

/// Configures the approximate position for GNSS assisted mode.
pub fn gnss_set_assistance_position_cmd(latitude: u16, longitude: u16) -> (r: [u8; 6])
    ensures
        r@ == spec_gnss_set_assistance_position_cmd(latitude, longitude),
{
    [
        0x04,
        0x10,
        u16_hi(latitude),
        u16_lo(latitude),
        u16_hi(longitude),
        u16_lo(longitude),
    ]
}

/// Bytes of the GnssReadAssistancePosition request.
pub open spec fn spec_gnss_read_assistance_position_req() -> Seq<u8> {
    seq![
        0x04u8,
        0x11u8,
    ]
}

/// Reads the assistance position.
pub fn gnss_read_assistance_position_req() -> (r: [u8; 2])
    ensures
        r@ == spec_gnss_read_assistance_position_req(),
{
    [
        0x04,
        0x11,
    ]
}

/// Bytes of the GnssGetContextStatus request.
pub open spec fn spec_gnss_get_context_status_req() -> Seq<u8> {
    seq![
        0x04u8,
        0x16u8,
    ]
}

/// Reads the GNSS context status, including the firmware version, almanac
/// CRC, error codes and frequency search space.
pub fn gnss_get_context_status_req() -> (r: [u8; 2])
    ensures
        r@ == spec_gnss_get_context_status_req(),
{
    [
        0x04,
        0x16,
    ]
}

/// Bytes of the GnssReadVersion request.
pub open spec fn spec_gnss_read_version_req() -> Seq<u8> {
    seq![
        0x04u8,
        0x06u8,
    ]
}

/// Returns the internal GNSS firmware version and almanac version.
pub fn gnss_read_version_req() -> (r: [u8; 2])
    ensures
        r@ == spec_gnss_read_version_req(),
{
    [
        0x04,
        0x06,
    ]
}

/// Bytes of the GnssSetAlmanacUpdate request.
pub open spec fn spec_gnss_set_almanac_update_cmd(gps_en: bool, beidou_en: bool) -> Seq<u8> {
    seq![
        0x04u8,
        0x02u8,
        0u8,
        0u8,
        0u8,
        0u8,
        0u8,
        0u8,
        ((if gps_en { 2u8 } else { 0u8 }) | (if beidou_en { 4u8 } else { 0u8 })),
    ]
}

/// Configures which constellations' almanac information is updated.  By
/// default both constellations are activated.
pub fn gnss_set_almanac_update_cmd(gps_en: bool, beidou_en: bool) -> (r: [u8; 9])
    ensures
        r@ == spec_gnss_set_almanac_update_cmd(gps_en, beidou_en),
{
    [
        0x04,
        0x02,
        0,
        0,
        0,
        0,
        0,
        0,
        (if gps_en { 2u8 } else { 0 }) | (if beidou_en { 4 } else { 0 }),
    ]
}

/// Bytes of the GnssReadAlmanacUpdate request.
pub open spec fn spec_gnss_read_almanac_update_req() -> Seq<u8> {
    seq![
        0x04u8,
        0x03u8,
    ]
}

/// Reads the almanac update configuration.
pub fn gnss_read_almanac_update_req() -> (r: [u8; 2])
    ensures
        r@ == spec_gnss_read_almanac_update_req(),
{
    [
        0x04,
        0x03,
    ]
}

/// Bytes of the GnssGetResultSize request.
pub open spec fn spec_gnss_get_result_size_req() -> Seq<u8> {
    seq![
        0x04u8,
        0x0Cu8,
    ]
}

/// Reads the size in bytes of the byte stream holding the available GNSS
/// results.  Must be called before reading the results.
pub fn gnss_get_result_size_req() -> (r: [u8; 2])
    ensures
        r@ == spec_gnss_get_result_size_req(),
{
    [
        0x04,
        0x0C,
    ]
}

/// Bytes of the GnssReadResults request.
pub open spec fn spec_gnss_read_results_cmd() -> Seq<u8> {
    seq![
        0x04u8,
        0x0Du8,
    ]
}

/// Retrieves the last GNSS results: a variable length message of one
/// destination byte followed by the payload.  The result size must be
/// learned first.
pub fn gnss_read_results_cmd() -> (r: [u8; 2])
    ensures
        r@ == spec_gnss_read_results_cmd(),
{
    [
        0x04,
        0x0D,
    ]
}

/// Bytes of the GnssPushSolverMsg request.
pub open spec fn spec_gnss_push_solver_msg_cmd() -> Seq<u8> {
    seq![
        0x04u8,
        0x14u8,
    ]
}

/// Pushes messages from the GNSS solver to the chip (for example an
/// assistance position update); the message bytes follow as a trailing
/// payload.
pub fn gnss_push_solver_msg_cmd() -> (r: [u8; 2])
    ensures
        r@ == spec_gnss_push_solver_msg_cmd(),
{
    [
        0x04,
        0x14,
    ]
}

/// Bytes of the GnssPushDmMsg request.
pub open spec fn spec_gnss_push_dm_msg_cmd() -> Seq<u8> {
    seq![
        0x04u8,
        0x15u8,
    ]
}

/// Pushes messages from the LoRaWAN network to the chip; the message bytes
/// follow as a trailing payload.
pub fn gnss_push_dm_msg_cmd() -> (r: [u8; 2])
    ensures
        r@ == spec_gnss_push_dm_msg_cmd(),
{
    [
        0x04,
        0x15,
    ]
}

/// Bytes of the GnssGetNbSvDetected request.
pub open spec fn spec_gnss_get_nb_sv_detected_req() -> Seq<u8> {
    seq![
        0x04u8,
        0x17u8,
    ]
}

/// Returns the number of satellite vehicles detected during the last GNSS
/// scan.
pub fn gnss_get_nb_sv_detected_req() -> (r: [u8; 2])
    ensures
        r@ == spec_gnss_get_nb_sv_detected_req(),
{
    [
        0x04,
        0x17,
    ]
}

/// Bytes of the GnssGetSvDetected request.
pub open spec fn spec_gnss_get_sv_detected_req() -> Seq<u8> {
    seq![
        0x04u8,
        0x18u8,
    ]
}

/// Returns the ID, SNR and Doppler of the satellite vehicles detected
/// during the last GNSS scan.  SNR is in dB; add 31dB to convert to C/N0.
pub fn gnss_get_sv_detected_req() -> (r: [u8; 2])
    ensures
        r@ == spec_gnss_get_sv_detected_req(),
{
    [
        0x04,
        0x18,
    ]
}

/// Bytes of the GnssGetConsumption request.
pub open spec fn spec_gnss_get_consumption_req() -> Seq<u8> {
    seq![
        0x04u8,
        0x19u8,
    ]
}

/// Reads the duration of the radio capture and CPU processing phases of a
/// GNSS scan in microseconds, to determine the GNSS power consumption.
pub fn gnss_get_consumption_req() -> (r: [u8; 2])
    ensures
        r@ == spec_gnss_get_consumption_req(),
{
    [
        0x04,
        0x19,
    ]
}

/// Bytes of the GnssGetSvVisible request.
pub open spec fn spec_gnss_get_sv_visible_req(time: u32, latitude: u16, longitude: u16, gps_en: bool, beidou_en: bool) -> Seq<u8> {
    seq![
        0x04u8,
        0x1Fu8,
        spec_u32_b3(time),
        spec_u32_b2(time),
        spec_u32_b1(time),
        spec_u32_b0(time),
        spec_u16_hi(latitude),
        spec_u16_lo(latitude),
        spec_u16_hi(longitude),
        spec_u16_lo(longitude),
        ((if gps_en { 1u8 } else { 0u8 }) | (if beidou_en { 2u8 } else { 0u8 })),
    ]
}

/// Returns the number of visible satellites for the given time, position
/// and constellations.
pub fn gnss_get_sv_visible_req(time: u32, latitude: u16, longitude: u16, gps_en: bool, beidou_en: bool) -> (r: [u8; 11])
    ensures
        r@ == spec_gnss_get_sv_visible_req(time, latitude, longitude, gps_en, beidou_en),
{
    [
        0x04,
        0x1F,
        u32_b3(time),
        u32_b2(time),
        u32_b1(time),
        u32_b0(time),
        u16_hi(latitude),
        u16_lo(latitude),
        u16_hi(longitude),
        u16_lo(longitude),
        (if gps_en { 1u8 } else { 0 }) | (if beidou_en { 2 } else { 0 }),
    ]
}

/// Bytes of the GnssConfigDelayResetAp request.
pub open spec fn spec_gnss_config_delay_reset_ap_cmd(delay: u32) -> Seq<u8> {
    seq![
        0x04u8,
        0x65u8,
        spec_u32_b2(delay),
        spec_u32_b1(delay),
        spec_u32_b0(delay),
    ]
}

/// Configures the delay after which the chip resets the assistance
/// position and switches from assisted to cold start scanning, when no
/// satellite was detected since the last update.
pub fn gnss_config_delay_reset_ap_cmd(delay: u32) -> (r: [u8; 5])
    ensures
        r@ == spec_gnss_config_delay_reset_ap_cmd(delay),
{
    [
        0x04,
        0x65,
        u32_b2(delay),
        u32_b1(delay),
        u32_b0(delay),
    ]
}

/// Bytes of the GnssReadLastScanModeLaunched request.
pub open spec fn spec_gnss_read_last_scan_mode_launched_req() -> Seq<u8> {
    seq![
        0x04u8,
        0x26u8,
    ]
}

/// Returns the type of scan launched during the last scan.
pub fn gnss_read_last_scan_mode_launched_req() -> (r: [u8; 2])
    ensures
        r@ == spec_gnss_read_last_scan_mode_launched_req(),
{
    [
        0x04,
        0x26,
    ]
}

/// Bytes of the GnssFetchTime request.
pub open spec fn spec_gnss_fetch_time_cmd(best_effort: bool, fetch_time_mode: FetchTimeMode) -> Seq<u8> {
    seq![
        0x04u8,
        0x32u8,
        (if best_effort { 1u8 } else { 0u8 }),
        fetch_time_mode.spec_code(),
    ]
}

/// Configures the chip to determine the time by demodulating satellite
/// signals.
pub fn gnss_fetch_time_cmd(best_effort: bool, fetch_time_mode: FetchTimeMode) -> (r: [u8; 4])
    ensures
        r@ == spec_gnss_fetch_time_cmd(best_effort, fetch_time_mode),
{
    [
        0x04,
        0x32,
        if best_effort { 1 } else { 0 },
        fetch_time_mode.code(),
    ]
}

/// Bytes of the GnssReadTime request.
pub open spec fn spec_gnss_read_time_req() -> Seq<u8> {
    seq![
        0x04u8,
        0x34u8,
    ]
}

/// Returns the GPS time.
pub fn gnss_read_time_req() -> (r: [u8; 2])
    ensures
        r@ == spec_gnss_read_time_req(),
{
    [
        0x04,
        0x34,
    ]
}

/// Bytes of the GnssResetTime request.
pub open spec fn spec_gnss_reset_time_cmd() -> Seq<u8> {
    seq![
        0x04u8,
        0x35u8,
    ]
}

/// Resets the GPS time.
pub fn gnss_reset_time_cmd() -> (r: [u8; 2])
    ensures
        r@ == spec_gnss_reset_time_cmd(),
{
    [
        0x04,
        0x35,
    ]
}

/// Bytes of the GnssResetPosition request.
pub open spec fn spec_gnss_reset_position_cmd() -> Seq<u8> {
    seq![
        0x04u8,
        0x37u8,
    ]
}

/// Resets the assistance position.
pub fn gnss_reset_position_cmd() -> (r: [u8; 2])
    ensures
        r@ == spec_gnss_reset_position_cmd(),
{
    [
        0x04,
        0x37,
    ]
}

/// Bytes of the GnssSetTime request.
pub open spec fn spec_gnss_set_time_cmd(gps_time: u32, time_accuracy: u16) -> Seq<u8> {
    seq![
        0x04u8,
        0x4Bu8,
        spec_u32_b3(gps_time),
        spec_u32_b2(gps_time),
        spec_u32_b1(gps_time),
        spec_u32_b0(gps_time),
        spec_u16_hi(time_accuracy),
        spec_u16_lo(time_accuracy),
    ]
}

/// Allows the host to set the chip's GPS time.
pub fn gnss_set_time_cmd(gps_time: u32, time_accuracy: u16) -> (r: [u8; 8])
    ensures
        r@ == spec_gnss_set_time_cmd(gps_time, time_accuracy),
{
    [
        0x04,
        0x4B,
        u32_b3(gps_time),
        u32_b2(gps_time),
        u32_b1(gps_time),
        u32_b0(gps_time),
        u16_hi(time_accuracy),
        u16_lo(time_accuracy),
    ]
}

/// Bytes of the GnssReadDopplerSolverRes request.
pub open spec fn spec_gnss_read_doppler_solver_res_req() -> Seq<u8> {
    seq![
        0x04u8,
        0x4Fu8,
    ]
}

/// Reads the assistance position calculated by the 2D solver during a scan
/// or almanac update.  All bytes of the response must be read.
pub fn gnss_read_doppler_solver_res_req() -> (r: [u8; 2])
    ensures
        r@ == spec_gnss_read_doppler_solver_res_req(),
{
    [
        0x04,
        0x4F,
    ]
}

/// Bytes of the GnssReadDelayResetAp request.
pub open spec fn spec_gnss_read_delay_reset_ap_req() -> Seq<u8> {
    seq![
        0x04u8,
        0x53u8,
    ]
}

/// Reads the delay before the assistance position reset.
pub fn gnss_read_delay_reset_ap_req() -> (r: [u8; 2])
    ensures
        r@ == spec_gnss_read_delay_reset_ap_req(),
{
    [
        0x04,
        0x53,
    ]
}

/// Bytes of the GnssReadWnRollover request.
pub open spec fn spec_gnss_read_wn_rollover_req() -> Seq<u8> {
    seq![
        0x04u8,
        0x67u8,
    ]
}

/// Reads the number of GPS week-number rollovers (one every 1024 weeks).
pub fn gnss_read_wn_rollover_req() -> (r: [u8; 2])
    ensures
        r@ == spec_gnss_read_wn_rollover_req(),
{
    [
        0x04,
        0x67,
    ]
}

/// Bytes of the GnssReadWarmStartStatus request.
pub open spec fn spec_gnss_read_warm_start_status_req(gps_en: bool, beidou_en: bool) -> Seq<u8> {
    seq![
        0x04u8,
        0x69u8,
        ((if gps_en { 1u8 } else { 0u8 }) | (if beidou_en { 2u8 } else { 0u8 })),
    ]
}

/// Reads the number of visible satellites and the time elapsed since the
/// last update of the detected satellite list for the constellation.
pub fn gnss_read_warm_start_status_req(gps_en: bool, beidou_en: bool) -> (r: [u8; 3])
    ensures
        r@ == spec_gnss_read_warm_start_status_req(gps_en, beidou_en),
{
    [
        0x04,
        0x69,
        (if gps_en { 1u8 } else { 0 }) | (if beidou_en { 2 } else { 0 }),
    ]
}

/// Bytes of the GnssGetSvWarmStart request.
pub open spec fn spec_gnss_get_sv_warm_start_req(gps_en: bool, beidou_en: bool) -> Seq<u8> {
    seq![
        0x04u8,
        0x66u8,
        ((if gps_en { 1u8 } else { 0u8 }) | (if beidou_en { 2u8 } else { 0u8 })),
    ]
}

/// Returns the list of satellites for the next keep-sync scan.  The warm
/// start status must be read first to know how many satellites the list
/// holds.
pub fn gnss_get_sv_warm_start_req(gps_en: bool, beidou_en: bool) -> (r: [u8; 3])
    ensures
        r@ == spec_gnss_get_sv_warm_start_req(gps_en, beidou_en),
{
    [
        0x04,
        0x66,
        (if gps_en { 1u8 } else { 0 }) | (if beidou_en { 2 } else { 0 }),
    ]
}

/// Bytes of the GnssWriteBitMaskSatActivated request.
pub open spec fn spec_gnss_write_bit_mask_sat_activated_cmd(gps_en: bool, beidou_en: bool, bit_mask_activated_0: u32) -> Seq<u8> {
    seq![
        0x04u8,
        0x72u8,
        ((if gps_en { 1u8 } else { 0u8 }) | (if beidou_en { 2u8 } else { 0u8 })),
        spec_u32_b3(bit_mask_activated_0),
        spec_u32_b2(bit_mask_activated_0),
        spec_u32_b1(bit_mask_activated_0),
        spec_u32_b0(bit_mask_activated_0),
    ]
}

/// Configures which satellites' almanacs are searched for, with one 32-bit
/// mask for satellites 1 to 32.
pub fn gnss_write_bit_mask_sat_activated_cmd(gps_en: bool, beidou_en: bool, bit_mask_activated_0: u32) -> (r: [u8; 7])
    ensures
        r@ == spec_gnss_write_bit_mask_sat_activated_cmd(gps_en, beidou_en, bit_mask_activated_0),
{
    [
        0x04,
        0x72,
        (if gps_en { 1u8 } else { 0 }) | (if beidou_en { 2 } else { 0 }),
        u32_b3(bit_mask_activated_0),
        u32_b2(bit_mask_activated_0),
        u32_b1(bit_mask_activated_0),
        u32_b0(bit_mask_activated_0),
    ]
}

/// Bytes of the GnssWriteBitMaskSatActivatedAdv request.
pub open spec fn spec_gnss_write_bit_mask_sat_activated_adv_cmd(gps_en: bool, beidou_en: bool, bit_mask_activated_0: u32, bit_mask_activated_1: u32) -> Seq<u8> {
    seq![
        0x04u8,
        0x72u8,
        ((if gps_en { 1u8 } else { 0u8 }) | (if beidou_en { 2u8 } else { 0u8 })),
        spec_u32_b3(bit_mask_activated_0),
        spec_u32_b2(bit_mask_activated_0),
        spec_u32_b1(bit_mask_activated_0),
        spec_u32_b0(bit_mask_activated_0),
        spec_u32_b3(bit_mask_activated_1),
        spec_u32_b2(bit_mask_activated_1),
        spec_u32_b1(bit_mask_activated_1),
        spec_u32_b0(bit_mask_activated_1),
    ]
}

/// Configures which satellites' almanacs are searched for, with two 32-bit
/// masks: satellites 1 to 32 and, for BeiDou, satellites 33 to 63.
pub fn gnss_write_bit_mask_sat_activated_adv_cmd(gps_en: bool, beidou_en: bool, bit_mask_activated_0: u32, bit_mask_activated_1: u32) -> (r: [u8; 11])
    ensures
        r@ == spec_gnss_write_bit_mask_sat_activated_adv_cmd(gps_en, beidou_en, bit_mask_activated_0, bit_mask_activated_1),
{
    [
        0x04,
        0x72,
        (if gps_en { 1u8 } else { 0 }) | (if beidou_en { 2 } else { 0 }),
        u32_b3(bit_mask_activated_0),
        u32_b2(bit_mask_activated_0),
        u32_b1(bit_mask_activated_0),
        u32_b0(bit_mask_activated_0),
        u32_b3(bit_mask_activated_1),
        u32_b2(bit_mask_activated_1),
        u32_b1(bit_mask_activated_1),
        u32_b0(bit_mask_activated_1),
    ]
}

/// Bytes of the GnssAlmanacUpdateFromSat request.
pub open spec fn spec_gnss_almanac_update_from_sat_cmd(best_effort: bool, gps_en: bool, beidou_en: bool) -> Seq<u8> {
    seq![
        0x04u8,
        0x55u8,
        (if best_effort { 1u8 } else { 0u8 }),
        ((if gps_en { 1u8 } else { 0u8 }) | (if beidou_en { 2u8 } else { 0u8 })),
    ]
}

/// Launches a GNSS scan that downloads almanac parameters from the
/// satellite signal for one constellation.  Must be sent at a precise time
/// matching almanac data availability; use the almanac status read to find
/// it.
pub fn gnss_almanac_update_from_sat_cmd(best_effort: bool, gps_en: bool, beidou_en: bool) -> (r: [u8; 4])
    ensures
        r@ == spec_gnss_almanac_update_from_sat_cmd(best_effort, gps_en, beidou_en),
{
    [
        0x04,
        0x55,
        if best_effort { 1 } else { 0 },
        (if gps_en { 1u8 } else { 0 }) | (if beidou_en { 2 } else { 0 }),
    ]
}

/// Bytes of the GnssReadAlmanacStatus request.
pub open spec fn spec_gnss_read_almanac_status_req() -> Seq<u8> {
    seq![
        0x04u8,
        0x57u8,
    ]
}

/// Returns the detailed almanac update status for both constellations,
/// including which satellites need an update, the next subframe timing and
/// the activation status.  All bytes of the response must be read.
pub fn gnss_read_almanac_status_req() -> (r: [u8; 2])
    ensures
        r@ == spec_gnss_read_almanac_status_req(),
{
    [
        0x04,
        0x57,
    ]
}

/// Bytes of the GnssConfigAlmanacUpdatePeriod request.
pub open spec fn spec_gnss_config_almanac_update_period_cmd(gps_en: bool, beidou_en: bool, beidou_type: BeidouType, period: u16) -> Seq<u8> {
    seq![
        0x04u8,
        0x63u8,
        ((if gps_en { 1u8 } else { 0u8 }) | (if beidou_en { 2u8 } else { 0u8 })),
        beidou_type.spec_code(),
        spec_u16_hi(period),
        spec_u16_lo(period),
    ]
}

/// Configures the almanac update period in days after which the
/// application is notified through the almanac status.
pub fn gnss_config_almanac_update_period_cmd(gps_en: bool, beidou_en: bool, beidou_type: BeidouType, period: u16) -> (r: [u8; 6])
    ensures
        r@ == spec_gnss_config_almanac_update_period_cmd(gps_en, beidou_en, beidou_type, period),
{
    [
        0x04,
        0x63,
        (if gps_en { 1u8 } else { 0 }) | (if beidou_en { 2 } else { 0 }),
        beidou_type.code(),
        u16_hi(period),
        u16_lo(period),
    ]
}

/// Bytes of the GnssReadAlmanacUpdatePeriod request.
pub open spec fn spec_gnss_read_almanac_update_period_req(gps_en: bool, beidou_en: bool, beidou_type: BeidouType) -> Seq<u8> {
    seq![
        0x04u8,
        0x64u8,
        ((if gps_en { 1u8 } else { 0u8 }) | (if beidou_en { 2u8 } else { 0u8 })),
        beidou_type.spec_code(),
    ]
}

/// Reads the almanac update period for a constellation and satellite
/// type.
pub fn gnss_read_almanac_update_period_req(gps_en: bool, beidou_en: bool, beidou_type: BeidouType) -> (r: [u8; 4])
    ensures
        r@ == spec_gnss_read_almanac_update_period_req(gps_en, beidou_en, beidou_type),
{
    [
        0x04,
        0x64,
        (if gps_en { 1u8 } else { 0 }) | (if beidou_en { 2 } else { 0 }),
        beidou_type.code(),
    ]
}

/// Bytes of the GnssAlmanacFullUpdate request.
pub open spec fn spec_gnss_almanac_full_update_cmd() -> Seq<u8> {
    seq![
        0x04u8,
        0x0Eu8,
    ]
}

/// Updates the almanac data for all satellites; the almanac bytes follow
/// as trailing payloads over several transactions.  The almanac is stored
/// in flash and kept after power-off or sleep without retention.
pub fn gnss_almanac_full_update_cmd() -> (r: [u8; 2])
    ensures
        r@ == spec_gnss_almanac_full_update_cmd(),
{
    [
        0x04,
        0x0E,
    ]
}

// Response structs

/// Response for the GnssReadConstellationToUse command.
pub struct GnssReadConstellationToUseRsp([u8; 2]);

impl GnssReadConstellationToUseRsp {
    /// The raw response bytes.
    pub closed spec fn bytes(&self) -> Seq<u8> {
        self.0@
    }

    /// Create a zero-filled response buffer.
    pub fn new() -> (r: Self)
        ensures
            r.bytes() == zero_bytes(2),
    {
        let r = GnssReadConstellationToUseRsp([0u8; 2]);
        proof {
            assert(r.bytes() =~= zero_bytes(2));
        }
        r
    }

    /// Wrap the raw bytes returned by a read transaction.
    pub fn from_bytes(bytes: &[u8]) -> (r: Self)
        requires
            bytes@.len() == 2,
        ensures
            r.bytes() == bytes@,
    {
        GnssReadConstellationToUseRsp(to_array(bytes))
    }

    /// Return the status header (short form, from byte 0).
    pub fn status(&self) -> (r: Status)
        ensures
            r@ == ((self.bytes()[0] as u16) << 8),
    {
        Status::from_byte(self.0[0])
    }

    /// GPS constellation enabled.
    pub fn gps_en(&self) -> (r: bool)
        ensures
            r == ((self.bytes()[1] & 0x1) != 0),
    {
        (self.0[1] & 0x1) != 0
    }

    /// BeiDou constellation enabled.
    pub fn beidou_en(&self) -> (r: bool)
        ensures
            r == ((self.bytes()[1] & 0x2) != 0),
    {
        (self.0[1] & 0x2) != 0
    }
}

/// Response for the GnssReadSupportedConstellations command.
pub struct GnssReadSupportedConstellationsRsp([u8; 2]);

impl GnssReadSupportedConstellationsRsp {
    /// The raw response bytes.
    pub closed spec fn bytes(&self) -> Seq<u8> {
        self.0@
    }

    /// Create a zero-filled response buffer.
    pub fn new() -> (r: Self)
        ensures
            r.bytes() == zero_bytes(2),
    {
        let r = GnssReadSupportedConstellationsRsp([0u8; 2]);
        proof {
            assert(r.bytes() =~= zero_bytes(2));
        }
        r
    }

    /// Wrap the raw bytes returned by a read transaction.
    pub fn from_bytes(bytes: &[u8]) -> (r: Self)
        requires
            bytes@.len() == 2,
        ensures
            r.bytes() == bytes@,
    {
        GnssReadSupportedConstellationsRsp(to_array(bytes))
    }

    /// Return the status header (short form, from byte 0).
    pub fn status(&self) -> (r: Status)
        ensures
            r@ == ((self.bytes()[0] as u16) << 8),
    {
        Status::from_byte(self.0[0])
    }

    /// GPS constellation supported.
    pub fn gps_en(&self) -> (r: bool)
        ensures
            r == ((self.bytes()[1] & 0x1) != 0),
    {
        (self.0[1] & 0x1) != 0
    }

    /// BeiDou constellation supported.
    pub fn beidou_en(&self) -> (r: bool)
        ensures
            r == ((self.bytes()[1] & 0x2) != 0),
    {
        (self.0[1] & 0x2) != 0
    }
}

/// Response for the GnssReadAssistancePosition command.
pub struct GnssReadAssistancePositionRsp([u8; 5]);

impl GnssReadAssistancePositionRsp {
    /// The raw response bytes.
    pub closed spec fn bytes(&self) -> Seq<u8> {
        self.0@
    }

    /// Create a zero-filled response buffer.
    pub fn new() -> (r: Self)
        ensures
            r.bytes() == zero_bytes(5),
    {
        let r = GnssReadAssistancePositionRsp([0u8; 5]);
        proof {
            assert(r.bytes() =~= zero_bytes(5));
        }
        r
    }

    /// Wrap the raw bytes returned by a read transaction.
    pub fn from_bytes(bytes: &[u8]) -> (r: Self)
        requires
            bytes@.len() == 5,
        ensures
            r.bytes() == bytes@,
    {
        GnssReadAssistancePositionRsp(to_array(bytes))
    }

    /// Return the status header (short form, from byte 0).
    pub fn status(&self) -> (r: Status)
        ensures
            r@ == ((self.bytes()[0] as u16) << 8),
    {
        Status::from_byte(self.0[0])
    }

    /// Latitude, 12 effective bits.  Degrees = latitude * 90 / 2048.
    pub fn latitude(&self) -> (r: u16)
        ensures
            r == spec_be16(self.bytes()[1], self.bytes()[2]),
    {
        be16(self.0[1], self.0[2])
    }

    /// Longitude, 12 effective bits.  Degrees = longitude * 180 / 2048.
    pub fn longitude(&self) -> (r: u16)
        ensures
            r == spec_be16(self.bytes()[3], self.bytes()[4]),
    {
        be16(self.0[3], self.0[4])
    }
}

/// Response for the GnssGetContextStatus command.
pub struct GnssGetContextStatusRsp([u8; 10]);

impl GnssGetContextStatusRsp {
    /// The raw response bytes.
    pub closed spec fn bytes(&self) -> Seq<u8> {
        self.0@
    }

    /// Create a zero-filled response buffer.
    pub fn new() -> (r: Self)
        ensures
            r.bytes() == zero_bytes(10),
    {
        let r = GnssGetContextStatusRsp([0u8; 10]);
        proof {
            assert(r.bytes() =~= zero_bytes(10));
        }
        r
    }

    /// Wrap the raw bytes returned by a read transaction.
    pub fn from_bytes(bytes: &[u8]) -> (r: Self)
        requires
            bytes@.len() == 10,
        ensures
            r.bytes() == bytes@,
    {
        GnssGetContextStatusRsp(to_array(bytes))
    }

    /// Return the status header (short form, from byte 0).
    pub fn status(&self) -> (r: Status)
        ensures
            r@ == ((self.bytes()[0] as u16) << 8),
    {
        Status::from_byte(self.0[0])
    }

    /// GNSS firmware version.
    pub fn gnss_fw_version(&self) -> (r: u8)
        ensures
            r == self.bytes()[3],
    {
        self.0[3]
    }

    /// 32-bit CRC over the whole almanac flash memory.
    pub fn global_almanac_crc(&self) -> (r: u32)
        ensures
            r == spec_be32(self.bytes()[4], self.bytes()[5], self.bytes()[6], self.bytes()[7]),
    {
        be32(self.0[4], self.0[5], self.0[6], self.0[7])
    }

    /// Source of error, if any.
    pub fn context_error(&self) -> (r: ContextError)
        ensures
            r == ContextError::spec_from_code(((self.bytes()[8] >> 4) & 0xF)),
    {
        ContextError::from_code((self.0[8] >> 4) & 0xF)
    }

    /// GPS almanac update enabled.
    pub fn gps_en(&self) -> (r: bool)
        ensures
            r == ((self.bytes()[8] & 0x2) != 0),
    {
        (self.0[8] & 0x2) != 0
    }

    /// BeiDou almanac update enabled.
    pub fn beidou_en(&self) -> (r: bool)
        ensures
            r == ((self.bytes()[8] & 0x4) != 0),
    {
        (self.0[8] & 0x4) != 0
    }

    /// Frequency search space in Hz.
    pub fn freq_search_space(&self) -> (r: FreqSearchSpace)
        ensures
            r == FreqSearchSpace::spec_from_code(((self.bytes()[9] >> 7) | ((self.bytes()[8] & 0x1) << 1))),
    {
        FreqSearchSpace::from_code((self.0[9] >> 7) | ((self.0[8] & 0x1) << 1))
    }
}

/// Response for the GnssReadVersion command.
pub struct GnssReadVersionRsp([u8; 3]);

impl GnssReadVersionRsp {
    /// The raw response bytes.
    pub closed spec fn bytes(&self) -> Seq<u8> {
        self.0@
    }

    /// Create a zero-filled response buffer.
    pub fn new() -> (r: Self)
        ensures
            r.bytes() == zero_bytes(3),
    {
        let r = GnssReadVersionRsp([0u8; 3]);
        proof {
            assert(r.bytes() =~= zero_bytes(3));
        }
        r
    }

    /// Wrap the raw bytes returned by a read transaction.
    pub fn from_bytes(bytes: &[u8]) -> (r: Self)
        requires
            bytes@.len() == 3,
        ensures
            r.bytes() == bytes@,
    {
        GnssReadVersionRsp(to_array(bytes))
    }

    /// Return the status header (short form, from byte 0).
    pub fn status(&self) -> (r: Status)
        ensures
            r@ == ((self.bytes()[0] as u16) << 8),
    {
        Status::from_byte(self.0[0])
    }

    /// GNSS firmware version.
    pub fn firmware_version(&self) -> (r: u8)
        ensures
            r == self.bytes()[1],
    {
        self.0[1]
    }

    /// Almanac version.
    pub fn almanac_version(&self) -> (r: u8)
        ensures
            r == self.bytes()[2],
    {
        self.0[2]
    }
}

/// Response for the GnssReadAlmanacUpdate command.
pub struct GnssReadAlmanacUpdateRsp([u8; 2]);

impl GnssReadAlmanacUpdateRsp {
    /// The raw response bytes.
    pub closed spec fn bytes(&self) -> Seq<u8> {
        self.0@
    }

    /// Create a zero-filled response buffer.
    pub fn new() -> (r: Self)
        ensures
            r.bytes() == zero_bytes(2),
    {
        let r = GnssReadAlmanacUpdateRsp([0u8; 2]);
        proof {
            assert(r.bytes() =~= zero_bytes(2));
        }
        r
    }

    /// Wrap the raw bytes returned by a read transaction.
    pub fn from_bytes(bytes: &[u8]) -> (r: Self)
        requires
            bytes@.len() == 2,
        ensures
            r.bytes() == bytes@,
    {
        GnssReadAlmanacUpdateRsp(to_array(bytes))
    }

    /// Return the status header (short form, from byte 0).
    pub fn status(&self) -> (r: Status)
        ensures
            r@ == ((self.bytes()[0] as u16) << 8),
    {
        Status::from_byte(self.0[0])
    }

    /// GPS almanac update enabled.
    pub fn gps_en(&self) -> (r: bool)
        ensures
            r == ((self.bytes()[1] & 0x2) != 0),
    {
        (self.0[1] & 0x2) != 0
    }

    /// BeiDou almanac update enabled.
    pub fn beidou_en(&self) -> (r: bool)
        ensures
            r == ((self.bytes()[1] & 0x4) != 0),
    {
        (self.0[1] & 0x4) != 0
    }
}

/// Response for the GnssGetResultSize command.
pub struct GnssGetResultSizeRsp([u8; 3]);

impl GnssGetResultSizeRsp {
    /// The raw response bytes.
    pub closed spec fn bytes(&self) -> Seq<u8> {
        self.0@
    }

    /// Create a zero-filled response buffer.
    pub fn new() -> (r: Self)
        ensures
            r.bytes() == zero_bytes(3),
    {
        let r = GnssGetResultSizeRsp([0u8; 3]);
        proof {
            assert(r.bytes() =~= zero_bytes(3));
        }
        r
    }

    /// Wrap the raw bytes returned by a read transaction.
    pub fn from_bytes(bytes: &[u8]) -> (r: Self)
        requires
            bytes@.len() == 3,
        ensures
            r.bytes() == bytes@,
    {
        GnssGetResultSizeRsp(to_array(bytes))
    }

    /// Return the status header (short form, from byte 0).
    pub fn status(&self) -> (r: Status)
        ensures
            r@ == ((self.bytes()[0] as u16) << 8),
    {
        Status::from_byte(self.0[0])
    }

    /// Size of the GNSS results in bytes.
    pub fn result_size(&self) -> (r: u16)
        ensures
            r == spec_be16(self.bytes()[1], self.bytes()[2]),
    {
        be16(self.0[1], self.0[2])
    }
}

/// Response for the GnssGetNbSvDetected command.
pub struct GnssGetNbSvDetectedRsp([u8; 2]);

impl GnssGetNbSvDetectedRsp {
    /// The raw response bytes.
    pub closed spec fn bytes(&self) -> Seq<u8> {
        self.0@
    }

    /// Create a zero-filled response buffer.
    pub fn new() -> (r: Self)
        ensures
            r.bytes() == zero_bytes(2),
    {
        let r = GnssGetNbSvDetectedRsp([0u8; 2]);
        proof {
            assert(r.bytes() =~= zero_bytes(2));
        }
        r
    }

    /// Wrap the raw bytes returned by a read transaction.
    pub fn from_bytes(bytes: &[u8]) -> (r: Self)
        requires
            bytes@.len() == 2,
        ensures
            r.bytes() == bytes@,
    {
        GnssGetNbSvDetectedRsp(to_array(bytes))
    }

    /// Return the status header (short form, from byte 0).
    pub fn status(&self) -> (r: Status)
        ensures
            r@ == ((self.bytes()[0] as u16) << 8),
    {
        Status::from_byte(self.0[0])
    }

    /// Number of detected satellites.
    pub fn nb_sv(&self) -> (r: u8)
        ensures
            r == self.bytes()[1],
    {
        self.0[1]
    }
}

/// One record of the GnssGetSvDetected response.
pub struct GnssGetSvDetectedRsp([u8; 4]);

impl GnssGetSvDetectedRsp {
    /// The raw response bytes.
    pub closed spec fn bytes(&self) -> Seq<u8> {
        self.0@
    }

    /// Create the record from its raw bytes.
    pub fn from_slice(buffer: &[u8]) -> (r: Self)
        requires
            buffer@.len() == 4,
        ensures
            r.bytes() == buffer@,
    {
        GnssGetSvDetectedRsp(to_array(buffer))
    }

    /// Satellite identifier.
    pub fn sv_id(&self) -> (r: u8)
        ensures
            r == self.bytes()[0],
    {
        self.0[0]
    }

    /// SNR in dB.
    pub fn snr(&self) -> (r: u8)
        ensures
            r == self.bytes()[1],
    {
        self.0[1]
    }

    /// Doppler estimation.
    pub fn doppler(&self) -> (r: i16)
        ensures
            r == (spec_be16(self.bytes()[2], self.bytes()[3]) as i16),
    {
        be16(self.0[2], self.0[3]) as i16
    }
}

/// Response for the GnssGetConsumption command.
pub struct GnssGetConsumptionRsp([u8; 9]);

impl GnssGetConsumptionRsp {
    /// The raw response bytes.
    pub closed spec fn bytes(&self) -> Seq<u8> {
        self.0@
    }

    /// Create a zero-filled response buffer.
    pub fn new() -> (r: Self)
        ensures
            r.bytes() == zero_bytes(9),
    {
        let r = GnssGetConsumptionRsp([0u8; 9]);
        proof {
            assert(r.bytes() =~= zero_bytes(9));
        }
        r
    }

    /// Wrap the raw bytes returned by a read transaction.
    pub fn from_bytes(bytes: &[u8]) -> (r: Self)
        requires
            bytes@.len() == 9,
        ensures
            r.bytes() == bytes@,
    {
        GnssGetConsumptionRsp(to_array(bytes))
    }

    /// Return the status header (short form, from byte 0).
    pub fn status(&self) -> (r: Status)
        ensures
            r@ == ((self.bytes()[0] as u16) << 8),
    {
        Status::from_byte(self.0[0])
    }

    /// Radio capture duration in microseconds.
    pub fn radio_ms(&self) -> (r: u32)
        ensures
            r == spec_be32(self.bytes()[1], self.bytes()[2], self.bytes()[3], self.bytes()[4]),
    {
        be32(self.0[1], self.0[2], self.0[3], self.0[4])
    }

    /// CPU processing duration in microseconds.
    pub fn computation_ms(&self) -> (r: u32)
        ensures
            r == spec_be32(self.bytes()[5], self.bytes()[6], self.bytes()[7], self.bytes()[8]),
    {
        be32(self.0[5], self.0[6], self.0[7], self.0[8])
    }
}

/// Response for the GnssGetSvVisible command.
pub struct GnssGetSvVisibleRsp([u8; 2]);

impl GnssGetSvVisibleRsp {
    /// The raw response bytes.
    pub closed spec fn bytes(&self) -> Seq<u8> {
        self.0@
    }

    /// Create a zero-filled response buffer.
    pub fn new() -> (r: Self)
        ensures
            r.bytes() == zero_bytes(2),
    {
        let r = GnssGetSvVisibleRsp([0u8; 2]);
        proof {
            assert(r.bytes() =~= zero_bytes(2));
        }
        r
    }

    /// Wrap the raw bytes returned by a read transaction.
    pub fn from_bytes(bytes: &[u8]) -> (r: Self)
        requires
            bytes@.len() == 2,
        ensures
            r.bytes() == bytes@,
    {
        GnssGetSvVisibleRsp(to_array(bytes))
    }

    /// Return the status header (short form, from byte 0).
    pub fn status(&self) -> (r: Status)
        ensures
            r@ == ((self.bytes()[0] as u16) << 8),
    {
        Status::from_byte(self.0[0])
    }

    /// Number of visible satellites.
    pub fn nb_sv_visible(&self) -> (r: u8)
        ensures
            r == self.bytes()[1],
    {
        self.0[1]
    }
}

/// Response for the GnssReadLastScanModeLaunched command.
pub struct GnssReadLastScanModeLaunchedRsp([u8; 2]);

impl GnssReadLastScanModeLaunchedRsp {
    /// The raw response bytes.
    pub closed spec fn bytes(&self) -> Seq<u8> {
        self.0@
    }

    /// Create a zero-filled response buffer.
    pub fn new() -> (r: Self)
        ensures
            r.bytes() == zero_bytes(2),
    {
        let r = GnssReadLastScanModeLaunchedRsp([0u8; 2]);
        proof {
            assert(r.bytes() =~= zero_bytes(2));
        }
        r
    }

    /// Wrap the raw bytes returned by a read transaction.
    pub fn from_bytes(bytes: &[u8]) -> (r: Self)
        requires
            bytes@.len() == 2,
        ensures
            r.bytes() == bytes@,
    {
        GnssReadLastScanModeLaunchedRsp(to_array(bytes))
    }

    /// Return the status header (short form, from byte 0).
    pub fn status(&self) -> (r: Status)
        ensures
            r@ == ((self.bytes()[0] as u16) << 8),
    {
        Status::from_byte(self.0[0])
    }

    /// The type of scan launched during the last scan.
    pub fn gnss_scan_type(&self) -> (r: GnssScanType)
        ensures
            r == GnssScanType::spec_from_code(self.bytes()[1]),
    {
        GnssScanType::from_code(self.0[1])
    }
}

/// Response for the GnssReadTime command.
pub struct GnssReadTimeRsp([u8; 9]);

impl GnssReadTimeRsp {
    /// The raw response bytes.
    pub closed spec fn bytes(&self) -> Seq<u8> {
        self.0@
    }

    /// Create a zero-filled response buffer.
    pub fn new() -> (r: Self)
        ensures
            r.bytes() == zero_bytes(9),
    {
        let r = GnssReadTimeRsp([0u8; 9]);
        proof {
            assert(r.bytes() =~= zero_bytes(9));
        }
        r
    }

    /// Wrap the raw bytes returned by a read transaction.
    pub fn from_bytes(bytes: &[u8]) -> (r: Self)
        requires
            bytes@.len() == 9,
        ensures
            r.bytes() == bytes@,
    {
        GnssReadTimeRsp(to_array(bytes))
    }

    /// Return the status header (short form, from byte 0).
    pub fn status(&self) -> (r: Status)
        ensures
            r@ == ((self.bytes()[0] as u16) << 8),
    {
        Status::from_byte(self.0[0])
    }

    /// GPS time in seconds since 6 Jan 1980 00:00:00.
    pub fn gps_time(&self) -> (r: u32)
        ensures
            r == spec_be32(self.bytes()[1], self.bytes()[2], self.bytes()[3], self.bytes()[4]),
    {
        be32(self.0[1], self.0[2], self.0[3], self.0[4])
    }

    /// Time accuracy in milliseconds.
    pub fn accuracy(&self) -> (r: u32)
        ensures
            r == spec_be32(self.bytes()[5], self.bytes()[6], self.bytes()[7], self.bytes()[8]),
    {
        be32(self.0[5], self.0[6], self.0[7], self.0[8])
    }
}

/// Response for the GnssReadDopplerSolverRes command.
pub struct GnssReadDopplerSolverResRsp([u8; 19]);

impl GnssReadDopplerSolverResRsp {
    /// The raw response bytes.
    pub closed spec fn bytes(&self) -> Seq<u8> {
        self.0@
    }

    /// Create a zero-filled response buffer.
    pub fn new() -> (r: Self)
        ensures
            r.bytes() == zero_bytes(19),
    {
        let r = GnssReadDopplerSolverResRsp([0u8; 19]);
        proof {
            assert(r.bytes() =~= zero_bytes(19));
        }
        r
    }

    /// Wrap the raw bytes returned by a read transaction.
    pub fn from_bytes(bytes: &[u8]) -> (r: Self)
        requires
            bytes@.len() == 19,
        ensures
            r.bytes() == bytes@,
    {
        GnssReadDopplerSolverResRsp(to_array(bytes))
    }

    /// Return the status header (short form, from byte 0).
    pub fn status(&self) -> (r: Status)
        ensures
            r@ == ((self.bytes()[0] as u16) << 8),
    {
        Status::from_byte(self.0[0])
    }

    /// Failure reason.
    pub fn solver_error(&self) -> (r: SolverError)
        ensures
            r == SolverError::spec_from_code(self.bytes()[1]),
    {
        SolverError::from_code(self.0[1])
    }

    /// Number of Dopplers used for one-shot solving.
    pub fn nb_sv_used(&self) -> (r: u8)
        ensures
            r == self.bytes()[2],
    {
        self.0[2]
    }

    /// Latitude from the 2D solver.
    pub fn latitude(&self) -> (r: u16)
        ensures
            r == spec_be16(self.bytes()[3], self.bytes()[4]),
    {
        be16(self.0[3], self.0[4])
    }

    /// Longitude from the 2D solver.
    pub fn longitude(&self) -> (r: u16)
        ensures
            r == spec_be16(self.bytes()[5], self.bytes()[6]),
    {
        be16(self.0[5], self.0[6])
    }

    /// Accuracy estimate.
    pub fn accuracy(&self) -> (r: u16)
        ensures
            r == spec_be16(self.bytes()[7], self.bytes()[8]),
    {
        be16(self.0[7], self.0[8])
    }

    /// Crystal frequency offset.
    pub fn xtal(&self) -> (r: u16)
        ensures
            r == spec_be16(self.bytes()[9], self.bytes()[10]),
    {
        be16(self.0[9], self.0[10])
    }

    /// Filtered latitude.
    pub fn filtered_latitude(&self) -> (r: u16)
        ensures
            r == spec_be16(self.bytes()[11], self.bytes()[12]),
    {
        be16(self.0[11], self.0[12])
    }

    /// Filtered longitude.
    pub fn filtered_longitude(&self) -> (r: u16)
        ensures
            r == spec_be16(self.bytes()[13], self.bytes()[14]),
    {
        be16(self.0[13], self.0[14])
    }

    /// Filtered accuracy.
    pub fn filtered_accuracy(&self) -> (r: u16)
        ensures
            r == spec_be16(self.bytes()[15], self.bytes()[16]),
    {
        be16(self.0[15], self.0[16])
    }

    /// Filtered crystal offset.
    pub fn filtered_xtal(&self) -> (r: u16)
        ensures
            r == spec_be16(self.bytes()[17], self.bytes()[18]),
    {
        be16(self.0[17], self.0[18])
    }
}

/// Response for the GnssReadDelayResetAP command.
pub struct GnssReadDelayResetAPRsp([u8; 4]);

impl GnssReadDelayResetAPRsp {
    /// The raw response bytes.
    pub closed spec fn bytes(&self) -> Seq<u8> {
        self.0@
    }

    /// Create a zero-filled response buffer.
    pub fn new() -> (r: Self)
        ensures
            r.bytes() == zero_bytes(4),
    {
        let r = GnssReadDelayResetAPRsp([0u8; 4]);
        proof {
            assert(r.bytes() =~= zero_bytes(4));
        }
        r
    }

    /// Wrap the raw bytes returned by a read transaction.
    pub fn from_bytes(bytes: &[u8]) -> (r: Self)
        requires
            bytes@.len() == 4,
        ensures
            r.bytes() == bytes@,
    {
        GnssReadDelayResetAPRsp(to_array(bytes))
    }

    /// Return the status header (short form, from byte 0).
    pub fn status(&self) -> (r: Status)
        ensures
            r@ == ((self.bytes()[0] as u16) << 8),
    {
        Status::from_byte(self.0[0])
    }

    /// Delay in seconds.
    pub fn delay(&self) -> (r: u32)
        ensures
            r == (((self.bytes()[1] as u32) << 16) | ((self.bytes()[2] as u32) << 8) | (self.bytes()[3] as u32)),
    {
        ((self.0[1] as u32) << 16) | ((self.0[2] as u32) << 8) | (self.0[3] as u32)
    }
}

/// Response for the GnssReadWNRollover command.
pub struct GnssReadWNRolloverRsp([u8; 3]);

impl GnssReadWNRolloverRsp {
    /// The raw response bytes.
    pub closed spec fn bytes(&self) -> Seq<u8> {
        self.0@
    }

    /// Create a zero-filled response buffer.
    pub fn new() -> (r: Self)
        ensures
            r.bytes() == zero_bytes(3),
    {
        let r = GnssReadWNRolloverRsp([0u8; 3]);
        proof {
            assert(r.bytes() =~= zero_bytes(3));
        }
        r
    }

    /// Wrap the raw bytes returned by a read transaction.
    pub fn from_bytes(bytes: &[u8]) -> (r: Self)
        requires
            bytes@.len() == 3,
        ensures
            r.bytes() == bytes@,
    {
        GnssReadWNRolloverRsp(to_array(bytes))
    }

    /// Return the status header (short form, from byte 0).
    pub fn status(&self) -> (r: Status)
        ensures
            r@ == ((self.bytes()[0] as u16) << 8),
    {
        Status::from_byte(self.0[0])
    }

    /// Source of the week number.
    pub fn wn_source(&self) -> (r: WnSource)
        ensures
            r == WnSource::spec_from_code(self.bytes()[1]),
    {
        WnSource::from_code(self.0[1])
    }

    /// Current GPS week-number rollover value.
    pub fn wn_rollover(&self) -> (r: u8)
        ensures
            r == self.bytes()[2],
    {
        self.0[2]
    }
}

/// Response for the GnssReadWarmStartStatus command.
pub struct GnssReadWarmStartStatusRsp([u8; 6]);

impl GnssReadWarmStartStatusRsp {
    /// The raw response bytes.
    pub closed spec fn bytes(&self) -> Seq<u8> {
        self.0@
    }

    /// Create a zero-filled response buffer.
    pub fn new() -> (r: Self)
        ensures
            r.bytes() == zero_bytes(6),
    {
        let r = GnssReadWarmStartStatusRsp([0u8; 6]);
        proof {
            assert(r.bytes() =~= zero_bytes(6));
        }
        r
    }

    /// Wrap the raw bytes returned by a read transaction.
    pub fn from_bytes(bytes: &[u8]) -> (r: Self)
        requires
            bytes@.len() == 6,
        ensures
            r.bytes() == bytes@,
    {
        GnssReadWarmStartStatusRsp(to_array(bytes))
    }

    /// Return the status header (short form, from byte 0).
    pub fn status(&self) -> (r: Status)
        ensures
            r@ == ((self.bytes()[0] as u16) << 8),
    {
        Status::from_byte(self.0[0])
    }

    /// Number of visible satellites in the selected constellation; zero
    /// when none were found or all are unhealthy or deactivated.
    pub fn nb_sv(&self) -> (r: u8)
        ensures
            r == self.bytes()[1],
    {
        self.0[1]
    }

    /// Seconds since the last update of the satellite list; all ones when
    /// the time was never set.
    pub fn time_elapsed(&self) -> (r: u32)
        ensures
            r == spec_be32(self.bytes()[2], self.bytes()[3], self.bytes()[4], self.bytes()[5]),
    {
        be32(self.0[2], self.0[3], self.0[4], self.0[5])
    }
}

/// Response header for the GnssGetSvWarmStart command; the satellite
/// list follows the status byte in the raw response.
pub struct GnssGetSvWarmStartRsp([u8; 2]);

impl GnssGetSvWarmStartRsp {
    /// The raw response bytes.
    pub closed spec fn bytes(&self) -> Seq<u8> {
        self.0@
    }

    /// Create a zero-filled response buffer.
    pub fn new() -> (r: Self)
        ensures
            r.bytes() == zero_bytes(2),
    {
        let r = GnssGetSvWarmStartRsp([0u8; 2]);
        proof {
            assert(r.bytes() =~= zero_bytes(2));
        }
        r
    }

    /// Wrap the raw bytes returned by a read transaction.
    pub fn from_bytes(bytes: &[u8]) -> (r: Self)
        requires
            bytes@.len() == 2,
        ensures
            r.bytes() == bytes@,
    {
        GnssGetSvWarmStartRsp(to_array(bytes))
    }

    /// Return the status header (short form, from byte 0).
    pub fn status(&self) -> (r: Status)
        ensures
            r@ == ((self.bytes()[0] as u16) << 8),
    {
        Status::from_byte(self.0[0])
    }
}

/// Response for the GnssReadAlmanacStatus command.
pub struct GnssReadAlmanacStatusRsp([u8; 54]);

impl GnssReadAlmanacStatusRsp {
    /// The raw response bytes.
    pub closed spec fn bytes(&self) -> Seq<u8> {
        self.0@
    }

    /// Create a zero-filled response buffer.
    pub fn new() -> (r: Self)
        ensures
            r.bytes() == zero_bytes(54),
    {
        let r = GnssReadAlmanacStatusRsp([0u8; 54]);
        proof {
            assert(r.bytes() =~= zero_bytes(54));
        }
        r
    }

    /// Wrap the raw bytes returned by a read transaction.
    pub fn from_bytes(bytes: &[u8]) -> (r: Self)
        requires
            bytes@.len() == 54,
        ensures
            r.bytes() == bytes@,
    {
        GnssReadAlmanacStatusRsp(to_array(bytes))
    }

    /// Return the status header (short form, from byte 0).
    pub fn status(&self) -> (r: Status)
        ensures
            r@ == ((self.bytes()[0] as u16) << 8),
    {
        Status::from_byte(self.0[0])
    }

    /// GPS almanac status.
    pub fn gps_status(&self) -> (r: AlmanacStatus)
        ensures
            r == AlmanacStatus::spec_from_code(self.bytes()[1]),
    {
        AlmanacStatus::from_code(self.0[1])
    }

    /// Milliseconds before the next GPS satellite data subframe holding a
    /// new GPS almanac.
    pub fn gps_time_to_next_subframe(&self) -> (r: u32)
        ensures
            r == spec_be32(self.bytes()[2], self.bytes()[3], self.bytes()[4], self.bytes()[5]),
    {
        be32(self.0[2], self.0[3], self.0[4], self.0[5])
    }

    /// Next number of GPS subframes to demodulate.
    pub fn gps_next_subframes_to_demod(&self) -> (r: u8)
        ensures
            r == self.bytes()[6],
    {
        self.0[6]
    }

    /// GPS satellite number demodulable in the next subframe 4.
    pub fn gps_sv_in_subframe_4(&self) -> (r: u8)
        ensures
            r == self.bytes()[7],
    {
        self.0[7]
    }

    /// GPS satellite number demodulable in the next subframe 5.
    pub fn gps_sv_in_subframe_5(&self) -> (r: u8)
        ensures
            r == self.bytes()[8],
    {
        self.0[8]
    }

    /// Next GPS subframe ID to start with: 4 or 5, or 0 when there is no
    /// next almanac to demodulate.
    pub fn gps_next_subframe_id(&self) -> (r: u8)
        ensures
            r == self.bytes()[9],
    {
        self.0[9]
    }

    /// Total number of GPS satellites requiring an almanac update.
    pub fn gps_total_sv_to_update(&self) -> (r: u8)
        ensures
            r == self.bytes()[10],
    {
        self.0[10]
    }

    /// Bit mask of GPS satellites 1 to 32 needing an almanac update.
    pub fn gps_sv_almanac_to_update_mask(&self) -> (r: u32)
        ensures
            r == spec_be32(self.bytes()[11], self.bytes()[12], self.bytes()[13], self.bytes()[14]),
    {
        be32(self.0[11], self.0[12], self.0[13], self.0[14])
    }

    /// Bit mask of GPS satellites 1 to 32 activation.
    pub fn gps_sv_activated_mask(&self) -> (r: u32)
        ensures
            r == spec_be32(self.bytes()[15], self.bytes()[16], self.bytes()[17], self.bytes()[18]),
    {
        be32(self.0[15], self.0[16], self.0[17], self.0[18])
    }

    /// BeiDou almanac status.
    pub fn beidou_status(&self) -> (r: AlmanacStatus)
        ensures
            r == AlmanacStatus::spec_from_code(self.bytes()[19]),
    {
        AlmanacStatus::from_code(self.0[19])
    }

    /// Milliseconds before the next BeiDou satellite data subframe holding
    /// a new BeiDou almanac.
    pub fn beidou_time_to_next_subframe(&self) -> (r: u32)
        ensures
            r == spec_be32(self.bytes()[20], self.bytes()[21], self.bytes()[22], self.bytes()[23]),
    {
        be32(self.0[20], self.0[21], self.0[22], self.0[23])
    }

    /// Next number of BeiDou subframes to demodulate.
    pub fn beidou_next_subframes_to_demod(&self) -> (r: u8)
        ensures
            r == self.bytes()[24],
    {
        self.0[24]
    }

    /// BeiDou satellite number demodulable in the next subframe 4.
    pub fn beidou_sv_in_subframe_4(&self) -> (r: u8)
        ensures
            r == self.bytes()[25],
    {
        self.0[25]
    }

    /// BeiDou satellite number demodulable in the next subframe 5.
    pub fn beidou_sv_in_subframe_5(&self) -> (r: u8)
        ensures
            r == self.bytes()[26],
    {
        self.0[26]
    }

    /// Next BeiDou subframe ID to start with: 4 or 5, or 0 when there is
    /// no next almanac to demodulate.
    pub fn beidou_next_subframe_id(&self) -> (r: u8)
        ensures
            r == self.bytes()[27],
    {
        self.0[27]
    }

    /// Total number of BeiDou satellites requiring an almanac update.
    pub fn beidou_total_sv_to_update(&self) -> (r: u8)
        ensures
            r == self.bytes()[28],
    {
        self.0[28]
    }

    /// Bit mask of BeiDou satellites needing an almanac update.
    pub fn beidou_sv_almanac_to_update_mask(&self) -> (r: u64)
        ensures
            r == spec_be64(self.bytes()[29], self.bytes()[30], self.bytes()[31], self.bytes()[32], self.bytes()[33], self.bytes()[34], self.bytes()[35], self.bytes()[36]),
    {
        be64(self.0[29], self.0[30], self.0[31], self.0[32], self.0[33], self.0[34], self.0[35], self.0[36])
    }

    /// Bit mask of BeiDou satellites activated.
    pub fn beidou_sv_activated_mask(&self) -> (r: u64)
        ensures
            r == spec_be64(self.bytes()[37], self.bytes()[38], self.bytes()[39], self.bytes()[40], self.bytes()[41], self.bytes()[42], self.bytes()[43], self.bytes()[44]),
    {
        be64(self.0[37], self.0[38], self.0[39], self.0[40], self.0[41], self.0[42], self.0[43], self.0[44])
    }

    /// Bit mask of BeiDou satellites blacklisted.
    pub fn beidou_sv_blacklist_mask(&self) -> (r: u64)
        ensures
            r == spec_be64(self.bytes()[45], self.bytes()[46], self.bytes()[47], self.bytes()[48], self.bytes()[49], self.bytes()[50], self.bytes()[51], self.bytes()[52]),
    {
        be64(self.0[45], self.0[46], self.0[47], self.0[48], self.0[49], self.0[50], self.0[51], self.0[52])
    }

    /// Which group of BeiDou satellites the pages of subframe 5 broadcast
    /// next: 0 for none, 1 for SVs 31 to 43, 2 for 44 to 56, 3 for 57 to 63.
    pub fn beidou_next_almanac_id(&self) -> (r: u8)
        ensures
            r == self.bytes()[53],
    {
        self.0[53]
    }
}

/// Response for the GnssReadAlmanacUpdatePeriod command.
pub struct GnssReadAlmanacUpdatePeriodRsp([u8; 3]);

impl GnssReadAlmanacUpdatePeriodRsp {
    /// The raw response bytes.
    pub closed spec fn bytes(&self) -> Seq<u8> {
        self.0@
    }

    /// Create a zero-filled response buffer.
    pub fn new() -> (r: Self)
        ensures
            r.bytes() == zero_bytes(3),
    {
        let r = GnssReadAlmanacUpdatePeriodRsp([0u8; 3]);
        proof {
            assert(r.bytes() =~= zero_bytes(3));
        }
        r
    }

    /// Wrap the raw bytes returned by a read transaction.
    pub fn from_bytes(bytes: &[u8]) -> (r: Self)
        requires
            bytes@.len() == 3,
        ensures
            r.bytes() == bytes@,
    {
        GnssReadAlmanacUpdatePeriodRsp(to_array(bytes))
    }

    /// Return the status header (short form, from byte 0).
    pub fn status(&self) -> (r: Status)
        ensures
            r@ == ((self.bytes()[0] as u16) << 8),
    {
        Status::from_byte(self.0[0])
    }

    /// Period in days before an almanac update is needed.
    pub fn period(&self) -> (r: u16)
        ensures
            r == spec_be16(self.bytes()[1], self.bytes()[2]),
    {
        be16(self.0[1], self.0[2])
    }
}

} // verus!
