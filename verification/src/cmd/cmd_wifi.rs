//! Wi-Fi passive scanning commands: scans, result reads, country code
//! extraction and cumulative timings.

use vstd::prelude::*;

#[allow(unused_imports)]
use crate::bytes::{be16, be32, be48, be64, spec_be16, spec_be32, spec_be48, spec_be64, spec_u16_hi, spec_u16_lo,
    spec_u32_b0, spec_u32_b1, spec_u32_b2, spec_u32_b3, spec_u64_b0, spec_u64_b1, spec_u64_b2,
    spec_u64_b3, spec_u64_b4, spec_u64_b5, spec_u64_b6, spec_u64_b7, to_array, u16_hi, u16_lo,
    u32_b0, u32_b1, u32_b2, u32_b3, u64_b0, u64_b1, u64_b2, u64_b3, u64_b4, u64_b5, u64_b6,
    u64_b7};
#[allow(unused_imports)]
use crate::port::zero_bytes;
#[allow(unused_imports)]
use crate::status::Status;

verus! {

/// 802.11 standard selection: B, G, N or all.
#[derive(Debug, Clone, Copy, PartialEq, Eq, Structural)]
pub enum WifiStandard {
    G,
    N,
    All,
    B,
}

impl WifiStandard {
    /// Numeric code of this value on the wire.
    pub open spec fn spec_code(&self) -> u8 {
        match self {
            WifiStandard::G => 2,
            WifiStandard::N => 3,
            WifiStandard::All => 4,
            WifiStandard::B => 1,
        }
    }

    /// Encode this value for a request byte.
    #[verifier::when_used_as_spec(spec_code)]
    pub fn code(&self) -> (r: u8)
        ensures
            r == self.spec_code(),
    {
        match self {
            WifiStandard::G => 2,
            WifiStandard::N => 3,
            WifiStandard::All => 4,
            WifiStandard::B => 1,
        }
    }

    /// Decode a response byte; unknown codes map to the fallback value.
    pub open spec fn spec_from_code(v: u8) -> WifiStandard {
        if v == 2 {
            WifiStandard::G
        } else if v == 3 {
            WifiStandard::N
        } else if v == 4 {
            WifiStandard::All
        } else {
            WifiStandard::B
        }
    }

    /// Decode a response byte.
    pub fn from_code(v: u8) -> (r: WifiStandard)
        ensures
            r == WifiStandard::spec_from_code(v),
    {
        match v {
            2 => WifiStandard::G,
            3 => WifiStandard::N,
            4 => WifiStandard::All,
            _ => WifiStandard::B,
        }
    }
}

/// Acquisition mode: beacon search, beacon and packet search, full
/// traffic, full beacon (until FCS), or SSID beacon search (b/g only).
#[derive(Debug, Clone, Copy, PartialEq, Eq, Structural)]
pub enum AcqMode {
    BeaconSearch,
    BeaconAndPacket,
    FullTraffic,
    FullBeacon,
    SsidBeacon,
}

impl AcqMode {
    /// Numeric code of this value on the wire.
    pub open spec fn spec_code(&self) -> u8 {
        match self {
            AcqMode::BeaconSearch => 1,
            AcqMode::BeaconAndPacket => 2,
            AcqMode::FullTraffic => 3,
            AcqMode::FullBeacon => 4,
            AcqMode::SsidBeacon => 5,
        }
    }

    /// Encode this value for a request byte.
    #[verifier::when_used_as_spec(spec_code)]
    pub fn code(&self) -> (r: u8)
        ensures
            r == self.spec_code(),
    {
        match self {
            AcqMode::BeaconSearch => 1,
            AcqMode::BeaconAndPacket => 2,
            AcqMode::FullTraffic => 3,
            AcqMode::FullBeacon => 4,
            AcqMode::SsidBeacon => 5,
        }
    }
}

/// Result format: basic complete (22 or 79 bytes) or basic
/// MAC/type/channel (9 bytes).
#[derive(Debug, Clone, Copy, PartialEq, Eq, Structural)]
pub enum WifiResultFormat {
    Long,
    Short,
}

impl WifiResultFormat {
    /// Numeric code of this value on the wire.
    pub open spec fn spec_code(&self) -> u8 {
        match self {
            WifiResultFormat::Long => 1,
            WifiResultFormat::Short => 4,
        }
    }

    /// Encode this value for a request byte.
    #[verifier::when_used_as_spec(spec_code)]
    pub fn code(&self) -> (r: u8)
        ensures
            r == self.spec_code(),
    {
        match self {
            WifiResultFormat::Long => 1,
            WifiResultFormat::Short => 4,
        }
    }
}

/// Origin of the captured MAC address.
#[derive(Debug, Clone, Copy, PartialEq, Eq, Structural)]
pub enum MacOrigin {
    Unknown,
    Phone,
    Gateway,
}

impl MacOrigin {
    /// Numeric code of this value on the wire.
    pub open spec fn spec_code(&self) -> u8 {
        match self {
            MacOrigin::Unknown => 3,
            MacOrigin::Phone => 2,
            MacOrigin::Gateway => 1,
        }
    }

    /// Encode this value for a request byte.
    #[verifier::when_used_as_spec(spec_code)]
    pub fn code(&self) -> (r: u8)
        ensures
            r == self.spec_code(),
    {
        match self {
            MacOrigin::Unknown => 3,
            MacOrigin::Phone => 2,
            MacOrigin::Gateway => 1,
        }
    }

    /// Decode a response byte; unknown codes map to the fallback value.
    pub open spec fn spec_from_code(v: u8) -> MacOrigin {
        if v == 3 {
            MacOrigin::Unknown
        } else if v == 2 {
            MacOrigin::Phone
        } else {
            MacOrigin::Gateway
        }
    }

    /// Decode a response byte.
    pub fn from_code(v: u8) -> (r: MacOrigin)
        ensures
            r == MacOrigin::spec_from_code(v),
    {
        match v {
            3 => MacOrigin::Unknown,
            2 => MacOrigin::Phone,
            _ => MacOrigin::Gateway,
        }
    }
}

/// Frame type flag.
#[derive(Debug, Clone, Copy, PartialEq, Eq, Structural)]
pub enum FrameType {
    Reserved,
    Data,
    Control,
    Management,
}

impl FrameType {
    /// Numeric code of this value on the wire.
    pub open spec fn spec_code(&self) -> u8 {
        match self {
            FrameType::Reserved => 3,
            FrameType::Data => 2,
            FrameType::Control => 1,
            FrameType::Management => 0,
        }
    }

    /// Encode this value for a request byte.
    #[verifier::when_used_as_spec(spec_code)]
    pub fn code(&self) -> (r: u8)
        ensures
            r == self.spec_code(),
    {
        match self {
            FrameType::Reserved => 3,
            FrameType::Data => 2,
            FrameType::Control => 1,
            FrameType::Management => 0,
        }
    }

    /// Decode a response byte; unknown codes map to the fallback value.
    pub open spec fn spec_from_code(v: u8) -> FrameType {
        if v == 3 {
            FrameType::Reserved
        } else if v == 2 {
            FrameType::Data
        } else if v == 1 {
            FrameType::Control
        } else {
            FrameType::Management
        }
    }

    /// Decode a response byte.
    pub fn from_code(v: u8) -> (r: FrameType)
        ensures
            r == FrameType::spec_from_code(v),
    {
        match v {
            3 => FrameType::Reserved,
            2 => FrameType::Data,
            1 => FrameType::Control,
            _ => FrameType::Management,
        }
    }
}

/// Bytes of the WifiScan request.
pub open spec fn spec_wifi_scan_cmd(wifi_standard: WifiStandard, chan_mask: u16, acq_mode: AcqMode, nb_max_res: u8, nb_scan_per_chan: u8, timeout: u16, abort_on_timeout: bool) -> Seq<u8> {
    seq![
        0x03u8,
        0x00u8,
        wifi_standard.spec_code(),
        spec_u16_hi(chan_mask),
        spec_u16_lo(chan_mask),
        acq_mode.spec_code(),
        nb_max_res,
        nb_scan_per_chan,
        spec_u16_hi(timeout),
        spec_u16_lo(timeout),
        (if abort_on_timeout { 1u8 } else { 0u8 }),
    ]
}

/// Captures Wi-Fi packets on the HF RF pin.  The BUSY signal stays high
/// during the scan (a few hundred ms), and the scan-done interrupt is
/// raised at the end if enabled.
pub fn wifi_scan_cmd(wifi_standard: WifiStandard, chan_mask: u16, acq_mode: AcqMode, nb_max_res: u8, nb_scan_per_chan: u8, timeout: u16, abort_on_timeout: bool) -> (r: [u8; 11])
    ensures
        r@ == spec_wifi_scan_cmd(wifi_standard, chan_mask, acq_mode, nb_max_res, nb_scan_per_chan, timeout, abort_on_timeout),
{
    [
        0x03,
        0x00,
        wifi_standard.code(),
        u16_hi(chan_mask),
        u16_lo(chan_mask),
        acq_mode.code(),
        nb_max_res,
        nb_scan_per_chan,
        u16_hi(timeout),
        u16_lo(timeout),
        if abort_on_timeout { 1 } else { 0 },
    ]
}

/// Bytes of the WifiScanTimeLimit request.
pub open spec fn spec_wifi_scan_time_limit_cmd(wifi_standard: WifiStandard, chan_mask: u16, acq_mode: AcqMode, nb_max_res: u8, scan_time_per_channel: u16, timeout_per_scan: u16) -> Seq<u8> {
    seq![
        0x03u8,
        0x01u8,
        wifi_standard.spec_code(),
        spec_u16_hi(chan_mask),
        spec_u16_lo(chan_mask),
        acq_mode.spec_code(),
        nb_max_res,
        spec_u16_hi(scan_time_per_channel),
        spec_u16_lo(scan_time_per_channel),
        spec_u16_hi(timeout_per_scan),
        spec_u16_lo(timeout_per_scan),
    ]
}

/// Searches for Wi-Fi MAC addresses during a configurable maximal time.
/// The duration may be exceeded due to crystal drift and last signal
/// detection.
pub fn wifi_scan_time_limit_cmd(wifi_standard: WifiStandard, chan_mask: u16, acq_mode: AcqMode, nb_max_res: u8, scan_time_per_channel: u16, timeout_per_scan: u16) -> (r: [u8; 11])
    ensures
        r@ == spec_wifi_scan_time_limit_cmd(wifi_standard, chan_mask, acq_mode, nb_max_res, scan_time_per_channel, timeout_per_scan),
{
    [
        0x03,
        0x01,
        wifi_standard.code(),
        u16_hi(chan_mask),
        u16_lo(chan_mask),
        acq_mode.code(),
        nb_max_res,
        u16_hi(scan_time_per_channel),
        u16_lo(scan_time_per_channel),
        u16_hi(timeout_per_scan),
        u16_lo(timeout_per_scan),
    ]
}

/// Bytes of the WifiCountryCode request.
pub open spec fn spec_wifi_country_code_cmd(chan_mask: u16, nb_max_res: u8, nb_scan_per_channel: u8, timeout: u16, abort_on_timeout: bool) -> Seq<u8> {
    seq![
        0x03u8,
        0x02u8,
        spec_u16_hi(chan_mask),
        spec_u16_lo(chan_mask),
        nb_max_res,
        nb_scan_per_channel,
        spec_u16_hi(timeout),
        spec_u16_lo(timeout),
        (if abort_on_timeout { 1u8 } else { 0u8 }),
    ]
}

/// Extracts the country code from beacons or probe responses.  Only Wi-Fi
/// B signals are searched, and results are filtered for duplicates by MAC
/// address.  Reports a parameter error if a range is not respected and a
/// command failure for radio configuration errors.
pub fn wifi_country_code_cmd(chan_mask: u16, nb_max_res: u8, nb_scan_per_channel: u8, timeout: u16, abort_on_timeout: bool) -> (r: [u8; 9])
    ensures
        r@ == spec_wifi_country_code_cmd(chan_mask, nb_max_res, nb_scan_per_channel, timeout, abort_on_timeout),
{
    [
        0x03,
        0x02,
        u16_hi(chan_mask),
        u16_lo(chan_mask),
        nb_max_res,
        nb_scan_per_channel,
        u16_hi(timeout),
        u16_lo(timeout),
        if abort_on_timeout { 1 } else { 0 },
    ]
}

/// Bytes of the WifiCountryCodeTimeLimit request.
pub open spec fn spec_wifi_country_code_time_limit_cmd(chan_mask: u16, nb_max_res: u8, scan_time_per_channel: u16, timeout_per_scan: u16) -> Seq<u8> {
    seq![
        0x03u8,
        0x03u8,
        spec_u16_hi(chan_mask),
        spec_u16_lo(chan_mask),
        nb_max_res,
        spec_u16_hi(scan_time_per_channel),
        spec_u16_lo(scan_time_per_channel),
        spec_u16_hi(timeout_per_scan),
        spec_u16_lo(timeout_per_scan),
    ]
}

/// Searches for Wi-Fi MAC addresses during a configurable maximal time for
/// country code extraction.
pub fn wifi_country_code_time_limit_cmd(chan_mask: u16, nb_max_res: u8, scan_time_per_channel: u16, timeout_per_scan: u16) -> (r: [u8; 9])
    ensures
        r@ == spec_wifi_country_code_time_limit_cmd(chan_mask, nb_max_res, scan_time_per_channel, timeout_per_scan),
{
    [
        0x03,
        0x03,
        u16_hi(chan_mask),
        u16_lo(chan_mask),
        nb_max_res,
        u16_hi(scan_time_per_channel),
        u16_lo(scan_time_per_channel),
        u16_hi(timeout_per_scan),
        u16_lo(timeout_per_scan),
    ]
}

/// Bytes of the WifiGetNbResults request.
pub open spec fn spec_wifi_get_nb_results_req() -> Seq<u8> {
    seq![
        0x03u8,
        0x05u8,
    ]
}

/// Returns the number of Wi-Fi scanning results, read at the next
/// transaction.
pub fn wifi_get_nb_results_req() -> (r: [u8; 2])
    ensures
        r@ == spec_wifi_get_nb_results_req(),
{
    [
        0x03,
        0x05,
    ]
}

/// Bytes of the WifiReadResults request.
pub open spec fn spec_wifi_read_results_req(index: u8, nb_results: u8, wifi_result_format: WifiResultFormat) -> Seq<u8> {
    seq![
        0x03u8,
        0x06u8,
        index,
        nb_results,
        wifi_result_format.spec_code(),
    ]
}

/// Reads the byte stream of Wi-Fi passive scanning results from the given
/// index in the requested format.  The number of results must be learned
/// first.  At most 1020 bytes per command: split into multiple requests if
/// needed.
pub fn wifi_read_results_req(index: u8, nb_results: u8, wifi_result_format: WifiResultFormat) -> (r: [u8; 5])
    ensures
        r@ == spec_wifi_read_results_req(index, nb_results, wifi_result_format),
{
    [
        0x03,
        0x06,
        index,
        nb_results,
        wifi_result_format.code(),
    ]
}

/// Bytes of the WifiResetCumulTimings request.
pub open spec fn spec_wifi_reset_cumul_timings_cmd() -> Seq<u8> {
    seq![
        0x03u8,
        0x07u8,
    ]
}

/// Resets the Wi-Fi passive scanning cumulative timings.  Must be called
/// before a scan if the timings are to be read.
pub fn wifi_reset_cumul_timings_cmd() -> (r: [u8; 2])
    ensures
        r@ == spec_wifi_reset_cumul_timings_cmd(),
{
    [
        0x03,
        0x07,
    ]
}

/// Bytes of the WifiReadCumulTimings request.
pub open spec fn spec_wifi_read_cumul_timings_req() -> Seq<u8> {
    seq![
        0x03u8,
        0x08u8,
    ]
}

/// Reads the Wi-Fi passive scanning cumulative timings: the total time in
/// the various modes, summed over all acquisitions, in microseconds.
pub fn wifi_read_cumul_timings_req() -> (r: [u8; 2])
    ensures
        r@ == spec_wifi_read_cumul_timings_req(),
{
    [
        0x03,
        0x08,
    ]
}

/// Bytes of the WifiGetNbCountryCodeResults request.
pub open spec fn spec_wifi_get_nb_country_code_results_req() -> Seq<u8> {
    seq![
        0x03u8,
        0x09u8,
    ]
}

/// Returns the number of results after a country code scan.
pub fn wifi_get_nb_country_code_results_req() -> (r: [u8; 2])
    ensures
        r@ == spec_wifi_get_nb_country_code_results_req(),
{
    [
        0x03,
        0x09,
    ]
}

/// Bytes of the WifiReadCountryCodeResults request.
pub open spec fn spec_wifi_read_country_code_results_req(index: u8, nb_results: u8) -> Seq<u8> {
    seq![
        0x03u8,
        0x0Au8,
        index,
        nb_results,
    ]
}

/// Reads the byte stream of country code results from the given index.
/// The number of results must be learned first.  One result is 10 bytes.
pub fn wifi_read_country_code_results_req(index: u8, nb_results: u8) -> (r: [u8; 4])
    ensures
        r@ == spec_wifi_read_country_code_results_req(index, nb_results),
{
    [
        0x03,
        0x0A,
        index,
        nb_results,
    ]
}

/// Bytes of the WifiCfgTimestampAPphone request.
pub open spec fn spec_wifi_cfg_timestamp_a_pphone_cmd(timestamp: u32) -> Seq<u8> {
    seq![
        0x03u8,
        0x0Bu8,
        spec_u32_b3(timestamp),
        spec_u32_b2(timestamp),
        spec_u32_b1(timestamp),
        spec_u32_b0(timestamp),
    ]
}

/// Configures the timestamp threshold that discriminates mobile access
/// points from gateways (default one day).  If the timestamp from a beacon
/// exceeds the limit, the MAC validation indicates a probable gateway.
pub fn wifi_cfg_timestamp_a_pphone_cmd(timestamp: u32) -> (r: [u8; 6])
    ensures
        r@ == spec_wifi_cfg_timestamp_a_pphone_cmd(timestamp),
{
    [
        0x03,
        0x0B,
        u32_b3(timestamp),
        u32_b2(timestamp),
        u32_b1(timestamp),
        u32_b0(timestamp),
    ]
}

/// Bytes of the WifiReadVersion request.
pub open spec fn spec_wifi_read_version_req() -> Seq<u8> {
    seq![
        0x03u8,
        0x20u8,
    ]
}

/// Returns the internal Wi-Fi firmware major and minor version numbers.
pub fn wifi_read_version_req() -> (r: [u8; 2])
    ensures
        r@ == spec_wifi_read_version_req(),
{
    [
        0x03,
        0x20,
    ]
}

// Response structs

/// Response for the WifiGetNbResults command.
pub struct WifiGetNbResultsRsp([u8; 2]);

impl WifiGetNbResultsRsp {
    /// The raw response bytes.
    pub closed spec fn bytes(&self) -> Seq<u8> {
        self.0@
    }

    /// Create a zero-filled response buffer.
    pub fn new() -> (r: Self)
        ensures
            r.bytes() == zero_bytes(2),
    {
        let r = WifiGetNbResultsRsp([0u8; 2]);
        proof {
            assert(r.bytes() =~= zero_bytes(2));
        }
        r
    }

    /// Wrap the raw bytes returned by a read transaction.
    pub fn from_bytes(bytes: &[u8]) -> (r: Self)
        requires
            bytes@.len() == 2,
        ensures
            r.bytes() == bytes@,
    {
        WifiGetNbResultsRsp(to_array(bytes))
    }

    /// Return the status header (short form, from byte 0).
    pub fn status(&self) -> (r: Status)
        ensures
            r@ == ((self.bytes()[0] as u16) << 8),
    {
        Status::from_byte(self.0[0])
    }

    /// Number of Wi-Fi scan results (up to 32).
    pub fn nb_results(&self) -> (r: u8)
        ensures
            r == self.bytes()[1],
    {
        self.0[1]
    }
}

/// One short-format (9 byte) record of a Wi-Fi scan result.
pub struct WifiReadResultsRsp([u8; 9]);

impl WifiReadResultsRsp {
    /// The raw response bytes.
    pub closed spec fn bytes(&self) -> Seq<u8> {
        self.0@
    }

    /// Create the record from its raw bytes.
    pub fn from_slice(buffer: &[u8]) -> (r: Self)
        requires
            buffer@.len() == 9,
        ensures
            r.bytes() == buffer@,
    {
        WifiReadResultsRsp(to_array(buffer))
    }

    /// 802.11 standard of the captured signal.
    pub fn wifi_standard(&self) -> (r: WifiStandard)
        ensures
            r == WifiStandard::spec_from_code(self.bytes()[0]),
    {
        WifiStandard::from_code(self.0[0])
    }

    /// Channel ID (0 to 14).
    pub fn channel_id(&self) -> (r: u8)
        ensures
            r == (self.bytes()[1] & 0xF),
    {
        self.0[1] & 0xF
    }

    /// Origin of the captured MAC address.
    pub fn mac_origin(&self) -> (r: MacOrigin)
        ensures
            r == MacOrigin::spec_from_code(((self.bytes()[1] >> 4) & 0x3)),
    {
        MacOrigin::from_code((self.0[1] >> 4) & 0x3)
    }

    /// True when the transmitter is an end-point rather than an access
    /// point.
    pub fn is_end_device(&self) -> (r: bool)
        ensures
            r == ((self.bytes()[1] & 0x40) != 0),
    {
        (self.0[1] & 0x40) != 0
    }

    /// RSSI value of the captured signal (-dBm).
    pub fn rssi(&self) -> (r: u8)
        ensures
            r == self.bytes()[2],
    {
        self.0[2]
    }

    /// MAC address.
    pub fn mac(&self) -> (r: u64)
        ensures
            r == spec_be48(self.bytes()[3], self.bytes()[4], self.bytes()[5], self.bytes()[6], self.bytes()[7], self.bytes()[8]),
    {
        be48(self.0[3], self.0[4], self.0[5], self.0[6], self.0[7], self.0[8])
    }
}

/// One long-format (22 byte) record of a Wi-Fi scan result.
pub struct WifiReadLongResultsRsp([u8; 22]);

impl WifiReadLongResultsRsp {
    /// The raw response bytes.
    pub closed spec fn bytes(&self) -> Seq<u8> {
        self.0@
    }

    /// Create the record from its raw bytes.
    pub fn from_slice(buffer: &[u8]) -> (r: Self)
        requires
            buffer@.len() == 22,
        ensures
            r.bytes() == buffer@,
    {
        WifiReadLongResultsRsp(to_array(buffer))
    }

    /// 802.11 standard of the captured signal.
    pub fn wifi_standard(&self) -> (r: WifiStandard)
        ensures
            r == WifiStandard::spec_from_code(self.bytes()[0]),
    {
        WifiStandard::from_code(self.0[0])
    }

    /// Channel ID (0 to 14).
    pub fn channel_id(&self) -> (r: u8)
        ensures
            r == (self.bytes()[1] & 0xF),
    {
        self.0[1] & 0xF
    }

    /// Frame type flag.
    pub fn frame_type(&self) -> (r: FrameType)
        ensures
            r == FrameType::spec_from_code(((self.bytes()[1] >> 4) & 0x3)),
    {
        FrameType::from_code((self.0[1] >> 4) & 0x3)
    }

    /// True when the transmitter is an end-point rather than an access
    /// point.
    pub fn is_end_device(&self) -> (r: bool)
        ensures
            r == ((self.bytes()[1] & 0x40) != 0),
    {
        (self.0[1] & 0x40) != 0
    }

    /// RSSI value of the captured signal (-dBm).
    pub fn rssi(&self) -> (r: u8)
        ensures
            r == self.bytes()[2],
    {
        self.0[2]
    }

    /// Frame control field.
    pub fn frame_ctrl(&self) -> (r: u8)
        ensures
            r == self.bytes()[3],
    {
        self.0[3]
    }

    /// MAC address.
    pub fn mac(&self) -> (r: u64)
        ensures
            r == spec_be48(self.bytes()[4], self.bytes()[5], self.bytes()[6], self.bytes()[7], self.bytes()[8], self.bytes()[9]),
    {
        be48(self.0[4], self.0[5], self.0[6], self.0[7], self.0[8], self.0[9])
    }

    /// Phase offset, used to compute the frequency offset.
    pub fn phi_offset(&self) -> (r: u16)
        ensures
            r == spec_be16(self.bytes()[10], self.bytes()[11]),
    {
        be16(self.0[10], self.0[11])
    }

    /// Access point uptime in microseconds.
    pub fn timestamp(&self) -> (r: u64)
        ensures
            r == spec_be64(self.bytes()[12], self.bytes()[13], self.bytes()[14], self.bytes()[15], self.bytes()[16], self.bytes()[17], self.bytes()[18], self.bytes()[19]),
    {
        be64(self.0[12], self.0[13], self.0[14], self.0[15], self.0[16], self.0[17], self.0[18], self.0[19])
    }

    /// Beacon period in time units.
    pub fn beacon_period(&self) -> (r: u16)
        ensures
            r == spec_be16(self.bytes()[20], self.bytes()[21]),
    {
        be16(self.0[20], self.0[21])
    }
}

/// One extended-format (79 byte) record of a Wi-Fi scan result.
pub struct WifiReadExtendedResultsRsp([u8; 79]);

impl WifiReadExtendedResultsRsp {
    /// The raw response bytes.
    pub closed spec fn bytes(&self) -> Seq<u8> {
        self.0@
    }

    /// Create the record from its raw bytes.
    pub fn from_slice(buffer: &[u8]) -> (r: Self)
        requires
            buffer@.len() == 79,
        ensures
            r.bytes() == buffer@,
    {
        WifiReadExtendedResultsRsp(to_array(buffer))
    }

    /// 802.11 standard of the captured signal.
    pub fn wifi_standard(&self) -> (r: WifiStandard)
        ensures
            r == WifiStandard::spec_from_code(self.bytes()[0]),
    {
        WifiStandard::from_code(self.0[0])
    }

    /// Channel ID (0 to 14).
    pub fn channel_id(&self) -> (r: u8)
        ensures
            r == (self.bytes()[1] & 0xF),
    {
        self.0[1] & 0xF
    }

    /// Frame type flag.
    pub fn frame_type(&self) -> (r: FrameType)
        ensures
            r == FrameType::spec_from_code(((self.bytes()[1] >> 4) & 0x3)),
    {
        FrameType::from_code((self.0[1] >> 4) & 0x3)
    }

    /// True when the transmitter is an end-point rather than an access
    /// point.
    pub fn is_end_device(&self) -> (r: bool)
        ensures
            r == ((self.bytes()[1] & 0x40) != 0),
    {
        (self.0[1] & 0x40) != 0
    }

    /// RSSI value of the captured signal (-dBm).
    pub fn rssi(&self) -> (r: u8)
        ensures
            r == self.bytes()[2],
    {
        self.0[2]
    }

    /// Data rate; the coding depends on the standard.
    pub fn rate(&self) -> (r: u8)
        ensures
            r == self.bytes()[3],
    {
        self.0[3]
    }

    /// Service field.
    pub fn service(&self) -> (r: u16)
        ensures
            r == spec_be16(self.bytes()[4], self.bytes()[5]),
    {
        be16(self.0[4], self.0[5])
    }

    /// Length field.
    pub fn length(&self) -> (r: u16)
        ensures
            r == spec_be16(self.bytes()[6], self.bytes()[7]),
    {
        be16(self.0[6], self.0[7])
    }

    /// Frame control field.
    pub fn frame_ctrl(&self) -> (r: u16)
        ensures
            r == spec_be16(self.bytes()[8], self.bytes()[9]),
    {
        be16(self.0[8], self.0[9])
    }

    /// MAC address 0.
    pub fn mac0(&self) -> (r: u64)
        ensures
            r == spec_be48(self.bytes()[10], self.bytes()[11], self.bytes()[12], self.bytes()[13], self.bytes()[14], self.bytes()[15]),
    {
        be48(self.0[10], self.0[11], self.0[12], self.0[13], self.0[14], self.0[15])
    }

    /// MAC address 1.
    pub fn mac1(&self) -> (r: u64)
        ensures
            r == spec_be48(self.bytes()[16], self.bytes()[17], self.bytes()[18], self.bytes()[19], self.bytes()[20], self.bytes()[21]),
    {
        be48(self.0[16], self.0[17], self.0[18], self.0[19], self.0[20], self.0[21])
    }

    /// MAC address 2.
    pub fn mac2(&self) -> (r: u64)
        ensures
            r == spec_be48(self.bytes()[22], self.bytes()[23], self.bytes()[24], self.bytes()[25], self.bytes()[26], self.bytes()[27]),
    {
        be48(self.0[22], self.0[23], self.0[24], self.0[25], self.0[26], self.0[27])
    }

    /// Access point uptime in microseconds.
    pub fn timestamp(&self) -> (r: u64)
        ensures
            r == spec_be64(self.bytes()[28], self.bytes()[29], self.bytes()[30], self.bytes()[31], self.bytes()[32], self.bytes()[33], self.bytes()[34], self.bytes()[35]),
    {
        be64(self.0[28], self.0[29], self.0[30], self.0[31], self.0[32], self.0[33], self.0[34], self.0[35])
    }

    /// Beacon period in time units.
    pub fn beacon_period(&self) -> (r: u16)
        ensures
            r == spec_be16(self.bytes()[36], self.bytes()[37]),
    {
        be16(self.0[36], self.0[37])
    }

    /// Sequence control field.
    pub fn seq_ctrl(&self) -> (r: u16)
        ensures
            r == spec_be16(self.bytes()[38], self.bytes()[39]),
    {
        be16(self.0[38], self.0[39])
    }

    /// Channel number.
    pub fn channel_num(&self) -> (r: u8)
        ensures
            r == self.bytes()[72],
    {
        self.0[72]
    }

    /// Country code in ASCII.
    pub fn country(&self) -> (r: u16)
        ensures
            r == spec_be16(self.bytes()[73], self.bytes()[74]),
    {
        be16(self.0[73], self.0[74])
    }

    /// Character indicating whether the access point is indoor (I),
    /// outdoor (O) or anywhere (space).
    pub fn io(&self) -> (r: u8)
        ensures
            r == self.bytes()[75],
    {
        self.0[75]
    }

    /// True when the packet check sequence is correct.
    pub fn fcs_ok(&self) -> (r: bool)
        ensures
            r == ((self.bytes()[76] & 0x1) != 0),
    {
        (self.0[76] & 0x1) != 0
    }

    /// Phase offset, used to compute the frequency offset.
    pub fn phi_offset(&self) -> (r: u16)
        ensures
            r == spec_be16(self.bytes()[77], self.bytes()[78]),
    {
        be16(self.0[77], self.0[78])
    }
}

impl WifiReadExtendedResultsRsp {
    /// The SSID bytes of the record.
    pub fn ssid(&self) -> (r: Vec<u8>)
        ensures
            r@ == self.bytes().subrange(40, 71),
    {
        let mut out: Vec<u8> = Vec::new();
        let mut i: usize = 40;
        while i < 71
            invariant
                40 <= i <= 71,
                out@ == self.bytes().subrange(40, i as int),
            decreases 71 - i,
        {
            out.push(self.0[i]);
            proof {
                assert(out@ =~= self.bytes().subrange(40, i + 1));
            }
            i += 1;
        }
        out
    }
}

/// Response for the WifiReadCumulTimings command.
pub struct WifiReadCumulTimingsRsp([u8; 17]);

impl WifiReadCumulTimingsRsp {
    /// The raw response bytes.
    pub closed spec fn bytes(&self) -> Seq<u8> {
        self.0@
    }

    /// Create a zero-filled response buffer.
    pub fn new() -> (r: Self)
        ensures
            r.bytes() == zero_bytes(17),
    {
        let r = WifiReadCumulTimingsRsp([0u8; 17]);
        proof {
            assert(r.bytes() =~= zero_bytes(17));
        }
        r
    }

    /// Wrap the raw bytes returned by a read transaction.
    pub fn from_bytes(bytes: &[u8]) -> (r: Self)
        requires
            bytes@.len() == 17,
        ensures
            r.bytes() == bytes@,
    {
        WifiReadCumulTimingsRsp(to_array(bytes))
    }

    /// Return the status header (short form, from byte 0).
    pub fn status(&self) -> (r: Status)
        ensures
            r@ == ((self.bytes()[0] as u16) << 8),
    {
        Status::from_byte(self.0[0])
    }

    /// Reserved for future use.
    pub fn rfu(&self) -> (r: u32)
        ensures
            r == spec_be32(self.bytes()[1], self.bytes()[2], self.bytes()[3], self.bytes()[4]),
    {
        be32(self.0[1], self.0[2], self.0[3], self.0[4])
    }

    /// Total duration in preamble detection mode (microseconds).
    pub fn preamble_detection_time(&self) -> (r: u32)
        ensures
            r == spec_be32(self.bytes()[5], self.bytes()[6], self.bytes()[7], self.bytes()[8]),
    {
        be32(self.0[5], self.0[6], self.0[7], self.0[8])
    }

    /// Total duration in capture mode (microseconds).
    pub fn capture_time(&self) -> (r: u32)
        ensures
            r == spec_be32(self.bytes()[9], self.bytes()[10], self.bytes()[11], self.bytes()[12]),
    {
        be32(self.0[9], self.0[10], self.0[11], self.0[12])
    }

    /// Total duration in demodulation mode (microseconds).
    pub fn demodulation_time(&self) -> (r: u32)
        ensures
            r == spec_be32(self.bytes()[13], self.bytes()[14], self.bytes()[15], self.bytes()[16]),
    {
        be32(self.0[13], self.0[14], self.0[15], self.0[16])
    }
}

/// Response for the WifiGetNbCountryCodeResults command.
pub struct WifiGetNbCountryCodeResultsRsp([u8; 2]);

impl WifiGetNbCountryCodeResultsRsp {
    /// The raw response bytes.
    pub closed spec fn bytes(&self) -> Seq<u8> {
        self.0@
    }

    /// Create a zero-filled response buffer.
    pub fn new() -> (r: Self)
        ensures
            r.bytes() == zero_bytes(2),
    {
        let r = WifiGetNbCountryCodeResultsRsp([0u8; 2]);
        proof {
            assert(r.bytes() =~= zero_bytes(2));
        }
        r
    }

    /// Wrap the raw bytes returned by a read transaction.
    pub fn from_bytes(bytes: &[u8]) -> (r: Self)
        requires
            bytes@.len() == 2,
        ensures
            r.bytes() == bytes@,
    {
        WifiGetNbCountryCodeResultsRsp(to_array(bytes))
    }

    /// Return the status header (short form, from byte 0).
    pub fn status(&self) -> (r: Status)
        ensures
            r@ == ((self.bytes()[0] as u16) << 8),
    {
        Status::from_byte(self.0[0])
    }

    /// Number of country code results (up to 32).
    pub fn nb_results(&self) -> (r: u8)
        ensures
            r == self.bytes()[1],
    {
        self.0[1]
    }
}

/// One country-code (10 byte) record of a Wi-Fi scan result.
pub struct WifiReadCountryCodeResultsRsp([u8; 10]);

impl WifiReadCountryCodeResultsRsp {
    /// The raw response bytes.
    pub closed spec fn bytes(&self) -> Seq<u8> {
        self.0@
    }

    /// Create the record from its raw bytes.
    pub fn from_slice(buffer: &[u8]) -> (r: Self)
        requires
            buffer@.len() == 10,
        ensures
            r.bytes() == buffer@,
    {
        WifiReadCountryCodeResultsRsp(to_array(buffer))
    }

    /// Country code in ASCII.
    pub fn country(&self) -> (r: u16)
        ensures
            r == spec_be16(self.bytes()[0], self.bytes()[1]),
    {
        be16(self.0[0], self.0[1])
    }

    /// Character indicating whether the access point is indoor (I),
    /// outdoor (O) or anywhere (space).
    pub fn io(&self) -> (r: u8)
        ensures
            r == self.bytes()[2],
    {
        self.0[2]
    }

    /// Channel ID (0 to 14).
    pub fn channel_id(&self) -> (r: u8)
        ensures
            r == (self.bytes()[3] & 0xF),
    {
        self.0[3] & 0xF
    }

    /// Origin of the captured MAC address.
    pub fn mac_origin(&self) -> (r: MacOrigin)
        ensures
            r == MacOrigin::spec_from_code(((self.bytes()[3] >> 4) & 0x3)),
    {
        MacOrigin::from_code((self.0[3] >> 4) & 0x3)
    }

    /// True when the transmitter is an end-point rather than an access
    /// point.
    pub fn is_end_device(&self) -> (r: bool)
        ensures
            r == ((self.bytes()[3] & 0x40) != 0),
    {
        (self.0[3] & 0x40) != 0
    }

    /// MAC address.
    pub fn mac(&self) -> (r: u64)
        ensures
            r == spec_be48(self.bytes()[4], self.bytes()[5], self.bytes()[6], self.bytes()[7], self.bytes()[8], self.bytes()[9]),
    {
        be48(self.0[4], self.0[5], self.0[6], self.0[7], self.0[8], self.0[9])
    }
}

/// Response for the WifiReadVersion command.
pub struct WifiReadVersionRsp([u8; 3]);

impl WifiReadVersionRsp {
    /// The raw response bytes.
    pub closed spec fn bytes(&self) -> Seq<u8> {
        self.0@
    }

    /// Create a zero-filled response buffer.
    pub fn new() -> (r: Self)
        ensures
            r.bytes() == zero_bytes(3),
    {
        let r = WifiReadVersionRsp([0u8; 3]);
        proof {
            assert(r.bytes() =~= zero_bytes(3));
        }
        r
    }

    /// Wrap the raw bytes returned by a read transaction.
    pub fn from_bytes(bytes: &[u8]) -> (r: Self)
        requires
            bytes@.len() == 3,
        ensures
            r.bytes() == bytes@,
    {
        WifiReadVersionRsp(to_array(bytes))
    }

    /// Return the status header (short form, from byte 0).
    pub fn status(&self) -> (r: Status)
        ensures
            r@ == ((self.bytes()[0] as u16) << 8),
    {
        Status::from_byte(self.0[0])
    }

    /// Wi-Fi firmware major version.
    pub fn version_major(&self) -> (r: u8)
        ensures
            r == self.bytes()[1],
    {
        self.0[1]
    }

    /// Wi-Fi firmware minor version.
    pub fn version_minor(&self) -> (r: u8)
        ensures
            r == self.bytes()[2],
    {
        self.0[2]
    }
}

} // verus!
