//! Wi-Fi passive scanning: scans, result retrieval, country code
//! extraction and cumulative timings.

use vstd::prelude::*;

#[allow(unused_imports)]
use crate::Lr1120Error;
use crate::cmd::cmd_wifi::{AcqMode, WifiGetNbCountryCodeResultsRsp, WifiGetNbResultsRsp,
    WifiReadCountryCodeResultsRsp, WifiReadCumulTimingsRsp, WifiReadExtendedResultsRsp,
    WifiReadLongResultsRsp, WifiReadResultsRsp, WifiReadVersionRsp, WifiResultFormat,
    WifiStandard, wifi_cfg_timestamp_a_pphone_cmd, wifi_country_code_cmd,
    wifi_country_code_time_limit_cmd, wifi_get_nb_country_code_results_req,
    wifi_get_nb_results_req, wifi_read_country_code_results_req, wifi_read_cumul_timings_req,
    wifi_read_results_req, wifi_read_version_req, wifi_reset_cumul_timings_cmd, wifi_scan_cmd,
    wifi_scan_time_limit_cmd, spec_wifi_cfg_timestamp_a_pphone_cmd, spec_wifi_country_code_cmd,
    spec_wifi_country_code_time_limit_cmd, spec_wifi_get_nb_country_code_results_req,
    spec_wifi_get_nb_results_req, spec_wifi_read_country_code_results_req,
    spec_wifi_read_cumul_timings_req, spec_wifi_read_results_req, spec_wifi_read_version_req,
    spec_wifi_reset_cumul_timings_cmd, spec_wifi_scan_cmd, spec_wifi_scan_time_limit_cmd};
use crate::engine::{Lr1120, preserves_frame, read_phase_history, write_cmd_history,
    write_then_read_history};
use crate::port::busy_polls;
use crate::port::{BusEvent, SpiPort};

verus! {

/// Wi-Fi scan parameters.
#[derive(Debug, Clone)]
pub struct WifiScanParams {
    /// Channel mask (bits 0 to 13).
    pub chan_mask: u16,
    /// Standard selection (B, G, N, or all).
    pub standard: WifiStandard,
    /// Acquisition mode.
    pub acq_mode: AcqMode,
    /// Maximum number of results (up to 32).
    pub max_res: u8,
    /// Maximum number of scans per channel.
    pub max_scan: u8,
    /// Timeout in ms.
    pub timeout: u16,
    /// Abort the current channel when the timeout is reached.
    pub abort_on_timeout: bool,
}

impl WifiScanParams {
    /// Scan configuration with all channels enabled, 16 results, 8 scans
    /// and a 105ms timeout.
    pub fn new(standard: WifiStandard, acq_mode: AcqMode) -> (r: WifiScanParams)
        ensures
            r.chan_mask == 0x3FFF,
            r.standard == standard && r.acq_mode == acq_mode,
            r.max_res == 16 && r.max_scan == 8 && r.timeout == 105 && r.abort_on_timeout,
    {
        WifiScanParams {
            chan_mask: 0x3FFF,
            standard,
            acq_mode,
            max_res: 16,
            max_scan: 8,
            timeout: 105,
            abort_on_timeout: true,
        }
    }
}

impl<P: SpiPort> Lr1120<P> {

    /// Capture Wi-Fi packets.  BUSY stays high during the scan and the
    /// scan-done interrupt is raised when finished.
    pub fn wifi_scan(&mut self, params: &WifiScanParams) -> (r: Result<(), Lr1120Error>)
        requires
            old(self).wf(),
        ensures
            preserves_frame(*old(self), *final(self)),
            r is Ok ==> final(self).wf() && write_cmd_history(
                old(self).port.history(),
                final(self).port.history(),
                spec_wifi_scan_cmd(params.standard, params.chan_mask, params.acq_mode, params.max_res, params.max_scan, params.timeout, params.abort_on_timeout),
            ),
    {
        let req = wifi_scan_cmd(params.standard, params.chan_mask, params.acq_mode, params.max_res, params.max_scan, params.timeout, params.abort_on_timeout);
        self.write(req.as_slice())
    }

    /// Capture Wi-Fi packets with a time limit per channel in ms.
    pub fn wifi_scan_time_limit(&mut self, params: &WifiScanParams, time_limit: u16) -> (r: Result<(), Lr1120Error>)
        requires
            old(self).wf(),
        ensures
            preserves_frame(*old(self), *final(self)),
            r is Ok ==> final(self).wf() && write_cmd_history(
                old(self).port.history(),
                final(self).port.history(),
                spec_wifi_scan_time_limit_cmd(params.standard, params.chan_mask, params.acq_mode, params.max_res, time_limit, params.timeout),
            ),
    {
        let req = wifi_scan_time_limit_cmd(params.standard, params.chan_mask, params.acq_mode, params.max_res, time_limit, params.timeout);
        self.write(req.as_slice())
    }

    /// Capture Wi-Fi B beacons and look for country codes.
    pub fn wifi_scan_country_code(&mut self, params: &WifiScanParams) -> (r: Result<(), Lr1120Error>)
        requires
            old(self).wf(),
        ensures
            preserves_frame(*old(self), *final(self)),
            r is Ok ==> final(self).wf() && write_cmd_history(
                old(self).port.history(),
                final(self).port.history(),
                spec_wifi_country_code_cmd(params.chan_mask, params.max_res, params.max_scan, params.timeout, params.abort_on_timeout),
            ),
    {
        let req = wifi_country_code_cmd(params.chan_mask, params.max_res, params.max_scan, params.timeout, params.abort_on_timeout);
        self.write(req.as_slice())
    }

    /// Capture Wi-Fi B beacons and look for country codes, with a time limit
    /// per channel.
    pub fn wifi_scan_country_code_time_limit(&mut self, params: &WifiScanParams, time_limit: u16) -> (r: Result<(), Lr1120Error>)
        requires
            old(self).wf(),
        ensures
            preserves_frame(*old(self), *final(self)),
            r is Ok ==> final(self).wf() && write_cmd_history(
                old(self).port.history(),
                final(self).port.history(),
                spec_wifi_country_code_time_limit_cmd(params.chan_mask, params.max_res, time_limit, params.timeout),
            ),
    {
        let req = wifi_country_code_time_limit_cmd(params.chan_mask, params.max_res, time_limit, params.timeout);
        self.write(req.as_slice())
    }

    /// Get the number of results from the last scan.
    pub fn wifi_get_nb_res(&mut self) -> (r: Result<u8, Lr1120Error>)
        requires
            old(self).wf(),
        ensures
            preserves_frame(*old(self), *final(self)),
            r matches Ok(v) ==> final(self).wf() && exists|rsp: Seq<u8>|
                {
                    &&& rsp.len() == 2
                    &&& #[trigger] write_then_read_history(
                        old(self).port.history(),
                        final(self).port.history(),
                        spec_wifi_get_nb_results_req(),
                        rsp,
                        old(self).spec_poll_budget(),
                    )
                    &&& crate::status::spec_status_byte_check(rsp[0]) is Ok
                    &&& v == rsp[1]
                },
    {
        let req = wifi_get_nb_results_req();
        let budget = self.poll_budget;
        let rsp = match self.read_checked(req.as_slice(), 2, budget) {
            Ok(v) => v,
            Err(e) => {
                return Err(e);
            },
        };
        let parsed = WifiGetNbResultsRsp::from_bytes(rsp.as_slice());
        Ok(parsed.nb_results())
    }

    /// Get the number of country codes from the last scan.
    pub fn wifi_get_nb_country_code(&mut self) -> (r: Result<u8, Lr1120Error>)
        requires
            old(self).wf(),
        ensures
            preserves_frame(*old(self), *final(self)),
            r matches Ok(v) ==> final(self).wf() && exists|rsp: Seq<u8>|
                {
                    &&& rsp.len() == 2
                    &&& #[trigger] write_then_read_history(
                        old(self).port.history(),
                        final(self).port.history(),
                        spec_wifi_get_nb_country_code_results_req(),
                        rsp,
                        old(self).spec_poll_budget(),
                    )
                    &&& crate::status::spec_status_byte_check(rsp[0]) is Ok
                    &&& v == rsp[1]
                },
    {
        let req = wifi_get_nb_country_code_results_req();
        let budget = self.poll_budget;
        let rsp = match self.read_checked(req.as_slice(), 2, budget) {
            Ok(v) => v,
            Err(e) => {
                return Err(e);
            },
        };
        let parsed = WifiGetNbCountryCodeResultsRsp::from_bytes(rsp.as_slice());
        Ok(parsed.nb_results())
    }

    /// Reset the cumulative timings.
    pub fn wifi_reset_timings(&mut self) -> (r: Result<(), Lr1120Error>)
        requires
            old(self).wf(),
        ensures
            preserves_frame(*old(self), *final(self)),
            r is Ok ==> final(self).wf() && write_cmd_history(
                old(self).port.history(),
                final(self).port.history(),
                spec_wifi_reset_cumul_timings_cmd(),
            ),
    {
        let req = wifi_reset_cumul_timings_cmd();
        self.write(req.as_slice())
    }

    /// Get the cumulative scanning timings.
    pub fn wifi_get_timings(&mut self) -> (r: Result<WifiReadCumulTimingsRsp, Lr1120Error>)
        requires
            old(self).wf(),
        ensures
            preserves_frame(*old(self), *final(self)),
            r matches Ok(v) ==> final(self).wf() && exists|rsp: Seq<u8>|
                {
                    &&& rsp.len() == 17
                    &&& #[trigger] write_then_read_history(
                        old(self).port.history(),
                        final(self).port.history(),
                        spec_wifi_read_cumul_timings_req(),
                        rsp,
                        old(self).spec_poll_budget(),
                    )
                    &&& crate::status::spec_status_byte_check(rsp[0]) is Ok
                    &&& v.bytes() == rsp
                },
    {
        let req = wifi_read_cumul_timings_req();
        let budget = self.poll_budget;
        let rsp = match self.read_checked(req.as_slice(), 17, budget) {
            Ok(v) => v,
            Err(e) => {
                return Err(e);
            },
        };
        Ok(WifiReadCumulTimingsRsp::from_bytes(rsp.as_slice()))
    }

    /// Configure the timestamp threshold (in seconds) that discriminates
    /// mobile access points from gateways.
    pub fn wifi_set_timestamp_thr(&mut self, threshold: u32) -> (r: Result<(), Lr1120Error>)
        requires
            old(self).wf(),
        ensures
            preserves_frame(*old(self), *final(self)),
            r is Ok ==> final(self).wf() && write_cmd_history(
                old(self).port.history(),
                final(self).port.history(),
                spec_wifi_cfg_timestamp_a_pphone_cmd(threshold),
            ),
    {
        let req = wifi_cfg_timestamp_a_pphone_cmd(threshold);
        self.write(req.as_slice())
    }

    /// Return the firmware version of the Wi-Fi scanner.
    pub fn wifi_get_fw_version(&mut self) -> (r: Result<(u8, u8), Lr1120Error>)
        requires
            old(self).wf(),
        ensures
            preserves_frame(*old(self), *final(self)),
            r matches Ok(v) ==> final(self).wf() && exists|rsp: Seq<u8>|
                {
                    &&& rsp.len() == 3
                    &&& #[trigger] write_then_read_history(
                        old(self).port.history(),
                        final(self).port.history(),
                        spec_wifi_read_version_req(),
                        rsp,
                        old(self).spec_poll_budget(),
                    )
                    &&& crate::status::spec_status_byte_check(rsp[0]) is Ok
                    &&& v.0 == rsp[1]
                    &&& v.1 == rsp[2]
                },
    {
        let req = wifi_read_version_req();
        let budget = self.poll_budget;
        let rsp = match self.read_checked(req.as_slice(), 3, budget) {
            Ok(v) => v,
            Err(e) => {
                return Err(e);
            },
        };
        let parsed = WifiReadVersionRsp::from_bytes(rsp.as_slice());
        Ok((parsed.version_major(), parsed.version_minor()))
    }

    /// Return the short results (9 bytes each) of the previous Wi-Fi scan,
    /// for the beacon-search or beacon-and-packet acquisition modes.
    pub fn wifi_get_result_short(&mut self, index: u8, nb: u8) -> (r: Result<Vec<WifiReadResultsRsp>, Lr1120Error>)
        requires
            old(self).wf(),
        ensures
            preserves_frame(*old(self), *final(self)),
            r matches Ok(v) ==> final(self).wf() && v@.len() == (if nb <= 32 {
                nb as int
            } else {
                32
            }) && exists|mid: Seq<BusEvent>, raw: Seq<u8>|
                {
                    &&& write_cmd_history(old(self).port.history(), mid, spec_wifi_read_results_req(index, nb, WifiResultFormat::Short))
                    &&& #[trigger] read_phase_history(
                        mid,
                        final(self).port.history(),
                        raw,
                        old(self).spec_poll_budget(),
                    )
                    &&& raw.len() == v@.len() * 9
                    &&& forall|k: int|
                        0 <= k < v@.len() ==> (#[trigger] v@[k]).bytes() == raw.subrange(
                            k * 9,
                            k * 9 + 9,
                        )
                },
            r == Err::<Vec<WifiReadResultsRsp>, Lr1120Error>(Lr1120Error::Timeout)
                ==> final(self).wf() && exists|mid: Seq<BusEvent>|
                {
                    &&& #[trigger] write_cmd_history(
                        old(self).port.history(),
                        mid,
                        spec_wifi_read_results_req(index, nb, WifiResultFormat::Short),
                    )
                    &&& final(self).port.history() == mid + busy_polls(
                        old(self).spec_poll_budget() as nat,
                    )
                },
    {
        let req = wifi_read_results_req(index, nb, WifiResultFormat::Short);
        let cnt: usize = if nb <= 32 {
            nb as usize
        } else {
            32
        };
        let nb_byte: usize = cnt * 9;
        match self.write(req.as_slice()) {
            Ok(()) => {},
            Err(e) => {
                return Err(e);
            },
        }
        let ghost mid = self.port.history();
        let budget = self.poll_budget;
        let raw = match self.read_response(nb_byte, budget) {
            Ok(v) => v,
            Err(e) => {
                proof {
                    assert(write_cmd_history(
                        old(self).port.history(),
                        mid,
                        spec_wifi_read_results_req(index, nb, WifiResultFormat::Short),
                    ));
                    assert(old(self).port.history().is_prefix_of(self.port.history())) by {
                        assert(old(self).port.history() =~= self.port.history().subrange(
                            0,
                            old(self).port.history().len() as int,
                        ));
                    }
                }
                return Err(e);
            },
        };
        let mut out: Vec<WifiReadResultsRsp> = Vec::new();
        let mut i: usize = 0;
        while i < cnt
            invariant
                i <= cnt <= 32,
                raw@.len() == cnt * 9,
                out@.len() == i,
                forall|k: int|
                    0 <= k < i ==> (#[trigger] out@[k]).bytes() == raw@.subrange(
                        k * 9,
                        k * 9 + 9,
                    ),
            decreases cnt - i,
        {
            let chunk = vstd::slice::slice_subrange(raw.as_slice(), i * 9, i * 9 + 9);
            out.push(WifiReadResultsRsp::from_slice(chunk));
            i += 1;
        }
        proof {
            assert(write_cmd_history(old(self).port.history(), mid, spec_wifi_read_results_req(index, nb, WifiResultFormat::Short)));
            assert(old(self).port.history().is_prefix_of(self.port.history())) by {
                assert(old(self).port.history() =~= self.port.history().subrange(
                    0,
                    old(self).port.history().len() as int,
                ));
            }
        }
        Ok(out)
    }

    /// Return the long results (22 bytes each) of the previous Wi-Fi scan,
    /// for the beacon-search or beacon-and-packet acquisition modes.
    pub fn wifi_get_result_long(&mut self, index: u8, nb: u8) -> (r: Result<Vec<WifiReadLongResultsRsp>, Lr1120Error>)
        requires
            old(self).wf(),
        ensures
            preserves_frame(*old(self), *final(self)),
            r matches Ok(v) ==> final(self).wf() && v@.len() == (if nb <= 32 {
                nb as int
            } else {
                32
            }) && exists|mid: Seq<BusEvent>, raw: Seq<u8>|
                {
                    &&& write_cmd_history(old(self).port.history(), mid, spec_wifi_read_results_req(index, nb, WifiResultFormat::Long))
                    &&& #[trigger] read_phase_history(
                        mid,
                        final(self).port.history(),
                        raw,
                        old(self).spec_poll_budget(),
                    )
                    &&& raw.len() == v@.len() * 22
                    &&& forall|k: int|
                        0 <= k < v@.len() ==> (#[trigger] v@[k]).bytes() == raw.subrange(
                            k * 22,
                            k * 22 + 22,
                        )
                },
            r == Err::<Vec<WifiReadLongResultsRsp>, Lr1120Error>(Lr1120Error::Timeout)
                ==> final(self).wf() && exists|mid: Seq<BusEvent>|
                {
                    &&& #[trigger] write_cmd_history(
                        old(self).port.history(),
                        mid,
                        spec_wifi_read_results_req(index, nb, WifiResultFormat::Long),
                    )
                    &&& final(self).port.history() == mid + busy_polls(
                        old(self).spec_poll_budget() as nat,
                    )
                },
    {
        let req = wifi_read_results_req(index, nb, WifiResultFormat::Long);
        let cnt: usize = if nb <= 32 {
            nb as usize
        } else {
            32
        };
        let nb_byte: usize = cnt * 22;
        match self.write(req.as_slice()) {
            Ok(()) => {},
            Err(e) => {
                return Err(e);
            },
        }
        let ghost mid = self.port.history();
        let budget = self.poll_budget;
        let raw = match self.read_response(nb_byte, budget) {
            Ok(v) => v,
            Err(e) => {
                proof {
                    assert(write_cmd_history(
                        old(self).port.history(),
                        mid,
                        spec_wifi_read_results_req(index, nb, WifiResultFormat::Long),
                    ));
                    assert(old(self).port.history().is_prefix_of(self.port.history())) by {
                        assert(old(self).port.history() =~= self.port.history().subrange(
                            0,
                            old(self).port.history().len() as int,
                        ));
                    }
                }
                return Err(e);
            },
        };
        let mut out: Vec<WifiReadLongResultsRsp> = Vec::new();
        let mut i: usize = 0;
        while i < cnt
            invariant
                i <= cnt <= 32,
                raw@.len() == cnt * 22,
                out@.len() == i,
                forall|k: int|
                    0 <= k < i ==> (#[trigger] out@[k]).bytes() == raw@.subrange(
                        k * 22,
                        k * 22 + 22,
                    ),
            decreases cnt - i,
        {
            let chunk = vstd::slice::slice_subrange(raw.as_slice(), i * 22, i * 22 + 22);
            out.push(WifiReadLongResultsRsp::from_slice(chunk));
            i += 1;
        }
        proof {
            assert(write_cmd_history(old(self).port.history(), mid, spec_wifi_read_results_req(index, nb, WifiResultFormat::Long)));
            assert(old(self).port.history().is_prefix_of(self.port.history())) by {
                assert(old(self).port.history() =~= self.port.history().subrange(
                    0,
                    old(self).port.history().len() as int,
                ));
            }
        }
        Ok(out)
    }

    /// Return the extended results (79 bytes each) of the previous Wi-Fi
    /// scan.
    pub fn wifi_get_result_ext(&mut self, index: u8, nb: u8) -> (r: Result<Vec<WifiReadExtendedResultsRsp>, Lr1120Error>)
        requires
            old(self).wf(),
        ensures
            preserves_frame(*old(self), *final(self)),
            r matches Ok(v) ==> final(self).wf() && v@.len() == (if nb <= 12 {
                nb as int
            } else {
                12
            }) && exists|mid: Seq<BusEvent>, raw: Seq<u8>|
                {
                    &&& write_cmd_history(old(self).port.history(), mid, spec_wifi_read_results_req(index, nb, WifiResultFormat::Long))
                    &&& #[trigger] read_phase_history(
                        mid,
                        final(self).port.history(),
                        raw,
                        old(self).spec_poll_budget(),
                    )
                    &&& raw.len() == v@.len() * 79
                    &&& forall|k: int|
                        0 <= k < v@.len() ==> (#[trigger] v@[k]).bytes() == raw.subrange(
                            k * 79,
                            k * 79 + 79,
                        )
                },
            r == Err::<Vec<WifiReadExtendedResultsRsp>, Lr1120Error>(Lr1120Error::Timeout)
                ==> final(self).wf() && exists|mid: Seq<BusEvent>|
                {
                    &&& #[trigger] write_cmd_history(
                        old(self).port.history(),
                        mid,
                        spec_wifi_read_results_req(index, nb, WifiResultFormat::Long),
                    )
                    &&& final(self).port.history() == mid + busy_polls(
                        old(self).spec_poll_budget() as nat,
                    )
                },
    {
        let req = wifi_read_results_req(index, nb, WifiResultFormat::Long);
        let cnt: usize = if nb <= 12 {
            nb as usize
        } else {
            12
        };
        let nb_byte: usize = cnt * 79;
        match self.write(req.as_slice()) {
            Ok(()) => {},
            Err(e) => {
                return Err(e);
            },
        }
        let ghost mid = self.port.history();
        let budget = self.poll_budget;
        let raw = match self.read_response(nb_byte, budget) {
            Ok(v) => v,
            Err(e) => {
                proof {
                    assert(write_cmd_history(
                        old(self).port.history(),
                        mid,
                        spec_wifi_read_results_req(index, nb, WifiResultFormat::Long),
                    ));
                    assert(old(self).port.history().is_prefix_of(self.port.history())) by {
                        assert(old(self).port.history() =~= self.port.history().subrange(
                            0,
                            old(self).port.history().len() as int,
                        ));
                    }
                }
                return Err(e);
            },
        };
        let mut out: Vec<WifiReadExtendedResultsRsp> = Vec::new();
        let mut i: usize = 0;
        while i < cnt
            invariant
                i <= cnt <= 12,
                raw@.len() == cnt * 79,
                out@.len() == i,
                forall|k: int|
                    0 <= k < i ==> (#[trigger] out@[k]).bytes() == raw@.subrange(
                        k * 79,
                        k * 79 + 79,
                    ),
            decreases cnt - i,
        {
            let chunk = vstd::slice::slice_subrange(raw.as_slice(), i * 79, i * 79 + 79);
            out.push(WifiReadExtendedResultsRsp::from_slice(chunk));
            i += 1;
        }
        proof {
            assert(write_cmd_history(old(self).port.history(), mid, spec_wifi_read_results_req(index, nb, WifiResultFormat::Long)));
            assert(old(self).port.history().is_prefix_of(self.port.history())) by {
                assert(old(self).port.history() =~= self.port.history().subrange(
                    0,
                    old(self).port.history().len() as int,
                ));
            }
        }
        Ok(out)
    }

    /// Return the country code results (10 bytes each) of the previous
    /// country code scan.
    pub fn wifi_get_result_country(&mut self, index: u8, nb: u8) -> (r: Result<Vec<WifiReadCountryCodeResultsRsp>, Lr1120Error>)
        requires
            old(self).wf(),
        ensures
            preserves_frame(*old(self), *final(self)),
            r matches Ok(v) ==> final(self).wf() && v@.len() == (if nb <= 32 {
                nb as int
            } else {
                32
            }) && exists|mid: Seq<BusEvent>, raw: Seq<u8>|
                {
                    &&& write_cmd_history(old(self).port.history(), mid, spec_wifi_read_country_code_results_req(index, nb))
                    &&& #[trigger] read_phase_history(
                        mid,
                        final(self).port.history(),
                        raw,
                        old(self).spec_poll_budget(),
                    )
                    &&& raw.len() == v@.len() * 10
                    &&& forall|k: int|
                        0 <= k < v@.len() ==> (#[trigger] v@[k]).bytes() == raw.subrange(
                            k * 10,
                            k * 10 + 10,
                        )
                },
            r == Err::<Vec<WifiReadCountryCodeResultsRsp>, Lr1120Error>(Lr1120Error::Timeout)
                ==> final(self).wf() && exists|mid: Seq<BusEvent>|
                {
                    &&& #[trigger] write_cmd_history(
                        old(self).port.history(),
                        mid,
                        spec_wifi_read_country_code_results_req(index, nb),
                    )
                    &&& final(self).port.history() == mid + busy_polls(
                        old(self).spec_poll_budget() as nat,
                    )
                },
    {
        let req = wifi_read_country_code_results_req(index, nb);
        let cnt: usize = if nb <= 32 {
            nb as usize
        } else {
            32
        };
        let nb_byte: usize = cnt * 10;
        match self.write(req.as_slice()) {
            Ok(()) => {},
            Err(e) => {
                return Err(e);
            },
        }
        let ghost mid = self.port.history();
        let budget = self.poll_budget;
        let raw = match self.read_response(nb_byte, budget) {
            Ok(v) => v,
            Err(e) => {
                proof {
                    assert(write_cmd_history(
                        old(self).port.history(),
                        mid,
                        spec_wifi_read_country_code_results_req(index, nb),
                    ));
                    assert(old(self).port.history().is_prefix_of(self.port.history())) by {
                        assert(old(self).port.history() =~= self.port.history().subrange(
                            0,
                            old(self).port.history().len() as int,
                        ));
                    }
                }
                return Err(e);
            },
        };
        let mut out: Vec<WifiReadCountryCodeResultsRsp> = Vec::new();
        let mut i: usize = 0;
        while i < cnt
            invariant
                i <= cnt <= 32,
                raw@.len() == cnt * 10,
                out@.len() == i,
                forall|k: int|
                    0 <= k < i ==> (#[trigger] out@[k]).bytes() == raw@.subrange(
                        k * 10,
                        k * 10 + 10,
                    ),
            decreases cnt - i,
        {
            let chunk = vstd::slice::slice_subrange(raw.as_slice(), i * 10, i * 10 + 10);
            out.push(WifiReadCountryCodeResultsRsp::from_slice(chunk));
            i += 1;
        }
        proof {
            assert(write_cmd_history(old(self).port.history(), mid, spec_wifi_read_country_code_results_req(index, nb)));
            assert(old(self).port.history().is_prefix_of(self.port.history())) by {
                assert(old(self).port.history() =~= self.port.history().subrange(
                    0,
                    old(self).port.history().len() as int,
                ));
            }
        }
        Ok(out)
    }
}

} // verus!
