//! GNSS operations: constellation selection, scans, assistance data,
//! time handling and almanac management.

use vstd::prelude::*;

#[allow(unused_imports)]
use crate::Lr1120Error;
#[allow(unused_imports)]
use crate::bytes::{spec_u16_hi, spec_u16_lo, spec_u32_b0, spec_u32_b1, spec_u32_b2,
    spec_u32_b3, u16_hi, u16_lo, u32_b0, u32_b1, u32_b2, u32_b3};
use crate::cmd::cmd_gnss::{gnss_assisted_cmd, gnss_autonomous_cmd, spec_gnss_assisted_cmd,
    spec_gnss_autonomous_cmd, FetchTimeMode, GnssGetConsumptionRsp, GnssGetContextStatusRsp,
    GnssGetNbSvDetectedRsp, GnssGetResultSizeRsp, GnssGetSvVisibleRsp,
    GnssReadAlmanacStatusRsp, GnssReadAlmanacUpdatePeriodRsp, GnssReadAlmanacUpdateRsp,
    GnssReadAssistancePositionRsp, GnssReadConstellationToUseRsp, GnssReadDelayResetAPRsp,
    GnssReadDopplerSolverResRsp, GnssReadLastScanModeLaunchedRsp,
    GnssReadSupportedConstellationsRsp, GnssReadTimeRsp, GnssReadVersionRsp,
    GnssReadWNRolloverRsp, GnssReadWarmStartStatusRsp, GnssScanMode, GnssScanType, BeidouType,
    gnss_almanac_update_from_sat_cmd, gnss_config_almanac_update_period_cmd,
    gnss_config_delay_reset_ap_cmd, gnss_fetch_time_cmd, gnss_get_consumption_req,
    gnss_get_nb_sv_detected_req, gnss_get_result_size_req, gnss_get_sv_visible_req,
    gnss_get_sv_warm_start_req, gnss_push_dm_msg_cmd, gnss_push_solver_msg_cmd,
    gnss_read_almanac_status_req, gnss_read_almanac_update_period_req,
    gnss_read_almanac_update_req, gnss_read_assistance_position_req,
    gnss_read_constellation_to_use_req, gnss_read_delay_reset_ap_req,
    gnss_read_doppler_solver_res_req, gnss_read_last_scan_mode_launched_req,
    gnss_read_supported_constellations_req, gnss_read_time_req, gnss_read_version_req,
    gnss_read_warm_start_status_req, gnss_read_wn_rollover_req, gnss_reset_position_cmd,
    gnss_reset_time_cmd, gnss_scan_cmd, gnss_set_almanac_update_cmd,
    gnss_set_assistance_position_cmd, gnss_set_constellation_to_use_cmd, gnss_set_mode_cmd,
    gnss_set_time_cmd, gnss_write_bit_mask_sat_activated_adv_cmd,
    gnss_write_bit_mask_sat_activated_cmd, spec_gnss_almanac_update_from_sat_cmd,
    spec_gnss_config_almanac_update_period_cmd, spec_gnss_config_delay_reset_ap_cmd,
    spec_gnss_fetch_time_cmd, spec_gnss_get_consumption_req, spec_gnss_get_nb_sv_detected_req,
    spec_gnss_get_result_size_req, spec_gnss_get_sv_visible_req,
    spec_gnss_get_sv_warm_start_req, spec_gnss_push_dm_msg_cmd, spec_gnss_push_solver_msg_cmd,
    spec_gnss_read_almanac_status_req, spec_gnss_read_almanac_update_period_req,
    spec_gnss_read_almanac_update_req, spec_gnss_read_assistance_position_req,
    spec_gnss_read_constellation_to_use_req, spec_gnss_read_delay_reset_ap_req,
    spec_gnss_read_doppler_solver_res_req, spec_gnss_read_last_scan_mode_launched_req,
    spec_gnss_read_supported_constellations_req, spec_gnss_read_time_req,
    spec_gnss_read_version_req, spec_gnss_read_warm_start_status_req,
    spec_gnss_read_wn_rollover_req, spec_gnss_reset_position_cmd, spec_gnss_reset_time_cmd,
    spec_gnss_scan_cmd, spec_gnss_set_almanac_update_cmd,
    spec_gnss_set_assistance_position_cmd, spec_gnss_set_constellation_to_use_cmd,
    spec_gnss_set_mode_cmd, spec_gnss_set_time_cmd,
    spec_gnss_write_bit_mask_sat_activated_adv_cmd,
    spec_gnss_write_bit_mask_sat_activated_cmd};
use crate::engine::{Lr1120, preserves_frame, read_phase_history, write_cmd_history,
    write_then_read_history};
use crate::port::{BusEvent, SpiPort, busy_polls, zero_bytes};

verus! {

/// GNSS scan configuration.
#[derive(Debug, Clone)]
pub struct GnssScanCfg {
    /// Continue the scan even without strong satellites.
    pub best_effort: bool,
    /// Include the pseudo-range in the NAV message.
    pub pseudo_range: bool,
    /// Include Doppler information in the NAV message.
    pub doppler_info: bool,
    /// Include bit changes in the NAV message.
    pub bit_changes: bool,
    /// Maximum number of satellites reported.
    pub max_sv: u8,
}

impl GnssScanCfg {
    /// Scan configuration with pseudo-range and Doppler information, and
    /// the satellite cap left to the chip in best-effort mode.
    pub fn new(best_effort: bool) -> (r: GnssScanCfg)
        ensures
            r.best_effort == best_effort,
            r.pseudo_range && r.doppler_info && !r.bit_changes,
            r.max_sv == (if best_effort {
                0u8
            } else {
                4u8
            }),
    {
        GnssScanCfg {
            best_effort,
            pseudo_range: true,
            doppler_info: true,
            bit_changes: false,
            max_sv: if best_effort {
                0
            } else {
                4
            },
        }
    }
}

/// Almanac header used for an update.
#[derive(Debug, Clone, Copy)]
pub struct AlmanacHeader {
    /// Almanac date.
    pub date: u16,
    /// Almanac CRC.
    pub crc: u32,
}

/// The 20-byte wire form of an almanac header.
pub open spec fn spec_almanac_header_bytes(hdr: AlmanacHeader) -> Seq<u8> {
    seq![
        128u8,
        spec_u16_hi(hdr.date),
        spec_u16_lo(hdr.date),
        spec_u32_b3(hdr.crc),
        spec_u32_b2(hdr.crc),
        spec_u32_b1(hdr.crc),
        spec_u32_b0(hdr.crc),
    ] + zero_bytes(13)
}

impl AlmanacHeader {
    /// Create a new almanac header.
    pub fn new(date: u16, crc: u32) -> (r: AlmanacHeader)
        ensures
            r.date == date && r.crc == crc,
    {
        AlmanacHeader { date, crc }
    }

    /// The 20-byte wire form of the header.
    pub fn to_bytes(&self) -> (r: [u8; 20])
        ensures
            r@ == spec_almanac_header_bytes(*self),
    {
        let r = [
            128,
            u16_hi(self.date),
            u16_lo(self.date),
            u32_b3(self.crc),
            u32_b2(self.crc),
            u32_b1(self.crc),
            u32_b0(self.crc),
            0,
            0,
            0,
            0,
            0,
            0,
            0,
            0,
            0,
            0,
            0,
            0,
            0,
        ];
        proof {
            assert(r@ =~= spec_almanac_header_bytes(*self));
        }
        r
    }
}

/// Almanac record for one satellite.
#[derive(Debug, Clone, Copy)]
pub struct AlmanacSv {
    /// Satellite identifier.
    pub sv_id: u8,
    /// Almanac content bytes.
    pub content: [u8; 15],
    /// CA code.
    pub ca_code: u16,
    /// Modulation.
    pub modulation: u8,
    /// Constellation identifier.
    pub const_id: u8,
}

/// The 20-byte wire form of one satellite almanac record.
pub open spec fn spec_almanac_sv_bytes(sv: AlmanacSv) -> Seq<u8> {
    seq![sv.sv_id] + sv.content@ + seq![
        spec_u16_hi(sv.ca_code),
        spec_u16_lo(sv.ca_code),
        sv.modulation,
        sv.const_id,
    ]
}

/// The concatenated wire form of a list of satellite almanac records.
pub open spec fn spec_almanac_svs_bytes(svs: Seq<AlmanacSv>) -> Seq<u8>
    decreases svs.len(),
{
    if svs.len() == 0 {
        Seq::empty()
    } else {
        spec_almanac_svs_bytes(svs.drop_last()) + spec_almanac_sv_bytes(svs.last())
    }
}

impl AlmanacSv {
    /// The 20-byte wire form of the record.
    pub fn to_bytes(&self) -> (r: [u8; 20])
        ensures
            r@ == spec_almanac_sv_bytes(*self),
    {
        let r = [
            self.sv_id,
            self.content[0],
            self.content[1],
            self.content[2],
            self.content[3],
            self.content[4],
            self.content[5],
            self.content[6],
            self.content[7],
            self.content[8],
            self.content[9],
            self.content[10],
            self.content[11],
            self.content[12],
            self.content[13],
            self.content[14],
            u16_hi(self.ca_code),
            u16_lo(self.ca_code),
            self.modulation,
            self.const_id,
        ];
        proof {
            assert(r@ =~= spec_almanac_sv_bytes(*self));
        }
        r
    }
}

/// Size of the next almanac batch: at most 25 records.
pub open spec fn spec_chunk_len(len: int) -> int {
    if len < 25 {
        len
    } else {
        25
    }
}

/// The history of a streamed almanac update: the records decompose from
/// the front into batches of at most 25, each sent as one write whose
/// trailing payload is the batch's wire form.
pub open spec fn almanac_chunks_history(
    pre: Seq<BusEvent>,
    post: Seq<BusEvent>,
    svs: Seq<AlmanacSv>,
) -> bool
    decreases svs.len(),
{
    if svs.len() == 0 {
        post == pre
    } else {
        exists|mid: Seq<BusEvent>|
            #![trigger pre.is_prefix_of(mid)]
            {
                &&& pre.is_prefix_of(mid)
                &&& write_cmd_history(
                    pre,
                    mid,
                    seq![0x04u8, 0x0Eu8] + spec_almanac_svs_bytes(
                        svs.take(spec_chunk_len(svs.len() as int)),
                    ),
                )
                &&& almanac_chunks_history(mid, post, svs.skip(spec_chunk_len(svs.len() as int)))
            }
    }
}

impl<P: SpiPort> Lr1120<P> {

    /// Configure GNSS scanning for the selected constellations (GPS and/or
    /// BeiDou).
    pub fn gnss_set_constellation(&mut self, gps: bool, beidou: bool) -> (r: Result<(), Lr1120Error>)
        requires
            old(self).wf(),
        ensures
            preserves_frame(*old(self), *final(self)),
            r is Ok ==> final(self).wf() && write_cmd_history(
                old(self).port.history(),
                final(self).port.history(),
                spec_gnss_set_constellation_to_use_cmd(gps, beidou),
            ),
    {
        let req = gnss_set_constellation_to_use_cmd(gps, beidou);
        self.write(req.as_slice())
    }

    /// Read the selected constellations.
    pub fn gnss_get_constellation(&mut self) -> (r: Result<GnssReadConstellationToUseRsp, Lr1120Error>)
        requires
            old(self).wf(),
        ensures
            preserves_frame(*old(self), *final(self)),
            r matches Ok(v) ==> final(self).wf() && exists|rsp: Seq<u8>|
                {
                    &&& rsp.len() == 2
                    &&& #[trigger] write_then_read_history(
                        old(self).port.history(),
                        final(self).port.history(),
                        spec_gnss_read_constellation_to_use_req(),
                        rsp,
                        old(self).spec_poll_budget(),
                    )
                    &&& crate::status::spec_status_byte_check(rsp[0]) is Ok
                    &&& v.bytes() == rsp
                },
    {
        let req = gnss_read_constellation_to_use_req();
        let budget = self.poll_budget;
        let rsp = match self.read_checked(req.as_slice(), 2, budget) {
            Ok(v) => v,
            Err(e) => {
                return Err(e);
            },
        };
        Ok(GnssReadConstellationToUseRsp::from_bytes(rsp.as_slice()))
    }

    /// Read the supported constellations.
    pub fn gnss_supported_constellation(&mut self) -> (r: Result<GnssReadSupportedConstellationsRsp, Lr1120Error>)
        requires
            old(self).wf(),
        ensures
            preserves_frame(*old(self), *final(self)),
            r matches Ok(v) ==> final(self).wf() && exists|rsp: Seq<u8>|
                {
                    &&& rsp.len() == 2
                    &&& #[trigger] write_then_read_history(
                        old(self).port.history(),
                        final(self).port.history(),
                        spec_gnss_read_supported_constellations_req(),
                        rsp,
                        old(self).spec_poll_budget(),
                    )
                    &&& crate::status::spec_status_byte_check(rsp[0]) is Ok
                    &&& v.bytes() == rsp
                },
    {
        let req = gnss_read_supported_constellations_req();
        let budget = self.poll_budget;
        let rsp = match self.read_checked(req.as_slice(), 2, budget) {
            Ok(v) => v,
            Err(e) => {
                return Err(e);
            },
        };
        Ok(GnssReadSupportedConstellationsRsp::from_bytes(rsp.as_slice()))
    }

    /// Configure GNSS for single or multiple scanning.
    pub fn gnss_set_mode(&mut self, mode: GnssScanMode) -> (r: Result<(), Lr1120Error>)
        requires
            old(self).wf(),
        ensures
            preserves_frame(*old(self), *final(self)),
            r is Ok ==> final(self).wf() && write_cmd_history(
                old(self).port.history(),
                final(self).port.history(),
                spec_gnss_set_mode_cmd(mode),
            ),
    {
        let req = gnss_set_mode_cmd(mode);
        self.write(req.as_slice())
    }

    /// Capture GNSS signals, independently of assistance data availability.
    /// Resets the GNSS results and keeps BUSY high during the scan.  Use
    /// sleep with retention to preserve the assistance data.
    pub fn gnss_scan(&mut self, cfg: GnssScanCfg) -> (r: Result<(), Lr1120Error>)
        requires
            old(self).wf(),
        ensures
            preserves_frame(*old(self), *final(self)),
            r is Ok ==> final(self).wf() && write_cmd_history(
                old(self).port.history(),
                final(self).port.history(),
                spec_gnss_scan_cmd(cfg.best_effort, cfg.pseudo_range, cfg.doppler_info, cfg.bit_changes, cfg.max_sv),
            ),
    {
        let req = gnss_scan_cmd(cfg.best_effort, cfg.pseudo_range, cfg.doppler_info, cfg.bit_changes, cfg.max_sv);
        self.write(req.as_slice())
    }

    /// Capture GNSS signals in autonomous mode, with no assistance
    /// information available (legacy scan).  Resets the previous GNSS
    /// results.  The time is the GPS time in seconds since 1980-01-06.
    pub fn gnss_autonomous(&mut self, time: u32, cfg: GnssScanCfg) -> (r: Result<(), Lr1120Error>)
        requires
            old(self).wf(),
        ensures
            preserves_frame(*old(self), *final(self)),
            r is Ok ==> final(self).wf() && write_cmd_history(
                old(self).port.history(),
                final(self).port.history(),
                spec_gnss_autonomous_cmd(
                    time,
                    cfg.best_effort,
                    cfg.pseudo_range,
                    cfg.doppler_info,
                    cfg.bit_changes,
                    cfg.max_sv,
                ),
            ),
    {
        let req = gnss_autonomous_cmd(time, cfg.best_effort, cfg.pseudo_range, cfg.doppler_info,
            cfg.bit_changes, cfg.max_sv);
        self.write(req.as_slice())
    }

    /// Capture GNSS signals in assisted mode (legacy scan).  Resets the
    /// previous GNSS results.  The time is the GPS time in seconds since
    /// 1980-01-06.
    pub fn gnss_assisted(&mut self, time: u32, cfg: GnssScanCfg) -> (r: Result<(), Lr1120Error>)
        requires
            old(self).wf(),
        ensures
            preserves_frame(*old(self), *final(self)),
            r is Ok ==> final(self).wf() && write_cmd_history(
                old(self).port.history(),
                final(self).port.history(),
                spec_gnss_assisted_cmd(
                    time,
                    cfg.best_effort,
                    cfg.pseudo_range,
                    cfg.doppler_info,
                    cfg.bit_changes,
                    cfg.max_sv,
                ),
            ),
    {
        let req = gnss_assisted_cmd(time, cfg.best_effort, cfg.pseudo_range, cfg.doppler_info,
            cfg.bit_changes, cfg.max_sv);
        self.write(req.as_slice())
    }

    /// Configure the approximate position for GNSS assisted mode.
    pub fn gnss_set_assist_pos(&mut self, latitude: u16, longitude: u16) -> (r: Result<(), Lr1120Error>)
        requires
            old(self).wf(),
        ensures
            preserves_frame(*old(self), *final(self)),
            r is Ok ==> final(self).wf() && write_cmd_history(
                old(self).port.history(),
                final(self).port.history(),
                spec_gnss_set_assistance_position_cmd(latitude, longitude),
            ),
    {
        let req = gnss_set_assistance_position_cmd(latitude, longitude);
        self.write(req.as_slice())
    }

    /// Read the approximate position used for GNSS assisted mode.
    pub fn gnss_get_assist_pos(&mut self) -> (r: Result<GnssReadAssistancePositionRsp, Lr1120Error>)
        requires
            old(self).wf(),
        ensures
            preserves_frame(*old(self), *final(self)),
            r matches Ok(v) ==> final(self).wf() && exists|rsp: Seq<u8>|
                {
                    &&& rsp.len() == 5
                    &&& #[trigger] write_then_read_history(
                        old(self).port.history(),
                        final(self).port.history(),
                        spec_gnss_read_assistance_position_req(),
                        rsp,
                        old(self).spec_poll_budget(),
                    )
                    &&& crate::status::spec_status_byte_check(rsp[0]) is Ok
                    &&& v.bytes() == rsp
                },
    {
        let req = gnss_read_assistance_position_req();
        let budget = self.poll_budget;
        let rsp = match self.read_checked(req.as_slice(), 5, budget) {
            Ok(v) => v,
            Err(e) => {
                return Err(e);
            },
        };
        Ok(GnssReadAssistancePositionRsp::from_bytes(rsp.as_slice()))
    }

    /// Read the GNSS context status: firmware version, almanac CRC, error
    /// codes and frequency search space.
    pub fn gnss_get_context_status(&mut self) -> (r: Result<GnssGetContextStatusRsp, Lr1120Error>)
        requires
            old(self).wf(),
        ensures
            preserves_frame(*old(self), *final(self)),
            r matches Ok(v) ==> final(self).wf() && exists|rsp: Seq<u8>|
                {
                    &&& rsp.len() == 10
                    &&& #[trigger] write_then_read_history(
                        old(self).port.history(),
                        final(self).port.history(),
                        spec_gnss_get_consumption_req(),
                        rsp,
                        old(self).spec_poll_budget(),
                    )
                    &&& crate::status::spec_status_byte_check(rsp[0]) is Ok
                    &&& v.bytes() == rsp
                },
    {
        let req = gnss_get_consumption_req();
        let budget = self.poll_budget;
        let rsp = match self.read_checked(req.as_slice(), 10, budget) {
            Ok(v) => v,
            Err(e) => {
                return Err(e);
            },
        };
        Ok(GnssGetContextStatusRsp::from_bytes(rsp.as_slice()))
    }

    /// Get the GNSS firmware and almanac versions.
    pub fn gnss_get_version(&mut self) -> (r: Result<GnssReadVersionRsp, Lr1120Error>)
        requires
            old(self).wf(),
        ensures
            preserves_frame(*old(self), *final(self)),
            r matches Ok(v) ==> final(self).wf() && exists|rsp: Seq<u8>|
                {
                    &&& rsp.len() == 3
                    &&& #[trigger] write_then_read_history(
                        old(self).port.history(),
                        final(self).port.history(),
                        spec_gnss_read_version_req(),
                        rsp,
                        old(self).spec_poll_budget(),
                    )
                    &&& crate::status::spec_status_byte_check(rsp[0]) is Ok
                    &&& v.bytes() == rsp
                },
    {
        let req = gnss_read_version_req();
        let budget = self.poll_budget;
        let rsp = match self.read_checked(req.as_slice(), 3, budget) {
            Ok(v) => v,
            Err(e) => {
                return Err(e);
            },
        };
        Ok(GnssReadVersionRsp::from_bytes(rsp.as_slice()))
    }

    /// Enable the almanac update for the GPS/BeiDou constellations.
    pub fn gnss_set_almanac_update(&mut self, gps: bool, beidou: bool) -> (r: Result<(), Lr1120Error>)
        requires
            old(self).wf(),
        ensures
            preserves_frame(*old(self), *final(self)),
            r is Ok ==> final(self).wf() && write_cmd_history(
                old(self).port.history(),
                final(self).port.history(),
                spec_gnss_set_almanac_update_cmd(gps, beidou),
            ),
    {
        let req = gnss_set_almanac_update_cmd(gps, beidou);
        self.write(req.as_slice())
    }

    /// Get the almanac update configuration.
    pub fn gnss_get_almanac_update(&mut self) -> (r: Result<GnssReadAlmanacUpdateRsp, Lr1120Error>)
        requires
            old(self).wf(),
        ensures
            preserves_frame(*old(self), *final(self)),
            r matches Ok(v) ==> final(self).wf() && exists|rsp: Seq<u8>|
                {
                    &&& rsp.len() == 2
                    &&& #[trigger] write_then_read_history(
                        old(self).port.history(),
                        final(self).port.history(),
                        spec_gnss_read_almanac_update_req(),
                        rsp,
                        old(self).spec_poll_budget(),
                    )
                    &&& crate::status::spec_status_byte_check(rsp[0]) is Ok
                    &&& v.bytes() == rsp
                },
    {
        let req = gnss_read_almanac_update_req();
        let budget = self.poll_budget;
        let rsp = match self.read_checked(req.as_slice(), 2, budget) {
            Ok(v) => v,
            Err(e) => {
                return Err(e);
            },
        };
        Ok(GnssReadAlmanacUpdateRsp::from_bytes(rsp.as_slice()))
    }

    /// Return the result size in bytes.
    pub fn gnss_get_result_size(&mut self) -> (r: Result<u16, Lr1120Error>)
        requires
            old(self).wf(),
        ensures
            preserves_frame(*old(self), *final(self)),
            r matches Ok(v) ==> final(self).wf() && exists|rsp: Seq<u8>|
                {
                    &&& rsp.len() == 3
                    &&& #[trigger] write_then_read_history(
                        old(self).port.history(),
                        final(self).port.history(),
                        spec_gnss_get_result_size_req(),
                        rsp,
                        old(self).spec_poll_budget(),
                    )
                    &&& crate::status::spec_status_byte_check(rsp[0]) is Ok
                    &&& v == crate::bytes::spec_be16(rsp[1], rsp[2])
                },
    {
        let req = gnss_get_result_size_req();
        let budget = self.poll_budget;
        let rsp = match self.read_checked(req.as_slice(), 3, budget) {
            Ok(v) => v,
            Err(e) => {
                return Err(e);
            },
        };
        let parsed = GnssGetResultSizeRsp::from_bytes(rsp.as_slice());
        Ok(parsed.result_size())
    }

    /// Return the number of satellite vehicles detected in the last scan.
    pub fn gnss_get_nb_sv(&mut self) -> (r: Result<u8, Lr1120Error>)
        requires
            old(self).wf(),
        ensures
            preserves_frame(*old(self), *final(self)),
            r matches Ok(v) ==> final(self).wf() && exists|rsp: Seq<u8>|
                {
                    &&& rsp.len() == 2
                    &&& #[trigger] write_then_read_history(
                        old(self).port.history(),
                        final(self).port.history(),
                        spec_gnss_get_nb_sv_detected_req(),
                        rsp,
                        old(self).spec_poll_budget(),
                    )
                    &&& crate::status::spec_status_byte_check(rsp[0]) is Ok
                    &&& v == rsp[1]
                },
    {
        let req = gnss_get_nb_sv_detected_req();
        let budget = self.poll_budget;
        let rsp = match self.read_checked(req.as_slice(), 2, budget) {
            Ok(v) => v,
            Err(e) => {
                return Err(e);
            },
        };
        let parsed = GnssGetNbSvDetectedRsp::from_bytes(rsp.as_slice());
        Ok(parsed.nb_sv())
    }

    /// Return the number of satellite vehicles visible for a given time,
    /// position and constellation.
    pub fn gnss_get_nb_sv_filt(&mut self, time: u32, latitude: u16, longitude: u16, gps: bool, beidou: bool) -> (r: Result<u8, Lr1120Error>)
        requires
            old(self).wf(),
        ensures
            preserves_frame(*old(self), *final(self)),
            r matches Ok(v) ==> final(self).wf() && exists|rsp: Seq<u8>|
                {
                    &&& rsp.len() == 2
                    &&& #[trigger] write_then_read_history(
                        old(self).port.history(),
                        final(self).port.history(),
                        spec_gnss_get_sv_visible_req(time, latitude, longitude, gps, beidou),
                        rsp,
                        old(self).spec_poll_budget(),
                    )
                    &&& crate::status::spec_status_byte_check(rsp[0]) is Ok
                    &&& v == rsp[1]
                },
    {
        let req = gnss_get_sv_visible_req(time, latitude, longitude, gps, beidou);
        let budget = self.poll_budget;
        let rsp = match self.read_checked(req.as_slice(), 2, budget) {
            Ok(v) => v,
            Err(e) => {
                return Err(e);
            },
        };
        let parsed = GnssGetSvVisibleRsp::from_bytes(rsp.as_slice());
        Ok(parsed.nb_sv_visible())
    }

    /// Configure the delay after which the chip resets the assistance
    /// position and switches from assisted to cold-start scanning.
    pub fn gnss_set_delay_reset_assist(&mut self, delay: u32) -> (r: Result<(), Lr1120Error>)
        requires
            old(self).wf(),
        ensures
            preserves_frame(*old(self), *final(self)),
            r is Ok ==> final(self).wf() && write_cmd_history(
                old(self).port.history(),
                final(self).port.history(),
                spec_gnss_config_delay_reset_ap_cmd(delay),
            ),
    {
        let req = gnss_config_delay_reset_ap_cmd(delay);
        self.write(req.as_slice())
    }

    /// Return the reset delay configured for the assistance position.
    pub fn gnss_get_delay_reset_assist(&mut self) -> (r: Result<u32, Lr1120Error>)
        requires
            old(self).wf(),
        ensures
            preserves_frame(*old(self), *final(self)),
            r matches Ok(v) ==> final(self).wf() && exists|rsp: Seq<u8>|
                {
                    &&& rsp.len() == 4
                    &&& #[trigger] write_then_read_history(
                        old(self).port.history(),
                        final(self).port.history(),
                        spec_gnss_read_delay_reset_ap_req(),
                        rsp,
                        old(self).spec_poll_budget(),
                    )
                    &&& crate::status::spec_status_byte_check(rsp[0]) is Ok
                    &&& v == (((rsp[1] as u32) << 16) | ((rsp[2] as u32) << 8) | (rsp[3] as u32))
                },
    {
        let req = gnss_read_delay_reset_ap_req();
        let budget = self.poll_budget;
        let rsp = match self.read_checked(req.as_slice(), 4, budget) {
            Ok(v) => v,
            Err(e) => {
                return Err(e);
            },
        };
        let parsed = GnssReadDelayResetAPRsp::from_bytes(rsp.as_slice());
        Ok(parsed.delay())
    }

    /// Reset the assistance position.
    pub fn gnss_reset_assist(&mut self) -> (r: Result<(), Lr1120Error>)
        requires
            old(self).wf(),
        ensures
            preserves_frame(*old(self), *final(self)),
            r is Ok ==> final(self).wf() && write_cmd_history(
                old(self).port.history(),
                final(self).port.history(),
                spec_gnss_reset_position_cmd(),
            ),
    {
        let req = gnss_reset_position_cmd();
        self.write(req.as_slice())
    }

    /// Push a message from the GNSS solver to the chip (for example an
    /// assistance position update).
    pub fn gnss_push_solver_msg(&mut self, msg: &[u8]) -> (r: Result<(), Lr1120Error>)
        requires
            old(self).wf(),
        ensures
            preserves_frame(*old(self), *final(self)),
            r is Ok ==> final(self).wf() && write_cmd_history(
                old(self).port.history(),
                final(self).port.history(),
                spec_gnss_push_solver_msg_cmd() + msg@,
            ),
    {
        let req = gnss_push_solver_msg_cmd();
        self.write_with_trailing_payload(req.as_slice(), msg)
    }

    /// Push a message from the LoRaWAN network to the chip.
    pub fn gnss_push_dm_msg(&mut self, msg: &[u8]) -> (r: Result<(), Lr1120Error>)
        requires
            old(self).wf(),
        ensures
            preserves_frame(*old(self), *final(self)),
            r is Ok ==> final(self).wf() && write_cmd_history(
                old(self).port.history(),
                final(self).port.history(),
                spec_gnss_push_dm_msg_cmd() + msg@,
            ),
    {
        let req = gnss_push_dm_msg_cmd();
        self.write_with_trailing_payload(req.as_slice(), msg)
    }

    /// Read the duration of the radio capture and CPU processing phases of
    /// the last scan.
    pub fn gnss_get_consumption(&mut self) -> (r: Result<GnssGetConsumptionRsp, Lr1120Error>)
        requires
            old(self).wf(),
        ensures
            preserves_frame(*old(self), *final(self)),
            r matches Ok(v) ==> final(self).wf() && exists|rsp: Seq<u8>|
                {
                    &&& rsp.len() == 9
                    &&& #[trigger] write_then_read_history(
                        old(self).port.history(),
                        final(self).port.history(),
                        spec_gnss_get_consumption_req(),
                        rsp,
                        old(self).spec_poll_budget(),
                    )
                    &&& crate::status::spec_status_byte_check(rsp[0]) is Ok
                    &&& v.bytes() == rsp
                },
    {
        let req = gnss_get_consumption_req();
        let budget = self.poll_budget;
        let rsp = match self.read_checked(req.as_slice(), 9, budget) {
            Ok(v) => v,
            Err(e) => {
                return Err(e);
            },
        };
        Ok(GnssGetConsumptionRsp::from_bytes(rsp.as_slice()))
    }

    /// Return the type of scan launched during the last scan.
    pub fn gnss_get_scan_type(&mut self) -> (r: Result<GnssScanType, Lr1120Error>)
        requires
            old(self).wf(),
        ensures
            preserves_frame(*old(self), *final(self)),
            r matches Ok(v) ==> final(self).wf() && exists|rsp: Seq<u8>|
                {
                    &&& rsp.len() == 2
                    &&& #[trigger] write_then_read_history(
                        old(self).port.history(),
                        final(self).port.history(),
                        spec_gnss_read_last_scan_mode_launched_req(),
                        rsp,
                        old(self).spec_poll_budget(),
                    )
                    &&& crate::status::spec_status_byte_check(rsp[0]) is Ok
                    &&& v == GnssScanType::spec_from_code(rsp[1])
                },
    {
        let req = gnss_read_last_scan_mode_launched_req();
        let budget = self.poll_budget;
        let rsp = match self.read_checked(req.as_slice(), 2, budget) {
            Ok(v) => v,
            Err(e) => {
                return Err(e);
            },
        };
        let parsed = GnssReadLastScanModeLaunchedRsp::from_bytes(rsp.as_slice());
        Ok(parsed.gnss_scan_type())
    }

    /// Determine the time by demodulating satellite signals.
    pub fn gnss_fetch_time(&mut self, best_effort: bool, mode: FetchTimeMode) -> (r: Result<(), Lr1120Error>)
        requires
            old(self).wf(),
        ensures
            preserves_frame(*old(self), *final(self)),
            r is Ok ==> final(self).wf() && write_cmd_history(
                old(self).port.history(),
                final(self).port.history(),
                spec_gnss_fetch_time_cmd(best_effort, mode),
            ),
    {
        let req = gnss_fetch_time_cmd(best_effort, mode);
        self.write(req.as_slice())
    }

    /// Return the GPS time.
    pub fn gnss_get_time(&mut self) -> (r: Result<GnssReadTimeRsp, Lr1120Error>)
        requires
            old(self).wf(),
        ensures
            preserves_frame(*old(self), *final(self)),
            r matches Ok(v) ==> final(self).wf() && exists|rsp: Seq<u8>|
                {
                    &&& rsp.len() == 9
                    &&& #[trigger] write_then_read_history(
                        old(self).port.history(),
                        final(self).port.history(),
                        spec_gnss_read_time_req(),
                        rsp,
                        old(self).spec_poll_budget(),
                    )
                    &&& crate::status::spec_status_byte_check(rsp[0]) is Ok
                    &&& v.bytes() == rsp
                },
    {
        let req = gnss_read_time_req();
        let budget = self.poll_budget;
        let rsp = match self.read_checked(req.as_slice(), 9, budget) {
            Ok(v) => v,
            Err(e) => {
                return Err(e);
            },
        };
        Ok(GnssReadTimeRsp::from_bytes(rsp.as_slice()))
    }

    /// Reset the GPS time.
    pub fn gnss_reset_time(&mut self) -> (r: Result<(), Lr1120Error>)
        requires
            old(self).wf(),
        ensures
            preserves_frame(*old(self), *final(self)),
            r is Ok ==> final(self).wf() && write_cmd_history(
                old(self).port.history(),
                final(self).port.history(),
                spec_gnss_reset_time_cmd(),
            ),
    {
        let req = gnss_reset_time_cmd();
        self.write(req.as_slice())
    }

    /// Set the chip's GPS time from the host.
    pub fn gnss_set_time(&mut self, time: u32, accuracy: u16) -> (r: Result<(), Lr1120Error>)
        requires
            old(self).wf(),
        ensures
            preserves_frame(*old(self), *final(self)),
            r is Ok ==> final(self).wf() && write_cmd_history(
                old(self).port.history(),
                final(self).port.history(),
                spec_gnss_set_time_cmd(time, accuracy),
            ),
    {
        let req = gnss_set_time_cmd(time, accuracy);
        self.write(req.as_slice())
    }

    /// Read the assistance position calculated by the 2D solver.
    pub fn gnss_get_doppler(&mut self) -> (r: Result<GnssReadDopplerSolverResRsp, Lr1120Error>)
        requires
            old(self).wf(),
        ensures
            preserves_frame(*old(self), *final(self)),
            r matches Ok(v) ==> final(self).wf() && exists|rsp: Seq<u8>|
                {
                    &&& rsp.len() == 19
                    &&& #[trigger] write_then_read_history(
                        old(self).port.history(),
                        final(self).port.history(),
                        spec_gnss_read_doppler_solver_res_req(),
                        rsp,
                        old(self).spec_poll_budget(),
                    )
                    &&& crate::status::spec_status_byte_check(rsp[0]) is Ok
                    &&& v.bytes() == rsp
                },
    {
        let req = gnss_read_doppler_solver_res_req();
        let budget = self.poll_budget;
        let rsp = match self.read_checked(req.as_slice(), 19, budget) {
            Ok(v) => v,
            Err(e) => {
                return Err(e);
            },
        };
        Ok(GnssReadDopplerSolverResRsp::from_bytes(rsp.as_slice()))
    }

    /// Read the number of GPS week-number rollovers (one every 1024 weeks).
    pub fn gnss_get_wn_rollover(&mut self) -> (r: Result<GnssReadWNRolloverRsp, Lr1120Error>)
        requires
            old(self).wf(),
        ensures
            preserves_frame(*old(self), *final(self)),
            r matches Ok(v) ==> final(self).wf() && exists|rsp: Seq<u8>|
                {
                    &&& rsp.len() == 3
                    &&& #[trigger] write_then_read_history(
                        old(self).port.history(),
                        final(self).port.history(),
                        spec_gnss_read_wn_rollover_req(),
                        rsp,
                        old(self).spec_poll_budget(),
                    )
                    &&& crate::status::spec_status_byte_check(rsp[0]) is Ok
                    &&& v.bytes() == rsp
                },
    {
        let req = gnss_read_wn_rollover_req();
        let budget = self.poll_budget;
        let rsp = match self.read_checked(req.as_slice(), 3, budget) {
            Ok(v) => v,
            Err(e) => {
                return Err(e);
            },
        };
        Ok(GnssReadWNRolloverRsp::from_bytes(rsp.as_slice()))
    }

    /// Read the number of visible satellites and the time since the last
    /// update of the detected satellite list for the constellation.
    pub fn gnss_get_warm_start_status(&mut self, gps: bool, beidou: bool) -> (r: Result<GnssReadWarmStartStatusRsp, Lr1120Error>)
        requires
            old(self).wf(),
        ensures
            preserves_frame(*old(self), *final(self)),
            r matches Ok(v) ==> final(self).wf() && exists|rsp: Seq<u8>|
                {
                    &&& rsp.len() == 6
                    &&& #[trigger] write_then_read_history(
                        old(self).port.history(),
                        final(self).port.history(),
                        spec_gnss_read_warm_start_status_req(gps, beidou),
                        rsp,
                        old(self).spec_poll_budget(),
                    )
                    &&& crate::status::spec_status_byte_check(rsp[0]) is Ok
                    &&& v.bytes() == rsp
                },
    {
        let req = gnss_read_warm_start_status_req(gps, beidou);
        let budget = self.poll_budget;
        let rsp = match self.read_checked(req.as_slice(), 6, budget) {
            Ok(v) => v,
            Err(e) => {
                return Err(e);
            },
        };
        Ok(GnssReadWarmStartStatusRsp::from_bytes(rsp.as_slice()))
    }

    /// Return the list of satellite IDs for the next keep-sync scan, one
    /// byte per satellite.  The warm start status must be read first to
    /// learn how many satellites the list holds.
    pub fn gnss_get_warm_start_sv(&mut self, gps: bool, beidou: bool, nb_sv: u8) -> (r: Result<
        Vec<u8>,
        Lr1120Error,
    >)
        requires
            old(self).wf(),
        ensures
            preserves_frame(*old(self), *final(self)),
            r matches Ok(v) ==> final(self).wf() && v@.len() == nb_sv && exists|mid: Seq<BusEvent>|
                {
                    &&& #[trigger] write_cmd_history(
                        old(self).port.history(),
                        mid,
                        spec_gnss_get_sv_warm_start_req(gps, beidou),
                    )
                    &&& read_phase_history(
                        mid,
                        final(self).port.history(),
                        v@,
                        old(self).spec_poll_budget(),
                    )
                },
            r == Err::<Vec<u8>, Lr1120Error>(Lr1120Error::Timeout) ==> final(self).wf()
                && exists|mid: Seq<BusEvent>|
                {
                    &&& #[trigger] write_cmd_history(
                        old(self).port.history(),
                        mid,
                        spec_gnss_get_sv_warm_start_req(gps, beidou),
                    )
                    &&& final(self).port.history() == mid + busy_polls(
                        old(self).spec_poll_budget() as nat,
                    )
                },
    {
        let req = gnss_get_sv_warm_start_req(gps, beidou);
        match self.write(req.as_slice()) {
            Ok(()) => {},
            Err(e) => {
                return Err(e);
            },
        }
        let ghost mid = self.port.history();
        let budget = self.poll_budget;
        let rsp = match self.read_response(nb_sv as usize, budget) {
            Ok(v) => v,
            Err(e) => {
                proof {
                    assert(write_cmd_history(
                        old(self).port.history(),
                        mid,
                        spec_gnss_get_sv_warm_start_req(gps, beidou),
                    ));
                    assert(old(self).port.history().is_prefix_of(self.port.history())) by {
                        assert(old(self).port.history() =~= self.port.history().subrange(
                            0,
                            old(self).port.history().len() as int,
                        ));
                    }
                }
                return Err(e);
            },
        };
        proof {
            assert(write_cmd_history(
                old(self).port.history(),
                mid,
                spec_gnss_get_sv_warm_start_req(gps, beidou),
            ));
            assert(old(self).port.history().is_prefix_of(self.port.history())) by {
                assert(old(self).port.history() =~= self.port.history().subrange(
                    0,
                    old(self).port.history().len() as int,
                ));
            }
        }
        Ok(rsp)
    }

    /// Configure which GPS satellites' almanacs are searched for; with no
    /// mask every satellite is enabled.
    pub fn gnss_set_gps_sat_bitmask(&mut self, mask: Option<u32>) -> (r: Result<(), Lr1120Error>)
        requires
            old(self).wf(),
        ensures
            preserves_frame(*old(self), *final(self)),
            r is Ok ==> final(self).wf() && write_cmd_history(
                old(self).port.history(),
                final(self).port.history(),
                spec_gnss_write_bit_mask_sat_activated_cmd(true, false, (match mask { Some(m) => m, None => 0xFFFFFFFFu32 })),
            ),
    {
        let m: u32 = match mask {
            Some(m) => m,
            None => 0xFFFFFFFF,
        };
        let req = gnss_write_bit_mask_sat_activated_cmd(true, false, m);
        self.write(req.as_slice())
    }

    /// Configure which BeiDou satellites' almanacs are searched for; with no
    /// mask the default healthy set is enabled.
    pub fn gnss_set_beidou_sat_bitmask(&mut self, mask: Option<(u32, u32)>) -> (r: Result<(), Lr1120Error>)
        requires
            old(self).wf(),
        ensures
            preserves_frame(*old(self), *final(self)),
            r is Ok ==> final(self).wf() && write_cmd_history(
                old(self).port.history(),
                final(self).port.history(),
                spec_gnss_write_bit_mask_sat_activated_adv_cmd(true, false, (match mask { Some(m) => m.0, None => 0xBFFCBFFFu32 }), (match mask { Some(m) => m.1, None => 0xC0007FFu32 })),
            ),
    {
        let (m0, m1): (u32, u32) = match mask {
            Some(m) => m,
            None => (0xBFFCBFFF, 0xC0007FF),
        };
        let req = gnss_write_bit_mask_sat_activated_adv_cmd(true, false, m0, m1);
        self.write(req.as_slice())
    }

    /// Launch a GNSS scan that downloads almanac parameters from the
    /// satellite signal for one constellation.  Must be sent at a precise
    /// time matching almanac data availability.
    pub fn gnss_updt_almanac_from_sat(&mut self, best_effort: bool, gps: bool) -> (r: Result<(), Lr1120Error>)
        requires
            old(self).wf(),
        ensures
            preserves_frame(*old(self), *final(self)),
            r is Ok ==> final(self).wf() && write_cmd_history(
                old(self).port.history(),
                final(self).port.history(),
                spec_gnss_almanac_update_from_sat_cmd(best_effort, gps, !gps),
            ),
    {
        let req = gnss_almanac_update_from_sat_cmd(best_effort, gps, !gps);
        self.write(req.as_slice())
    }

    /// Stream one batch of at most 25 satellite almanac records.
    fn gnss_almanac_chunks(&mut self, svs: &[AlmanacSv]) -> (r: Result<(), Lr1120Error>)
        requires
            old(self).wf(),
        ensures
            preserves_frame(*old(self), *final(self)),
            r is Ok ==> final(self).wf() && almanac_chunks_history(
                old(self).port.history(),
                final(self).port.history(),
                svs@,
            ),
        decreases svs@.len(),
    {
        if svs.len() == 0 {
            return Ok(());
        }
        let n: usize = if svs.len() < 25 {
            svs.len()
        } else {
            25
        };
        let mut payload: Vec<u8> = Vec::new();
        let mut i: usize = 0;
        while i < n
            invariant
                i <= n <= svs@.len(),
                payload@ == spec_almanac_svs_bytes(svs@.subrange(0, i as int)),
            decreases n - i,
        {
            let b = svs[i].to_bytes();
            let mut j: usize = 0;
            while j < 20
                invariant
                    j <= 20,
                    b@ == spec_almanac_sv_bytes(svs@[i as int]),
                    i < svs@.len(),
                    payload@ == spec_almanac_svs_bytes(svs@.subrange(0, i as int)) + b@.take(
                        j as int,
                    ),
                decreases 20 - j,
            {
                payload.push(b[j]);
                j += 1;
            }
            proof {
                assert(svs@.subrange(0, i + 1).drop_last() =~= svs@.subrange(0, i as int));
                assert(payload@ =~= spec_almanac_svs_bytes(svs@.subrange(0, i + 1)));
            }
            i += 1;
        }
        let req: [u8; 2] = [0x04, 0x0E];
        match self.write_with_trailing_payload(req.as_slice(), payload.as_slice()) {
            Ok(()) => {},
            Err(e) => {
                return Err(e);
            },
        }
        let ghost mid = self.port.history();
        let rest = vstd::slice::slice_subrange(svs, n, svs.len());
        match self.gnss_almanac_chunks(rest) {
            Ok(()) => {},
            Err(e) => {
                proof {
                    assert(old(self).port.history().is_prefix_of(self.port.history())) by {
                        assert(old(self).port.history() =~= self.port.history().subrange(
                            0,
                            old(self).port.history().len() as int,
                        ));
                    }
                }
                return Err(e);
            },
        }
        proof {
            let cl: int = spec_chunk_len(svs@.len() as int);
            assert(cl == n as int);
            assert(svs@.subrange(0, n as int) =~= svs@.take(cl));
            assert(rest@ =~= svs@.skip(cl));
            assert(req@ + payload@ =~= seq![0x04u8, 0x0Eu8] + spec_almanac_svs_bytes(
                svs@.take(cl),
            ));
            assert(write_cmd_history(
                old(self).port.history(),
                mid,
                seq![0x04u8, 0x0Eu8] + spec_almanac_svs_bytes(svs@.take(cl)),
            ));
            assert(almanac_chunks_history(mid, self.port.history(), svs@.skip(cl)));
            assert(old(self).port.history().is_prefix_of(mid)) by {
                assert(old(self).port.history() =~= mid.subrange(
                    0,
                    old(self).port.history().len() as int,
                ));
            }
            assert(almanac_chunks_history(old(self).port.history(), self.port.history(), svs@));
            assert(old(self).port.history().is_prefix_of(self.port.history())) by {
                assert(old(self).port.history() =~= self.port.history().subrange(
                    0,
                    old(self).port.history().len() as int,
                ));
            }
        }
        Ok(())
    }

    /// Manually update the almanac: the header in a first write, then the
    /// satellite records streamed in batches of at most 25.
    pub fn gnss_updt_almanac(&mut self, hdr: AlmanacHeader, sv_list: &[AlmanacSv]) -> (r: Result<
        (),
        Lr1120Error,
    >)
        requires
            old(self).wf(),
        ensures
            preserves_frame(*old(self), *final(self)),
            r is Ok ==> final(self).wf() && exists|mid: Seq<BusEvent>|
                #![trigger old(self).port.history().is_prefix_of(mid)]
                {
                    &&& old(self).port.history().is_prefix_of(mid)
                    &&& write_cmd_history(
                        old(self).port.history(),
                        mid,
                        seq![0x04u8, 0x0Eu8] + spec_almanac_header_bytes(hdr),
                    )
                    &&& almanac_chunks_history(mid, final(self).port.history(), sv_list@)
                },
    {
        let hb = hdr.to_bytes();
        let req: [u8; 2] = [0x04, 0x0E];
        match self.write_with_trailing_payload(req.as_slice(), hb.as_slice()) {
            Ok(()) => {},
            Err(e) => {
                return Err(e);
            },
        }
        let ghost mid = self.port.history();
        match self.gnss_almanac_chunks(sv_list) {
            Ok(()) => {},
            Err(e) => {
                proof {
                    assert(old(self).port.history().is_prefix_of(self.port.history())) by {
                        assert(old(self).port.history() =~= self.port.history().subrange(
                            0,
                            old(self).port.history().len() as int,
                        ));
                    }
                }
                return Err(e);
            },
        }
        proof {
            assert(req@ =~= seq![0x04u8, 0x0Eu8]);
            assert(req@ + hb@ =~= seq![0x04u8, 0x0Eu8] + spec_almanac_header_bytes(hdr));
            assert(write_cmd_history(
                old(self).port.history(),
                mid,
                seq![0x04u8, 0x0Eu8] + spec_almanac_header_bytes(hdr),
            ));
            assert(old(self).port.history().is_prefix_of(mid)) by {
                assert(old(self).port.history() =~= mid.subrange(
                    0,
                    old(self).port.history().len() as int,
                ));
            }
            assert(old(self).port.history().is_prefix_of(self.port.history())) by {
                assert(old(self).port.history() =~= self.port.history().subrange(
                    0,
                    old(self).port.history().len() as int,
                ));
            }
        }
        Ok(())
    }

    /// Configure the almanac update period in days; with no BeiDou type the
    /// constellation is GPS.
    pub fn gnss_set_almanac_updt_period(&mut self, beidou_type: Option<BeidouType>, period: u16) -> (r: Result<(), Lr1120Error>)
        requires
            old(self).wf(),
        ensures
            preserves_frame(*old(self), *final(self)),
            r is Ok ==> final(self).wf() && write_cmd_history(
                old(self).port.history(),
                final(self).port.history(),
                spec_gnss_config_almanac_update_period_cmd(!beidou_type.is_some(), beidou_type.is_some(), (match beidou_type { Some(t) => t, None => BeidouType::Meo }), period),
            ),
    {
        let beidou_en = beidou_type.is_some();
        let bt = match beidou_type {
            Some(t) => t,
            None => BeidouType::Meo,
        };
        let req = gnss_config_almanac_update_period_cmd(!beidou_en, beidou_en, bt, period);
        self.write(req.as_slice())
    }

    /// Read the almanac update period in days.
    pub fn gnss_get_almanac_updt_period(&mut self, beidou_type: Option<BeidouType>) -> (r: Result<u16, Lr1120Error>)
        requires
            old(self).wf(),
        ensures
            preserves_frame(*old(self), *final(self)),
            r matches Ok(v) ==> final(self).wf() && exists|rsp: Seq<u8>|
                {
                    &&& rsp.len() == 3
                    &&& write_then_read_history(
                        old(self).port.history(),
                        final(self).port.history(),
                        spec_gnss_read_almanac_update_period_req(!beidou_type.is_some(), beidou_type.is_some(), (match beidou_type { Some(t) => t, None => BeidouType::Meo })),
                        rsp,
                        old(self).spec_poll_budget(),
                    )
                    &&& #[trigger] crate::status::spec_status_byte_check(rsp[0]) is Ok
                    &&& v == crate::bytes::spec_be16(rsp[1], rsp[2])
                },
    {
        let beidou_en = beidou_type.is_some();
        let bt = match beidou_type {
            Some(t) => t,
            None => BeidouType::Meo,
        };
        let req = gnss_read_almanac_update_period_req(!beidou_en, beidou_en, bt);
        let budget = self.poll_budget;
        let rsp = match self.read_checked(req.as_slice(), 3, budget) {
            Ok(v) => v,
            Err(e) => {
                return Err(e);
            },
        };
        let parsed = GnssReadAlmanacUpdatePeriodRsp::from_bytes(rsp.as_slice());
        Ok(parsed.period())
    }

    /// Return the detailed almanac update status for both constellations.
    pub fn gnss_get_almanac_status(&mut self) -> (r: Result<GnssReadAlmanacStatusRsp, Lr1120Error>)
        requires
            old(self).wf(),
        ensures
            preserves_frame(*old(self), *final(self)),
            r matches Ok(v) ==> final(self).wf() && exists|rsp: Seq<u8>|
                {
                    &&& rsp.len() == 54
                    &&& #[trigger] write_then_read_history(
                        old(self).port.history(),
                        final(self).port.history(),
                        spec_gnss_read_almanac_status_req(),
                        rsp,
                        old(self).spec_poll_budget(),
                    )
                    &&& crate::status::spec_status_byte_check(rsp[0]) is Ok
                    &&& v.bytes() == rsp
                },
    {
        let req = gnss_read_almanac_status_req();
        let budget = self.poll_budget;
        let rsp = match self.read_checked(req.as_slice(), 54, budget) {
            Ok(v) => v,
            Err(e) => {
                return Err(e);
            },
        };
        Ok(GnssReadAlmanacStatusRsp::from_bytes(rsp.as_slice()))
    }
}

} // verus!
