//! System control and chip management: status, errors, calibration,
//! clocks, DIO configuration, buffers and register access.

use vstd::prelude::*;

#[allow(unused_imports)]
use crate::Lr1120Error;
#[allow(unused_imports)]
use crate::bytes::{spec_be16, spec_be32, spec_be64};
use crate::cmd::cmd_regmem::{ReadRegMem32Rsp, read_reg_mem32_req, spec_read_reg_mem32_req,
    spec_write_reg_mem32_cmd, spec_write_reg_mem_mask32_cmd, write_reg_mem32_cmd,
    write_reg_mem_mask32_cmd};
use crate::cmd::cmd_system::{ChipEuiRsp, ErrorsRsp, LfClock, RegMode, SemtechJoinEuiRsp,
    StandbyMode, StatusRsp, TcxoVoltage, TempRsp, VbatRsp, VersionRsp, RandomNumberRsp,
    calib_image_cmd, calibrate_cmd, clear_irq_cmd, clear_rx_buffer_cmd, config_lf_clock_cmd,
    drive_dios_in_sleep_mode_cmd, get_chip_eui_req, get_errors_req, get_random_number_req,
    get_semtech_join_eui_req, get_status_req, get_temp_req, get_vbat_req, get_version_req,
    read_buffer8_req, set_dio_as_rf_switch_cmd, set_dio_irq_params_cmd, set_fs_cmd,
    set_reg_mode_cmd, set_sleep_cmd, set_standby_cmd, set_tcxo_mode_cmd, write_buffer8_cmd,
    Enable, spec_calib_image_cmd, spec_calibrate_cmd, spec_clear_irq_cmd,
    spec_clear_rx_buffer_cmd, spec_config_lf_clock_cmd, spec_drive_dios_in_sleep_mode_cmd,
    spec_get_chip_eui_req, spec_get_errors_req, spec_get_random_number_req,
    spec_get_semtech_join_eui_req, spec_get_status_req, spec_get_temp_req, spec_get_vbat_req,
    spec_get_version_req, spec_read_buffer8_req, spec_set_dio_as_rf_switch_cmd,
    spec_set_dio_irq_params_cmd, spec_set_fs_cmd, spec_set_reg_mode_cmd, spec_set_sleep_cmd,
    spec_set_standby_cmd, spec_set_tcxo_mode_cmd, spec_write_buffer8_cmd};
use crate::cmd::cmd_radio::{set_rx_cmd, set_tx_cmd, spec_set_rx_cmd, spec_set_tx_cmd};
use crate::engine::{Lr1120, preserves_frame, read_phase_history, write_cmd_history,
    write_then_read_history, write_then_timeout_history};
use crate::port::{BusEvent, SpiPort};
use crate::status::{Intr, Status};

verus! {

/// Chip mode: sleep, standby, frequency synthesis, TX or RX.
#[derive(Clone, Debug, PartialEq, Eq, Structural)]
pub enum ChipMode {
    /// Sleep without retention: wakes up on NSS.
    DeepSleep,
    /// Sleep with retention: wakes up on NSS.
    DeepRetention,
    /// Sleep without retention, with a timeout on the 32k clock.
    Sleep(u32),
    /// Sleep with retention and a timeout on the 32k clock.
    Retention(u32),
    /// Standby using the RC clock.
    StandbyRc,
    /// Standby using the crystal oscillator.
    StandbyXosc,
    /// Frequency synthesis: allows immediate TX/RX.
    Fs,
    /// Transmit mode.
    Tx,
    /// Receive mode.
    Rx,
}

/// The request bytes that select the given chip mode.
pub open spec fn spec_chip_mode_bytes(chip_mode: ChipMode) -> Seq<u8> {
    match chip_mode {
        ChipMode::DeepSleep => spec_set_sleep_cmd(false, false, 0),
        ChipMode::DeepRetention => spec_set_sleep_cmd(false, true, 0),
        ChipMode::Sleep(t) => spec_set_sleep_cmd(true, false, t),
        ChipMode::Retention(t) => spec_set_sleep_cmd(true, true, t),
        ChipMode::StandbyRc => spec_set_standby_cmd(StandbyMode::Rc),
        ChipMode::StandbyXosc => spec_set_standby_cmd(StandbyMode::Xosc),
        ChipMode::Fs => spec_set_fs_cmd(),
        ChipMode::Tx => spec_set_tx_cmd(0),
        ChipMode::Rx => spec_set_rx_cmd(0xFFFFFF),
    }
}

/// DIO number; the allowed values are 5, 6, 7, 8 or 10.
#[derive(Debug, Clone, Copy, PartialEq, Eq, Structural)]
pub enum DioNum {
    Dio5,
    Dio6,
    Dio7,
    Dio8,
    Dio10,
    NotWired,
}

impl DioNum {
    /// Decode a DIO number: 5, 6, 7, 8 or 10; any other value gives the
    /// unwired DIO.
    pub open spec fn spec_new(num: u8) -> DioNum {
        if num == 5 {
            DioNum::Dio5
        } else if num == 6 {
            DioNum::Dio6
        } else if num == 7 {
            DioNum::Dio7
        } else if num == 8 {
            DioNum::Dio8
        } else if num == 10 {
            DioNum::Dio10
        } else {
            DioNum::NotWired
        }
    }

    /// Create a new DIO number from 5, 6, 7, 8 or 10; any other value gives
    /// the unwired DIO.
    pub fn new(num: u8) -> (r: DioNum)
        ensures
            r == DioNum::spec_new(num),
    {
        match num {
            5 => DioNum::Dio5,
            6 => DioNum::Dio6,
            7 => DioNum::Dio7,
            8 => DioNum::Dio8,
            10 => DioNum::Dio10,
            _ => DioNum::NotWired,
        }
    }

    /// The mask bit of this DIO, as used by the RF switch configuration.
    pub open spec fn spec_as_mask(&self) -> u8 {
        match self {
            DioNum::Dio5 => 1,
            DioNum::Dio6 => 2,
            DioNum::Dio7 => 4,
            DioNum::Dio8 => 8,
            DioNum::Dio10 => 16,
            DioNum::NotWired => 0,
        }
    }

    /// Return the mask bit corresponding to this DIO.
    #[verifier::when_used_as_spec(spec_as_mask)]
    pub fn as_mask(&self) -> (r: u8)
        ensures
            r == self.spec_as_mask(),
    {
        match self {
            DioNum::Dio5 => 1,
            DioNum::Dio6 => 2,
            DioNum::Dio7 => 4,
            DioNum::Dio8 => 8,
            DioNum::Dio10 => 16,
            DioNum::NotWired => 0,
        }
    }
}

/// Configuration of which RF switch is connected to which DIO.
#[derive(Clone, Debug)]
pub struct DioRfSwitchCfg {
    /// TX low-frequency switch.
    pub tx_lf: DioNum,
    /// TX high-power switch.
    pub tx_hp: DioNum,
    /// TX high-frequency switch.
    pub tx_hf: DioNum,
    /// RX low-frequency switch.
    pub rx_lf: DioNum,
    /// RX mid-frequency (GNSS) switch.
    pub rx_mf: DioNum,
    /// RX high-frequency switch.
    pub rx_hf: DioNum,
}

impl DioRfSwitchCfg {
    /// Configuration with only TX/RX RF switches in the low frequency
    /// (sub-GHz) band.
    pub fn new_lf(tx: DioNum, rx: DioNum) -> (r: DioRfSwitchCfg)
        ensures
            r.tx_lf == tx && r.tx_hp == tx && r.tx_hf == DioNum::NotWired,
            r.rx_lf == rx && r.rx_mf == DioNum::NotWired && r.rx_hf == DioNum::NotWired,
    {
        DioRfSwitchCfg {
            tx_lf: tx,
            tx_hp: tx,
            tx_hf: DioNum::NotWired,
            rx_lf: rx,
            rx_mf: DioNum::NotWired,
            rx_hf: DioNum::NotWired,
        }
    }

    /// Configuration with TX/RX RF switches for both the low (sub-GHz) and
    /// high (2.4GHz) frequency bands.
    pub fn new_lf_hf(tx_lf: DioNum, rx_lf: DioNum, tx_hf: DioNum, rx_hf: DioNum) -> (r:
        DioRfSwitchCfg)
        ensures
            r.tx_lf == tx_lf && r.tx_hp == tx_lf && r.tx_hf == tx_hf,
            r.rx_lf == rx_lf && r.rx_mf == DioNum::NotWired && r.rx_hf == rx_hf,
    {
        DioRfSwitchCfg { tx_lf, tx_hp: tx_lf, tx_hf, rx_lf, rx_mf: DioNum::NotWired, rx_hf }
    }

    /// Update the TX high power switch.
    pub fn with_tx_hp(self, tx_hp: DioNum) -> (r: DioRfSwitchCfg)
        ensures
            r == (DioRfSwitchCfg { tx_hp, ..self }),
    {
        DioRfSwitchCfg {
            tx_lf: self.tx_lf,
            tx_hp,
            tx_hf: self.tx_hf,
            rx_lf: self.rx_lf,
            rx_mf: self.rx_mf,
            rx_hf: self.rx_hf,
        }
    }

    /// Update the RF switch for the GNSS band.
    pub fn with_gnss(self, rx_mf: DioNum) -> (r: DioRfSwitchCfg)
        ensures
            r == (DioRfSwitchCfg { rx_mf, ..self }),
    {
        DioRfSwitchCfg {
            tx_lf: self.tx_lf,
            tx_hp: self.tx_hp,
            tx_hf: self.tx_hf,
            rx_lf: self.rx_lf,
            rx_mf,
            rx_hf: self.rx_hf,
        }
    }

    /// The OR of all configured switch masks.
    pub open spec fn spec_enable_mask(&self) -> u8 {
        self.tx_lf.spec_as_mask() | self.tx_hp.spec_as_mask() | self.tx_hf.spec_as_mask()
            | self.rx_lf.spec_as_mask() | self.rx_mf.spec_as_mask() | self.rx_hf.spec_as_mask()
    }
}

/// A frequency range [min..max] used for image calibration, in 4MHz units.
#[derive(Clone, Copy, Debug)]
pub struct FreqBand {
    min: u8,
    max: u8,
}

impl FreqBand {
    /// Lower bound of the range, in 4MHz units.
    pub closed spec fn spec_min(&self) -> u8 {
        self.min
    }

    /// Upper bound of the range, in 4MHz units.
    pub closed spec fn spec_max(&self) -> u8 {
        self.max
    }

    /// Create a manual frequency range.
    pub fn new(min: u8, max: u8) -> (r: FreqBand)
        ensures
            r.spec_min() == min && r.spec_max() == max,
    {
        FreqBand { min, max }
    }

    /// Frequency range for the ISM band around 430MHz.
    pub fn ism_430() -> (r: FreqBand)
        ensures
            r.spec_min() == 0x6B && r.spec_max() == 0x6E,
    {
        FreqBand { min: 0x6B, max: 0x6E }
    }

    /// Frequency range for the ISM band around 480MHz.
    pub fn ism_480() -> (r: FreqBand)
        ensures
            r.spec_min() == 0x75 && r.spec_max() == 0x81,
    {
        FreqBand { min: 0x75, max: 0x81 }
    }

    /// Frequency range for the ISM band around 780MHz.
    pub fn ism_780() -> (r: FreqBand)
        ensures
            r.spec_min() == 0xC1 && r.spec_max() == 0xC5,
    {
        FreqBand { min: 0xC1, max: 0xC5 }
    }

    /// Frequency range for the ISM band around 868MHz.
    pub fn ism_868() -> (r: FreqBand)
        ensures
            r.spec_min() == 0xD7 && r.spec_max() == 0xDB,
    {
        FreqBand { min: 0xD7, max: 0xDB }
    }

    /// Frequency range for the ISM band around 920MHz.
    pub fn ism_920() -> (r: FreqBand)
        ensures
            r.spec_min() == 0xE1 && r.spec_max() == 0xE9,
    {
        FreqBand { min: 0xE1, max: 0xE9 }
    }
}

/// Convert a PLL step value to Hz: multiply by 15625 and divide by 2^14.
pub fn pllstep_to_hz(val_step: u32) -> (r: u32)
    ensures
        r == (((((val_step as u64) * 15625) as u64) >> 14) as u32),
{
    let val_scaled: u64 = (val_step as u64) * 15625;
    (val_scaled >> 14) as u32
}

impl<P: SpiPort> Lr1120<P> {

    /// Read the status word and the interrupt snapshot from the chip.
    pub fn get_status(&mut self) -> (r: Result<(Status, Intr), Lr1120Error>)
        requires
            old(self).wf(),
        ensures
            preserves_frame(*old(self), *final(self)),
            r matches Ok(v) ==> final(self).wf() && exists|rsp: Seq<u8>|
                {
                    &&& rsp.len() == 6
                    &&& #[trigger] write_then_read_history(
                        old(self).port.history(),
                        final(self).port.history(),
                        spec_get_status_req(),
                        rsp,
                        old(self).spec_poll_budget(),
                    )
                    &&& crate::status::spec_status_byte_check(rsp[0]) is Ok
                    &&& v.0@ == spec_be16(rsp[0], rsp[1])
                    &&& v.1@ == spec_be32(rsp[2], rsp[3], rsp[4], rsp[5])
                },
    {
        let req = get_status_req();
        let budget = self.poll_budget;
        let rsp = match self.read_checked(req.as_slice(), 6, budget) {
            Ok(v) => v,
            Err(e) => {
                return Err(e);
            },
        };
        let parsed = StatusRsp::from_bytes(rsp.as_slice());
        Ok((parsed.status(), parsed.intr()))
    }

    /// Read the pending errors that occurred since the last clear or startup.
    pub fn get_errors(&mut self) -> (r: Result<ErrorsRsp, Lr1120Error>)
        requires
            old(self).wf(),
        ensures
            preserves_frame(*old(self), *final(self)),
            r matches Ok(v) ==> final(self).wf() && exists|rsp: Seq<u8>|
                {
                    &&& rsp.len() == 3
                    &&& #[trigger] write_then_read_history(
                        old(self).port.history(),
                        final(self).port.history(),
                        spec_get_errors_req(),
                        rsp,
                        old(self).spec_poll_budget(),
                    )
                    &&& crate::status::spec_status_byte_check(rsp[0]) is Ok
                    &&& v.bytes() == rsp
                },
    {
        let req = get_errors_req();
        let budget = self.poll_budget;
        let rsp = match self.read_checked(req.as_slice(), 3, budget) {
            Ok(v) => v,
            Err(e) => {
                return Err(e);
            },
        };
        Ok(ErrorsRsp::from_bytes(rsp.as_slice()))
    }

    /// Read the hardware and firmware version information.
    pub fn get_version(&mut self) -> (r: Result<VersionRsp, Lr1120Error>)
        requires
            old(self).wf(),
        ensures
            preserves_frame(*old(self), *final(self)),
            r matches Ok(v) ==> final(self).wf() && exists|rsp: Seq<u8>|
                {
                    &&& rsp.len() == 5
                    &&& #[trigger] write_then_read_history(
                        old(self).port.history(),
                        final(self).port.history(),
                        spec_get_version_req(),
                        rsp,
                        old(self).spec_poll_budget(),
                    )
                    &&& crate::status::spec_status_byte_check(rsp[0]) is Ok
                    &&& v.bytes() == rsp
                },
    {
        let req = get_version_req();
        let budget = self.poll_budget;
        let rsp = match self.read_checked(req.as_slice(), 5, budget) {
            Ok(v) => v,
            Err(e) => {
                return Err(e);
            },
        };
        Ok(VersionRsp::from_bytes(rsp.as_slice()))
    }

    /// Read the chip EUI.
    pub fn get_chip_eui(&mut self) -> (r: Result<u64, Lr1120Error>)
        requires
            old(self).wf(),
        ensures
            preserves_frame(*old(self), *final(self)),
            r matches Ok(v) ==> final(self).wf() && exists|rsp: Seq<u8>|
                {
                    &&& rsp.len() == 9
                    &&& #[trigger] write_then_read_history(
                        old(self).port.history(),
                        final(self).port.history(),
                        spec_get_chip_eui_req(),
                        rsp,
                        old(self).spec_poll_budget(),
                    )
                    &&& crate::status::spec_status_byte_check(rsp[0]) is Ok
                    &&& v == spec_be64(rsp[1], rsp[2], rsp[3], rsp[4], rsp[5], rsp[6], rsp[7], rsp[8])
                },
    {
        let req = get_chip_eui_req();
        let budget = self.poll_budget;
        let rsp = match self.read_checked(req.as_slice(), 9, budget) {
            Ok(v) => v,
            Err(e) => {
                return Err(e);
            },
        };
        let parsed = ChipEuiRsp::from_bytes(rsp.as_slice());
        Ok(parsed.chip_eui())
    }

    /// Read the factory-programmed join EUI.
    pub fn get_join_eui(&mut self) -> (r: Result<u64, Lr1120Error>)
        requires
            old(self).wf(),
        ensures
            preserves_frame(*old(self), *final(self)),
            r matches Ok(v) ==> final(self).wf() && exists|rsp: Seq<u8>|
                {
                    &&& rsp.len() == 9
                    &&& #[trigger] write_then_read_history(
                        old(self).port.history(),
                        final(self).port.history(),
                        spec_get_semtech_join_eui_req(),
                        rsp,
                        old(self).spec_poll_budget(),
                    )
                    &&& crate::status::spec_status_byte_check(rsp[0]) is Ok
                    &&& v == spec_be64(rsp[1], rsp[2], rsp[3], rsp[4], rsp[5], rsp[6], rsp[7], rsp[8])
                },
    {
        let req = get_semtech_join_eui_req();
        let budget = self.poll_budget;
        let rsp = match self.read_checked(req.as_slice(), 9, budget) {
            Ok(v) => v,
            Err(e) => {
                return Err(e);
            },
        };
        let parsed = SemtechJoinEuiRsp::from_bytes(rsp.as_slice());
        Ok(parsed.semtech_join_eui())
    }

    /// Clear interrupts with an optional mask; with no mask, all
    /// interrupts are cleared.
    pub fn clear_irqs(&mut self, intr: Option<Intr>) -> (r: Result<(), Lr1120Error>)
        requires
            old(self).wf(),
        ensures
            preserves_frame(*old(self), *final(self)),
            r is Ok ==> final(self).wf() && write_cmd_history(
                old(self).port.history(),
                final(self).port.history(),
                spec_clear_irq_cmd(
                    match intr {
                        Some(i) => i@,
                        None => 0xFFFFFFFFu32,
                    },
                ),
            ),
    {
        let msk: u32 = match intr {
            Some(i) => i.value(),
            None => 0xFFFFFFFF,
        };
        let req = clear_irq_cmd(msk);
        self.write(req.as_slice())
    }

    /// Run calibration of the selected blocks.  Works in any chip mode; on
    /// exit the chip goes into Standby RC.  An eventual calibration error can
    /// be read with the error query.
    pub fn calibrate(&mut self, lf_rc: bool, hf_rc: bool, pll: bool, adc: bool, img: bool, pll_tx: bool) -> (r: Result<(), Lr1120Error>)
        requires
            old(self).wf(),
        ensures
            preserves_frame(*old(self), *final(self)),
            r is Ok ==> final(self).wf() && write_cmd_history(
                old(self).port.history(),
                final(self).port.history(),
                spec_calibrate_cmd(lf_rc, hf_rc, pll, adc, img, pll_tx),
            ),
    {
        let req = calibrate_cmd(lf_rc, hf_rc, pll, adc, img, pll_tx);
        self.write(req.as_slice())
    }

    /// Run image calibration on a frequency band, given as multiples of
    /// 4MHz.
    pub fn calib_image(&mut self, range: FreqBand) -> (r: Result<(), Lr1120Error>)
        requires
            old(self).wf(),
        ensures
            preserves_frame(*old(self), *final(self)),
            r is Ok ==> final(self).wf() && write_cmd_history(
                old(self).port.history(),
                final(self).port.history(),
                spec_calib_image_cmd(range.spec_min(), range.spec_max()),
            ),
    {
        let req = calib_image_cmd(range.min, range.max);
        self.write(req.as_slice())
    }

    /// Set the chip operational mode.
    pub fn set_chip_mode(&mut self, chip_mode: ChipMode) -> (r: Result<(), Lr1120Error>)
        requires
            old(self).wf(),
        ensures
            preserves_frame(*old(self), *final(self)),
            r is Ok ==> final(self).wf() && write_cmd_history(
                old(self).port.history(),
                final(self).port.history(),
                spec_chip_mode_bytes(chip_mode),
            ),
    {
        match chip_mode {
            ChipMode::DeepSleep => {
                let req = set_sleep_cmd(false, false, 0);
                self.write(req.as_slice())
            },
            ChipMode::DeepRetention => {
                let req = set_sleep_cmd(false, true, 0);
                self.write(req.as_slice())
            },
            ChipMode::Sleep(t) => {
                let req = set_sleep_cmd(true, false, t);
                self.write(req.as_slice())
            },
            ChipMode::Retention(t) => {
                let req = set_sleep_cmd(true, true, t);
                self.write(req.as_slice())
            },
            ChipMode::StandbyRc => {
                let req = set_standby_cmd(StandbyMode::Rc);
                self.write(req.as_slice())
            },
            ChipMode::StandbyXosc => {
                let req = set_standby_cmd(StandbyMode::Xosc);
                self.write(req.as_slice())
            },
            ChipMode::Fs => {
                let req = set_fs_cmd();
                self.write(req.as_slice())
            },
            ChipMode::Tx => {
                let req = set_tx_cmd(0);
                self.write(req.as_slice())
            },
            ChipMode::Rx => {
                let req = set_rx_cmd(0xFFFFFF);
                self.write(req.as_slice())
            },
        }
    }

    /// Choose the regulator (LDO or DC-DC).  Shall only be called while in
    /// Standby RC.
    pub fn set_regulator_mode(&mut self, dcdc_en: bool) -> (r: Result<(), Lr1120Error>)
        requires
            old(self).wf(),
        ensures
            preserves_frame(*old(self), *final(self)),
            r is Ok ==> final(self).wf() && write_cmd_history(
                old(self).port.history(),
                final(self).port.history(),
                spec_set_reg_mode_cmd((if dcdc_en { RegMode::DcdcEnabled } else { RegMode::LdoOnly })),
            ),
    {
        let mode = if dcdc_en {
            RegMode::DcdcEnabled
        } else {
            RegMode::LdoOnly
        };
        let req = set_reg_mode_cmd(mode);
        self.write(req.as_slice())
    }

    /// Configure which interrupts are routed to DIO9 (IRQ pin 1) and DIO11
    /// (IRQ pin 2).
    pub fn set_dio_irq(&mut self, irq1: Intr, irq2: Intr) -> (r: Result<(), Lr1120Error>)
        requires
            old(self).wf(),
        ensures
            preserves_frame(*old(self), *final(self)),
            r is Ok ==> final(self).wf() && write_cmd_history(
                old(self).port.history(),
                final(self).port.history(),
                spec_set_dio_irq_params_cmd(irq1@, irq2@),
            ),
    {
        let req = set_dio_irq_params_cmd(irq1.value(), irq2.value());
        self.write(req.as_slice())
    }

    /// Configure the DIOs that control the RF switches.  A second command
    /// sets up pull-up/pull-down in sleep mode for all enabled switches
    /// when `drive_sleep` is set.
    pub fn set_dio_rf_switch(&mut self, cfg: DioRfSwitchCfg, drive_sleep: bool) -> (r: Result<
        (),
        Lr1120Error,
    >)
        requires
            old(self).wf(),
        ensures
            preserves_frame(*old(self), *final(self)),
            r is Ok ==> final(self).wf() && exists|mid: Seq<BusEvent>|
                {
                    &&& #[trigger] write_cmd_history(
                        old(self).port.history(),
                        mid,
                        spec_set_dio_as_rf_switch_cmd(
                            cfg.spec_enable_mask(),
                            0,
                            cfg.rx_lf.spec_as_mask(),
                            cfg.tx_lf.spec_as_mask(),
                            cfg.tx_hp.spec_as_mask(),
                            cfg.tx_hf.spec_as_mask(),
                            cfg.rx_mf.spec_as_mask(),
                            cfg.rx_hf.spec_as_mask(),
                        ),
                    )
                    &&& write_cmd_history(
                        mid,
                        final(self).port.history(),
                        spec_drive_dios_in_sleep_mode_cmd(
                            if drive_sleep {
                                Enable::Enabled
                            } else {
                                Enable::Disabled
                            },
                        ),
                    )
                },
    {
        let rfsw_tx_cfg = cfg.tx_lf.as_mask();
        let rfsw_tx_hp_cfg = cfg.tx_hp.as_mask();
        let rfsw_tx_hf_cfg = cfg.tx_hf.as_mask();
        let rfsw_rx_cfg = cfg.rx_lf.as_mask();
        let rfsw_gnss_cfg = cfg.rx_mf.as_mask();
        let rfsw_wifi_cfg = cfg.rx_hf.as_mask();
        let rfsw_enable = rfsw_tx_cfg | rfsw_tx_hp_cfg | rfsw_tx_hf_cfg | rfsw_rx_cfg
            | rfsw_gnss_cfg | rfsw_wifi_cfg;
        let req = set_dio_as_rf_switch_cmd(rfsw_enable, 0, rfsw_rx_cfg, rfsw_tx_cfg,
            rfsw_tx_hp_cfg, rfsw_tx_hf_cfg, rfsw_gnss_cfg, rfsw_wifi_cfg);
        match self.write(req.as_slice()) {
            Ok(()) => {},
            Err(e) => {
                return Err(e);
            },
        }
        let ghost mid = self.port.history();
        // Configure pull-up/down for all enabled switches.
        let drive_en = if drive_sleep {
            Enable::Enabled
        } else {
            Enable::Disabled
        };
        let req2 = drive_dios_in_sleep_mode_cmd(drive_en);
        match self.write(req2.as_slice()) {
            Ok(()) => {},
            Err(e) => {
                return Err(e);
            },
        }
        proof {
            assert(write_cmd_history(
                old(self).port.history(),
                mid,
                spec_set_dio_as_rf_switch_cmd(
                    cfg.spec_enable_mask(),
                    0,
                    cfg.rx_lf.spec_as_mask(),
                    cfg.tx_lf.spec_as_mask(),
                    cfg.tx_hp.spec_as_mask(),
                    cfg.tx_hf.spec_as_mask(),
                    cfg.rx_mf.spec_as_mask(),
                    cfg.rx_hf.spec_as_mask(),
                ),
            ));
            assert(old(self).port.history().is_prefix_of(self.port.history())) by {
                assert(old(self).port.history() =~= self.port.history().subrange(
                    0,
                    old(self).port.history().len() as int,
                ));
            }
        }
        Ok(())
    }

    /// Configure the LF clock.
    pub fn set_lf_clk(&mut self, sel: LfClock, busy_release: bool) -> (r: Result<(), Lr1120Error>)
        requires
            old(self).wf(),
        ensures
            preserves_frame(*old(self), *final(self)),
            r is Ok ==> final(self).wf() && write_cmd_history(
                old(self).port.history(),
                final(self).port.history(),
                spec_config_lf_clock_cmd(sel, busy_release),
            ),
    {
        let req = config_lf_clock_cmd(sel, busy_release);
        self.write(req.as_slice())
    }

    /// Configure the chip to use a TCXO.
    pub fn set_tcxo(&mut self, volt: TcxoVoltage, start_time: u32) -> (r: Result<(), Lr1120Error>)
        requires
            old(self).wf(),
        ensures
            preserves_frame(*old(self), *final(self)),
            r is Ok ==> final(self).wf() && write_cmd_history(
                old(self).port.history(),
                final(self).port.history(),
                spec_set_tcxo_mode_cmd(volt, start_time),
            ),
    {
        let req = set_tcxo_mode_cmd(volt, start_time);
        self.write(req.as_slice())
    }

    /// Return the temperature as a voltage measurement with 11-bit
    /// precision.  The conversion to degrees Celsius is
    /// 25 + 1000/1.7 * (v/2048 * 1.35 - 0.7295).
    pub fn get_temperature(&mut self) -> (r: Result<u16, Lr1120Error>)
        requires
            old(self).wf(),
        ensures
            preserves_frame(*old(self), *final(self)),
            r matches Ok(v) ==> final(self).wf() && exists|rsp: Seq<u8>|
                {
                    &&& rsp.len() == 3
                    &&& #[trigger] write_then_read_history(
                        old(self).port.history(),
                        final(self).port.history(),
                        spec_get_temp_req(),
                        rsp,
                        old(self).spec_poll_budget(),
                    )
                    &&& crate::status::spec_status_byte_check(rsp[0]) is Ok
                    &&& v == spec_be16(rsp[1], rsp[2])
                },
    {
        let req = get_temp_req();
        let budget = self.poll_budget;
        let rsp = match self.read_checked(req.as_slice(), 3, budget) {
            Ok(v) => v,
            Err(e) => {
                return Err(e);
            },
        };
        let parsed = TempRsp::from_bytes(rsp.as_slice());
        Ok(parsed.temp())
    }

    /// Return the battery voltage measurement.
    pub fn get_vbat(&mut self) -> (r: Result<u8, Lr1120Error>)
        requires
            old(self).wf(),
        ensures
            preserves_frame(*old(self), *final(self)),
            r matches Ok(v) ==> final(self).wf() && exists|rsp: Seq<u8>|
                {
                    &&& rsp.len() == 2
                    &&& #[trigger] write_then_read_history(
                        old(self).port.history(),
                        final(self).port.history(),
                        spec_get_vbat_req(),
                        rsp,
                        old(self).spec_poll_budget(),
                    )
                    &&& crate::status::spec_status_byte_check(rsp[0]) is Ok
                    &&& v == rsp[1]
                },
    {
        let req = get_vbat_req();
        let budget = self.poll_budget;
        let rsp = match self.read_checked(req.as_slice(), 2, budget) {
            Ok(v) => v,
            Err(e) => {
                return Err(e);
            },
        };
        let parsed = VbatRsp::from_bytes(rsp.as_slice());
        Ok(parsed.vbat())
    }

    /// Return a random number drawn from PLL and ADC entropy.
    pub fn get_random_number(&mut self) -> (r: Result<u32, Lr1120Error>)
        requires
            old(self).wf(),
        ensures
            preserves_frame(*old(self), *final(self)),
            r matches Ok(v) ==> final(self).wf() && exists|rsp: Seq<u8>|
                {
                    &&& rsp.len() == 5
                    &&& #[trigger] write_then_read_history(
                        old(self).port.history(),
                        final(self).port.history(),
                        spec_get_random_number_req(),
                        rsp,
                        old(self).spec_poll_budget(),
                    )
                    &&& crate::status::spec_status_byte_check(rsp[0]) is Ok
                    &&& v == spec_be32(rsp[1], rsp[2], rsp[3], rsp[4])
                },
    {
        let req = get_random_number_req();
        let budget = self.poll_budget;
        let rsp = match self.read_checked(req.as_slice(), 5, budget) {
            Ok(v) => v,
            Err(e) => {
                return Err(e);
            },
        };
        let parsed = RandomNumberRsp::from_bytes(rsp.as_slice());
        Ok(parsed.random_number())
    }

    /// Write TX data into the radio buffer.
    pub fn wr_tx_buffer_from(&mut self, buffer: &[u8]) -> (r: Result<(), Lr1120Error>)
        requires
            old(self).wf(),
        ensures
            preserves_frame(*old(self), *final(self)),
            r is Ok ==> final(self).wf() && write_cmd_history(
                old(self).port.history(),
                final(self).port.history(),
                spec_write_buffer8_cmd() + buffer@,
            ),
    {
        let req = write_buffer8_cmd();
        self.write_with_trailing_payload(req.as_slice(), buffer)
    }

    /// Send TX data already staged in the transaction buffer: the first
    /// `len` bytes left by the previous transaction are appended to the
    /// write-buffer command.
    pub fn wr_tx_buffer(&mut self, len: usize) -> (r: Result<(), Lr1120Error>)
        requires
            old(self).wf(),
            len <= old(self).buffer.spec_data().len(),
        ensures
            preserves_frame(*old(self), *final(self)),
            r is Ok ==> final(self).wf() && write_cmd_history(
                old(self).port.history(),
                final(self).port.history(),
                spec_write_buffer8_cmd() + old(self).buffer.spec_data().take(len as int),
            ),
    {
        let mut data = self.buffer.harvest();
        data.truncate(len);
        proof {
            assert(data@ =~= old(self).buffer.spec_data().take(len as int));
        }
        let req = write_buffer8_cmd();
        self.write_with_trailing_payload(req.as_slice(), data.as_slice())
    }

    /// Clear the RX buffer.
    pub fn clear_rx_buffer(&mut self) -> (r: Result<(), Lr1120Error>)
        requires
            old(self).wf(),
        ensures
            preserves_frame(*old(self), *final(self)),
            r is Ok ==> final(self).wf() && write_cmd_history(
                old(self).port.history(),
                final(self).port.history(),
                spec_clear_rx_buffer_cmd(),
            ),
    {
        let req = clear_rx_buffer_cmd();
        self.write(req.as_slice())
    }

    /// Read `len` bytes from the RX buffer starting at `offset`; byte 0 of
    /// the returned data is the status byte, which is validated.
    pub fn rd_rx_buffer(&mut self, offset: u8, len: u8) -> (r: Result<Vec<u8>, Lr1120Error>)
        requires
            old(self).wf(),
            len >= 1,
        ensures
            preserves_frame(*old(self), *final(self)),
            r matches Ok(v) ==> final(self).wf() && v@.len() == len && write_then_read_history(
                old(self).port.history(),
                final(self).port.history(),
                spec_read_buffer8_req(offset, len),
                v@,
                old(self).spec_poll_budget(),
            ) && crate::status::spec_status_byte_check(v@[0]) is Ok,
            r == Err::<Vec<u8>, Lr1120Error>(Lr1120Error::Timeout) ==> final(self).wf()
                && write_then_timeout_history(
                old(self).port.history(),
                final(self).port.history(),
                spec_read_buffer8_req(offset, len),
                old(self).spec_poll_budget(),
            ),
    {
        let req = read_buffer8_req(offset, len);
        let budget = self.poll_budget;
        self.read_checked(req.as_slice(), len as usize, budget)
    }

    /// Read from the RX buffer into the provided buffer, whose length
    /// selects how many bytes are requested; byte 0 of the result is the
    /// status byte, which is validated.
    pub fn rd_rx_buffer_to(&mut self, offset: u8, buffer: &mut Vec<u8>) -> (r: Result<
        (),
        Lr1120Error,
    >)
        requires
            old(self).wf(),
            1 <= old(buffer)@.len() <= 255,
        ensures
            preserves_frame(*old(self), *final(self)),
            r is Ok ==> final(self).wf() && final(buffer)@.len() == old(buffer)@.len()
                && write_then_read_history(
                old(self).port.history(),
                final(self).port.history(),
                spec_read_buffer8_req(offset, old(buffer)@.len() as u8),
                final(buffer)@,
                old(self).spec_poll_budget(),
            ) && crate::status::spec_status_byte_check(final(buffer)@[0]) is Ok,
            r is Err ==> final(buffer)@ == old(buffer)@,
            r == Err::<(), Lr1120Error>(Lr1120Error::Timeout) ==> final(self).wf()
                && write_then_timeout_history(
                old(self).port.history(),
                final(self).port.history(),
                spec_read_buffer8_req(offset, old(buffer)@.len() as u8),
                old(self).spec_poll_budget(),
            ),
    {
        let len = buffer.len() as u8;
        let rsp = match self.rd_rx_buffer(offset, len) {
            Ok(v) => v,
            Err(e) => {
                return Err(e);
            },
        };
        buffer.clear();
        let mut i: usize = 0;
        while i < rsp.len()
            invariant
                i <= rsp@.len(),
                buffer@ == rsp@.take(i as int),
            decreases rsp@.len() - i,
        {
            buffer.push(rsp[i]);
            i += 1;
        }
        proof {
            assert(buffer@ =~= rsp@);
        }
        Ok(())
    }

    /// Read a 32-bit register value.
    pub fn rd_reg(&mut self, addr: u32) -> (r: Result<u32, Lr1120Error>)
        requires
            old(self).wf(),
        ensures
            preserves_frame(*old(self), *final(self)),
            r matches Ok(v) ==> final(self).wf() && exists|rsp: Seq<u8>|
                {
                    &&& rsp.len() == 6
                    &&& #[trigger] write_then_read_history(
                        old(self).port.history(),
                        final(self).port.history(),
                        spec_read_reg_mem32_req(addr, 1),
                        rsp,
                        old(self).spec_poll_budget(),
                    )
                    &&& crate::status::spec_status_byte_check(rsp[0]) is Ok
                    &&& v == spec_be32(rsp[2], rsp[3], rsp[4], rsp[5])
                },
    {
        let req = read_reg_mem32_req(addr, 1);
        let budget = self.poll_budget;
        let rsp = match self.read_checked(req.as_slice(), 6, budget) {
            Ok(v) => v,
            Err(e) => {
                return Err(e);
            },
        };
        let parsed = ReadRegMem32Rsp::from_bytes(rsp.as_slice());
        Ok(parsed.value())
    }

    /// Read `nb32` 32-bit words (at most 40) from memory; the returned
    /// bytes start with the validated status byte.
    pub fn rd_mem(&mut self, addr: u32, nb32: u8) -> (r: Result<Vec<u8>, Lr1120Error>)
        requires
            old(self).wf(),
            1 <= nb32,
        ensures
            preserves_frame(*old(self), *final(self)),
            nb32 > 40 ==> r == Err::<Vec<u8>, Lr1120Error>(Lr1120Error::CmdErr) && *final(self)
                == *old(self),
            r matches Ok(v) ==> final(self).wf() && v@.len() == 4 * (nb32 as int)
                && write_then_read_history(
                old(self).port.history(),
                final(self).port.history(),
                spec_read_reg_mem32_req(addr, nb32),
                v@,
                old(self).spec_poll_budget(),
            ) && crate::status::spec_status_byte_check(v@[0]) is Ok,
            nb32 <= 40 && r == Err::<Vec<u8>, Lr1120Error>(Lr1120Error::Timeout)
                ==> final(self).wf() && write_then_timeout_history(
                old(self).port.history(),
                final(self).port.history(),
                spec_read_reg_mem32_req(addr, nb32),
                old(self).spec_poll_budget(),
            ),
    {
        if nb32 > 40 {
            return Err(Lr1120Error::CmdErr);
        }
        let req = read_reg_mem32_req(addr, nb32);
        let budget = self.poll_budget;
        self.read_checked(req.as_slice(), 4 * (nb32 as usize), budget)
    }

    /// Write a 32-bit register value.
    pub fn wr_reg(&mut self, addr: u32, value: u32) -> (r: Result<(), Lr1120Error>)
        requires
            old(self).wf(),
        ensures
            preserves_frame(*old(self), *final(self)),
            r is Ok ==> final(self).wf() && write_cmd_history(
                old(self).port.history(),
                final(self).port.history(),
                spec_write_reg_mem32_cmd(addr, value),
            ),
    {
        let req = write_reg_mem32_cmd(addr, value);
        self.write(req.as_slice())
    }

    /// Write a register value under a mask: only the bits where the mask is
    /// high are changed.
    pub fn wr_reg_mask(&mut self, addr: u32, mask: u32, value: u32) -> (r: Result<(), Lr1120Error>)
        requires
            old(self).wf(),
        ensures
            preserves_frame(*old(self), *final(self)),
            r is Ok ==> final(self).wf() && write_cmd_history(
                old(self).port.history(),
                final(self).port.history(),
                spec_write_reg_mem_mask32_cmd(addr, mask, value),
            ),
    {
        let req = write_reg_mem_mask32_cmd(addr, mask, value);
        self.write(req.as_slice())
    }

    /// Write a bit field of a register: `width` bits at bit position
    /// `pos`.
    pub fn wr_field(&mut self, addr: u32, value: u32, pos: u8, width: u8) -> (r: Result<
        (),
        Lr1120Error,
    >)
        requires
            old(self).wf(),
            pos < 32,
        ensures
            preserves_frame(*old(self), *final(self)),
            r is Ok ==> final(self).wf() && write_cmd_history(
                old(self).port.history(),
                final(self).port.history(),
                spec_write_reg_mem_mask32_cmd(
                    addr,
                    (if width >= 32 {
                        0xFFFFFFFFu32
                    } else {
                        ((((1u32 << width) - 1) as u32) << pos)
                    }),
                    value << pos,
                ),
            ),
    {
        let mask: u32 = if width >= 32 {
            0xFFFFFFFF
        } else {
            proof {
                assert(1u32 << width >= 1) by (bit_vector)
                    requires
                        width < 32,
                ;
            }
            ((1u32 << width) - 1) << pos
        };
        let req = write_reg_mem_mask32_cmd(addr, mask, value << pos);
        self.write(req.as_slice())
    }
}

} // verus!
