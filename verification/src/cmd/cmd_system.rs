//! System commands: status, errors, calibration, clocks, DIO
//! configuration, sleep modes and identity.

use vstd::prelude::*;

#[allow(unused_imports)]
use crate::bytes::{be16, be32, be64, spec_be16, spec_be32, spec_be64, spec_u16_hi, spec_u16_lo,
    spec_u32_b0, spec_u32_b1, spec_u32_b2, spec_u32_b3, spec_u64_b0, spec_u64_b1, spec_u64_b2,
    spec_u64_b3, spec_u64_b4, spec_u64_b5, spec_u64_b6, spec_u64_b7, to_array, u16_hi, u16_lo,
    u32_b0, u32_b1, u32_b2, u32_b3, u64_b0, u64_b1, u64_b2, u64_b3, u64_b4, u64_b5, u64_b6,
    u64_b7};
#[allow(unused_imports)]
use crate::port::zero_bytes;
#[allow(unused_imports)]
use crate::status::{Intr, Status};

verus! {

/// Device type.
#[derive(Debug, Clone, Copy, PartialEq, Eq, Structural)]
pub enum HwType {
    Lr1121,
    Lr1120,
    Bootloader,
    Lr1110,
}

impl HwType {
    /// Numeric code of this value on the wire.
    pub open spec fn spec_code(&self) -> u8 {
        match self {
            HwType::Lr1121 => 3,
            HwType::Lr1120 => 2,
            HwType::Bootloader => 223,
            HwType::Lr1110 => 1,
        }
    }

    /// Encode this value for a request byte.
    #[verifier::when_used_as_spec(spec_code)]
    pub fn code(&self) -> (r: u8)
        ensures
            r == self.spec_code(),
    {
        match self {
            HwType::Lr1121 => 3,
            HwType::Lr1120 => 2,
            HwType::Bootloader => 223,
            HwType::Lr1110 => 1,
        }
    }

    /// Decode the device type byte; unknown codes map to the base device.
    pub open spec fn spec_from_code(v: u8) -> HwType {
        if v == 3 {
            HwType::Lr1121
        } else if v == 2 {
            HwType::Lr1120
        } else if v == 223 {
            HwType::Bootloader
        } else {
            HwType::Lr1110
        }
    }

    /// Decode a response byte.
    pub fn from_code(v: u8) -> (r: HwType)
        ensures
            r == HwType::spec_from_code(v),
    {
        match v {
            3 => HwType::Lr1121,
            2 => HwType::Lr1120,
            223 => HwType::Bootloader,
            _ => HwType::Lr1110,
        }
    }
}

/// LF (32.768kHz) clock source selection: RC, crystal, or an external
/// clock on DIO11.
#[derive(Debug, Clone, Copy, PartialEq, Eq, Structural)]
pub enum LfClock {
    Rc,
    Xtal,
    Dio11,
}

impl LfClock {
    /// Numeric code of this value on the wire.
    pub open spec fn spec_code(&self) -> u8 {
        match self {
            LfClock::Rc => 0,
            LfClock::Xtal => 1,
            LfClock::Dio11 => 2,
        }
    }

    /// Encode this value for a request byte.
    #[verifier::when_used_as_spec(spec_code)]
    pub fn code(&self) -> (r: u8)
        ensures
            r == self.spec_code(),
    {
        match self {
            LfClock::Rc => 0,
            LfClock::Xtal => 1,
            LfClock::Dio11 => 2,
        }
    }
}

/// TCXO supply voltage on the VTCXO pin.  Precision is typically
/// +/-50mV for the 1.8V setting.
#[derive(Debug, Clone, Copy, PartialEq, Eq, Structural)]
pub enum TcxoVoltage {
    Tcxo1v6,
    Tcxo1v7,
    Tcxo1v8,
    Tcxo2v2,
    Tcxo2v4,
    Tcxo2v7,
    Tcxo3v0,
    Tcxo3v3,
}

impl TcxoVoltage {
    /// Numeric code of this value on the wire.
    pub open spec fn spec_code(&self) -> u8 {
        match self {
            TcxoVoltage::Tcxo1v6 => 0,
            TcxoVoltage::Tcxo1v7 => 1,
            TcxoVoltage::Tcxo1v8 => 2,
            TcxoVoltage::Tcxo2v2 => 3,
            TcxoVoltage::Tcxo2v4 => 4,
            TcxoVoltage::Tcxo2v7 => 5,
            TcxoVoltage::Tcxo3v0 => 6,
            TcxoVoltage::Tcxo3v3 => 7,
        }
    }

    /// Encode this value for a request byte.
    #[verifier::when_used_as_spec(spec_code)]
    pub fn code(&self) -> (r: u8)
        ensures
            r == self.spec_code(),
    {
        match self {
            TcxoVoltage::Tcxo1v6 => 0,
            TcxoVoltage::Tcxo1v7 => 1,
            TcxoVoltage::Tcxo1v8 => 2,
            TcxoVoltage::Tcxo2v2 => 3,
            TcxoVoltage::Tcxo2v4 => 4,
            TcxoVoltage::Tcxo2v7 => 5,
            TcxoVoltage::Tcxo3v0 => 6,
            TcxoVoltage::Tcxo3v3 => 7,
        }
    }
}

/// Reboot target: a plain software restart, or a bootloader that does
/// not execute the firmware but allows firmware upgrades.
#[derive(Debug, Clone, Copy, PartialEq, Eq, Structural)]
pub enum StayInBootloader {
    SoftwareRestart,
    BootloaderMode,
}

impl StayInBootloader {
    /// Numeric code of this value on the wire.
    pub open spec fn spec_code(&self) -> u8 {
        match self {
            StayInBootloader::SoftwareRestart => 0,
            StayInBootloader::BootloaderMode => 3,
        }
    }

    /// Encode this value for a request byte.
    #[verifier::when_used_as_spec(spec_code)]
    pub fn code(&self) -> (r: u8)
        ensures
            r == self.spec_code(),
    {
        match self {
            StayInBootloader::SoftwareRestart => 0,
            StayInBootloader::BootloaderMode => 3,
        }
    }
}

/// Clock used in standby: RC or crystal oscillator.
#[derive(Debug, Clone, Copy, PartialEq, Eq, Structural)]
pub enum StandbyMode {
    Rc,
    Xosc,
}

impl StandbyMode {
    /// Numeric code of this value on the wire.
    pub open spec fn spec_code(&self) -> u8 {
        match self {
            StandbyMode::Rc => 0,
            StandbyMode::Xosc => 1,
        }
    }

    /// Encode this value for a request byte.
    #[verifier::when_used_as_spec(spec_code)]
    pub fn code(&self) -> (r: u8)
        ensures
            r == self.spec_code(),
    {
        match self {
            StandbyMode::Rc => 0,
            StandbyMode::Xosc => 1,
        }
    }
}

/// Whether pull-up/pull-down resistors are added on the configured RF
/// switch and IRQ DIOs in sleep mode.
#[derive(Debug, Clone, Copy, PartialEq, Eq, Structural)]
pub enum Enable {
    Disabled,
    Enabled,
}

impl Enable {
    /// Numeric code of this value on the wire.
    pub open spec fn spec_code(&self) -> u8 {
        match self {
            Enable::Disabled => 0,
            Enable::Enabled => 1,
        }
    }

    /// Encode this value for a request byte.
    #[verifier::when_used_as_spec(spec_code)]
    pub fn code(&self) -> (r: u8)
        ensures
            r == self.spec_code(),
    {
        match self {
            Enable::Disabled => 0,
            Enable::Enabled => 1,
        }
    }
}

/// Regulator choice: LDO in all modes (default), or automatically
/// switch on the DC-DC converter in FS, RX and TX modes.
#[derive(Debug, Clone, Copy, PartialEq, Eq, Structural)]
pub enum RegMode {
    LdoOnly,
    DcdcEnabled,
}

impl RegMode {
    /// Numeric code of this value on the wire.
    pub open spec fn spec_code(&self) -> u8 {
        match self {
            RegMode::LdoOnly => 0,
            RegMode::DcdcEnabled => 1,
        }
    }

    /// Encode this value for a request byte.
    #[verifier::when_used_as_spec(spec_code)]
    pub fn code(&self) -> (r: u8)
        ensures
            r == self.spec_code(),
    {
        match self {
            RegMode::LdoOnly => 0,
            RegMode::DcdcEnabled => 1,
        }
    }
}

/// Bytes of the GetStatus request.
pub open spec fn spec_get_status_req() -> Seq<u8> {
    seq![
        0x01u8,
        0x00u8,
    ]
}

/// Returns the status of the device including both status bytes and the
/// interrupt flags.  Clears the reset-source field of the status.
pub fn get_status_req() -> (r: [u8; 2])
    ensures
        r@ == spec_get_status_req(),
{
    [
        0x01,
        0x00,
    ]
}

/// Bytes of the GetErrors request.
pub open spec fn spec_get_errors_req() -> Seq<u8> {
    seq![
        0x01u8,
        0x0Du8,
    ]
}

/// Returns the pending errors that occurred since the last ClearErrors or
/// circuit startup.
pub fn get_errors_req() -> (r: [u8; 2])
    ensures
        r@ == spec_get_errors_req(),
{
    [
        0x01,
        0x0D,
    ]
}

/// Bytes of the ClearErrors request.
pub open spec fn spec_clear_errors_cmd() -> Seq<u8> {
    seq![
        0x01u8,
        0x0Eu8,
    ]
}

/// Clears all error flags pending in the device.  Error flags can not be
/// cleared individually.
pub fn clear_errors_cmd() -> (r: [u8; 2])
    ensures
        r@ == spec_clear_errors_cmd(),
{
    [
        0x01,
        0x0E,
    ]
}

/// Bytes of the ReadBuffer8 request.
pub open spec fn spec_read_buffer8_req(offset: u8, len: u8) -> Seq<u8> {
    seq![
        0x01u8,
        0x0Au8,
        offset,
        len,
    ]
}

/// Reads a block of bytes from the radio RX buffer starting at a specific
/// offset.  The RX buffer is a ring buffer.
pub fn read_buffer8_req(offset: u8, len: u8) -> (r: [u8; 4])
    ensures
        r@ == spec_read_buffer8_req(offset, len),
{
    [
        0x01,
        0x0A,
        offset,
        len,
    ]
}

/// Bytes of the WriteBuffer8 request.
pub open spec fn spec_write_buffer8_cmd() -> Seq<u8> {
    seq![
        0x01u8,
        0x09u8,
    ]
}

/// Writes bytes into the radio TX buffer; the data block follows as a
/// trailing payload.
pub fn write_buffer8_cmd() -> (r: [u8; 2])
    ensures
        r@ == spec_write_buffer8_cmd(),
{
    [
        0x01,
        0x09,
    ]
}

/// Bytes of the ClearRxBuffer request.
pub open spec fn spec_clear_rx_buffer_cmd() -> Seq<u8> {
    seq![
        0x01u8,
        0x0Bu8,
    ]
}

/// Clears all data in the radio RX buffer by writing zero over the whole
/// buffer.  Mainly for debugging.
pub fn clear_rx_buffer_cmd() -> (r: [u8; 2])
    ensures
        r@ == spec_clear_rx_buffer_cmd(),
{
    [
        0x01,
        0x0B,
    ]
}

/// Bytes of the GetRandomNumber request.
pub open spec fn spec_get_random_number_req() -> Seq<u8> {
    seq![
        0x01u8,
        0x20u8,
    ]
}

/// Gets a 32-bit random number.  Not for security purposes.
pub fn get_random_number_req() -> (r: [u8; 2])
    ensures
        r@ == spec_get_random_number_req(),
{
    [
        0x01,
        0x20,
    ]
}

/// Bytes of the EnableSpiCrc request.
pub open spec fn spec_enable_spi_crc_cmd(enable: u8, crc: u8) -> Seq<u8> {
    seq![
        0x01u8,
        0x28u8,
        enable,
        crc,
    ]
}

/// Enables or disables an 8-bit CRC on the SPI interface.  The CRC uses the
/// polynomial 0x65 (reversed reciprocal) with initial value 0xFF.  This
/// command is always protected by the CRC.
pub fn enable_spi_crc_cmd(enable: u8, crc: u8) -> (r: [u8; 4])
    ensures
        r@ == spec_enable_spi_crc_cmd(enable, crc),
{
    [
        0x01,
        0x28,
        enable,
        crc,
    ]
}

/// Bytes of the GetVersion request.
pub open spec fn spec_get_version_req() -> Seq<u8> {
    seq![
        0x01u8,
        0x01u8,
    ]
}

/// Returns the version of the hardware and firmware.
pub fn get_version_req() -> (r: [u8; 2])
    ensures
        r@ == spec_get_version_req(),
{
    [
        0x01,
        0x01,
    ]
}

/// Bytes of the Calibrate request.
pub open spec fn spec_calibrate_cmd(lf_rc: bool, hf_rc: bool, pll: bool, adc: bool, img: bool, pll_tx: bool) -> Seq<u8> {
    seq![
        0x01u8,
        0x0Fu8,
        ((if lf_rc { 1u8 } else { 0u8 }) | (if hf_rc { 2u8 } else { 0u8 }) | (if pll { 4u8 } else { 0u8 }) | (if adc { 8u8 } else { 0u8 }) | (if img { 16u8 } else { 0u8 }) | (if pll_tx { 32u8 } else { 0u8 })),
    ]
}

/// Calibrates the requested blocks.  Operates in any mode and returns to
/// Standby RC after completion.  PLL TX calibration is required before the
/// first Bluetooth Low Energy transmission.
pub fn calibrate_cmd(lf_rc: bool, hf_rc: bool, pll: bool, adc: bool, img: bool, pll_tx: bool) -> (r: [u8; 3])
    ensures
        r@ == spec_calibrate_cmd(lf_rc, hf_rc, pll, adc, img, pll_tx),
{
    [
        0x01,
        0x0F,
        (if lf_rc { 1u8 } else { 0u8 }) | (if hf_rc { 2 } else { 0 }) | (if pll { 4 } else { 0 }) | (if adc { 8 } else { 0 }) | (if img { 16 } else { 0 }) | (if pll_tx { 32 } else { 0 }),
    ]
}

/// Bytes of the CalibImage request.
pub open spec fn spec_calib_image_cmd(freq1: u8, freq2: u8) -> Seq<u8> {
    seq![
        0x01u8,
        0x11u8,
        freq1,
        freq2,
    ]
}

/// Launches image calibration for the given frequency range on the sub-GHz
/// path.  Frequencies are in 4MHz steps.  Operates in any mode and returns
/// to Standby RC.  Advised after large temperature variations or frequency
/// changes.
pub fn calib_image_cmd(freq1: u8, freq2: u8) -> (r: [u8; 4])
    ensures
        r@ == spec_calib_image_cmd(freq1, freq2),
{
    [
        0x01,
        0x11,
        freq1,
        freq2,
    ]
}

/// Bytes of the ConfigLfClock request.
pub open spec fn spec_config_lf_clock_cmd(lf_clock: LfClock, busy_release: bool) -> Seq<u8> {
    seq![
        0x01u8,
        0x16u8,
        ((lf_clock.spec_code() & 0x3) | (if busy_release { 4u8 } else { 0u8 })),
    ]
}

/// Configures the 32kHz clock source.
pub fn config_lf_clock_cmd(lf_clock: LfClock, busy_release: bool) -> (r: [u8; 3])
    ensures
        r@ == spec_config_lf_clock_cmd(lf_clock, busy_release),
{
    [
        0x01,
        0x16,
        (lf_clock.code() & 0x3) | (if busy_release { 4 } else { 0 }),
    ]
}

/// Bytes of the SetTcxoMode request.
pub open spec fn spec_set_tcxo_mode_cmd(tcxo_voltage: TcxoVoltage, delay: u32) -> Seq<u8> {
    seq![
        0x01u8,
        0x17u8,
        tcxo_voltage.spec_code(),
        spec_u32_b2(delay),
        spec_u32_b1(delay),
        spec_u32_b0(delay),
    ]
}

/// Configures the chip for a connected TCXO.  Must be called before GetTemp
/// if a TCXO is used.  Only operates in Standby RC mode.  A complete chip
/// reset is required to return to normal XOSC operation.
pub fn set_tcxo_mode_cmd(tcxo_voltage: TcxoVoltage, delay: u32) -> (r: [u8; 6])
    ensures
        r@ == spec_set_tcxo_mode_cmd(tcxo_voltage, delay),
{
    [
        0x01,
        0x17,
        tcxo_voltage.code(),
        u32_b2(delay),
        u32_b1(delay),
        u32_b0(delay),
    ]
}

/// Bytes of the Reboot request.
pub open spec fn spec_reboot_cmd(stay_in_bootloader: StayInBootloader) -> Seq<u8> {
    seq![
        0x01u8,
        0x18u8,
        stay_in_bootloader.spec_code(),
    ]
}

/// Triggers a restart of the firmware.  The 32kHz clock configuration is
/// retained.
pub fn reboot_cmd(stay_in_bootloader: StayInBootloader) -> (r: [u8; 3])
    ensures
        r@ == spec_reboot_cmd(stay_in_bootloader),
{
    [
        0x01,
        0x18,
        stay_in_bootloader.code(),
    ]
}

/// Bytes of the SetSleep request.
pub open spec fn spec_set_sleep_cmd(wakeup_rtc: bool, ret_en: bool, sleep_time: u32) -> Seq<u8> {
    seq![
        0x01u8,
        0x1Bu8,
        ((if wakeup_rtc { 2u8 } else { 0u8 }) | (if ret_en { 1u8 } else { 0u8 })),
        spec_u32_b3(sleep_time),
        spec_u32_b2(sleep_time),
        spec_u32_b1(sleep_time),
        spec_u32_b0(sleep_time),
    ]
}

/// Puts the device in power-down or sleep mode with optional automatic
/// wake-up.  The device exits on an NSS falling edge.  After wake-up the
/// firmware restarts and the chip goes to Standby RC when BUSY goes low.
pub fn set_sleep_cmd(wakeup_rtc: bool, ret_en: bool, sleep_time: u32) -> (r: [u8; 7])
    ensures
        r@ == spec_set_sleep_cmd(wakeup_rtc, ret_en, sleep_time),
{
    [
        0x01,
        0x1B,
        (if wakeup_rtc { 2u8 } else { 0 }) | (if ret_en { 1 } else { 0 }),
        u32_b3(sleep_time),
        u32_b2(sleep_time),
        u32_b1(sleep_time),
        u32_b0(sleep_time),
    ]
}

/// Bytes of the SetStandby request.
pub open spec fn spec_set_standby_cmd(standby_mode: StandbyMode) -> Seq<u8> {
    seq![
        0x01u8,
        0x1Cu8,
        standby_mode.spec_code(),
    ]
}

/// Sets the device in standby mode with the chosen 32MHz oscillator.  RC is
/// the default for all automatic mode transitions; crystal/TCXO allows
/// faster transitions at the expense of higher power.
pub fn set_standby_cmd(standby_mode: StandbyMode) -> (r: [u8; 3])
    ensures
        r@ == spec_set_standby_cmd(standby_mode),
{
    [
        0x01,
        0x1C,
        standby_mode.code(),
    ]
}

/// Bytes of the SetFs request.
pub open spec fn spec_set_fs_cmd() -> Seq<u8> {
    seq![
        0x01u8,
        0x1Du8,
    ]
}

/// Sets the chip into frequency synthesis (FS) mode.
pub fn set_fs_cmd() -> (r: [u8; 2])
    ensures
        r@ == spec_set_fs_cmd(),
{
    [
        0x01,
        0x1D,
    ]
}

/// Bytes of the SetDioIrqParams request.
pub open spec fn spec_set_dio_irq_params_cmd(irq1_to_enable: u32, irq2_to_enable: u32) -> Seq<u8> {
    seq![
        0x01u8,
        0x13u8,
        spec_u32_b3(irq1_to_enable),
        spec_u32_b2(irq1_to_enable),
        spec_u32_b1(irq1_to_enable),
        spec_u32_b0(irq1_to_enable),
        spec_u32_b3(irq2_to_enable),
        spec_u32_b2(irq2_to_enable),
        spec_u32_b1(irq2_to_enable),
        spec_u32_b0(irq2_to_enable),
    ]
}

/// Configures which interrupt signals are activated on the DIO9 (IRQ pin 1)
/// and DIO11 (IRQ pin 2) interrupt pins.
pub fn set_dio_irq_params_cmd(irq1_to_enable: u32, irq2_to_enable: u32) -> (r: [u8; 10])
    ensures
        r@ == spec_set_dio_irq_params_cmd(irq1_to_enable, irq2_to_enable),
{
    [
        0x01,
        0x13,
        u32_b3(irq1_to_enable),
        u32_b2(irq1_to_enable),
        u32_b1(irq1_to_enable),
        u32_b0(irq1_to_enable),
        u32_b3(irq2_to_enable),
        u32_b2(irq2_to_enable),
        u32_b1(irq2_to_enable),
        u32_b0(irq2_to_enable),
    ]
}

/// Bytes of the ClearIrq request.
pub open spec fn spec_clear_irq_cmd(irq_to_clear: u32) -> Seq<u8> {
    seq![
        0x01u8,
        0x14u8,
        spec_u32_b3(irq_to_clear),
        spec_u32_b2(irq_to_clear),
        spec_u32_b1(irq_to_clear),
        spec_u32_b0(irq_to_clear),
    ]
}

/// Clears the selected interrupt signals by writing a one in the respective
/// bit.  The bit mapping is identical to the interrupt enable mapping.
pub fn clear_irq_cmd(irq_to_clear: u32) -> (r: [u8; 6])
    ensures
        r@ == spec_clear_irq_cmd(irq_to_clear),
{
    [
        0x01,
        0x14,
        u32_b3(irq_to_clear),
        u32_b2(irq_to_clear),
        u32_b1(irq_to_clear),
        u32_b0(irq_to_clear),
    ]
}

/// Bytes of the SetDioAsRfSwitch request.
pub open spec fn spec_set_dio_as_rf_switch_cmd(rfsw_enable: u8, rfsw_stby_cfg: u8, rfsw_rx_cfg: u8, rfsw_tx_cfg: u8, rfsw_tx_hp_cfg: u8, rfsw_tx_hf_cfg: u8, rfsw_gnss_cfg: u8, rfsw_wifi_cfg: u8) -> Seq<u8> {
    seq![
        0x01u8,
        0x12u8,
        rfsw_enable,
        rfsw_stby_cfg,
        rfsw_rx_cfg,
        rfsw_tx_cfg,
        rfsw_tx_hp_cfg,
        rfsw_tx_hf_cfg,
        rfsw_gnss_cfg,
        rfsw_wifi_cfg,
    ]
}

/// Configures DIO5 to DIO8 and DIO10 to control external RF switches or
/// LNAs on the sub-GHz, GNSS, Wi-Fi and HF RF paths.  Only works in Standby
/// RC mode.  Only the lowest five bits of each configuration are used.
pub fn set_dio_as_rf_switch_cmd(rfsw_enable: u8, rfsw_stby_cfg: u8, rfsw_rx_cfg: u8, rfsw_tx_cfg: u8, rfsw_tx_hp_cfg: u8, rfsw_tx_hf_cfg: u8, rfsw_gnss_cfg: u8, rfsw_wifi_cfg: u8) -> (r: [u8; 10])
    ensures
        r@ == spec_set_dio_as_rf_switch_cmd(rfsw_enable, rfsw_stby_cfg, rfsw_rx_cfg, rfsw_tx_cfg, rfsw_tx_hp_cfg, rfsw_tx_hf_cfg, rfsw_gnss_cfg, rfsw_wifi_cfg),
{
    [
        0x01,
        0x12,
        rfsw_enable,
        rfsw_stby_cfg,
        rfsw_rx_cfg,
        rfsw_tx_cfg,
        rfsw_tx_hp_cfg,
        rfsw_tx_hf_cfg,
        rfsw_gnss_cfg,
        rfsw_wifi_cfg,
    ]
}

/// Bytes of the DriveDiosInSleepMode request.
pub open spec fn spec_drive_dios_in_sleep_mode_cmd(enable: Enable) -> Seq<u8> {
    seq![
        0x01u8,
        0x2Au8,
        enable.spec_code(),
    ]
}

/// Enables or disables pull-up/pull-down resistors on the configured RF
/// switch and IRQ line DIOs in sleep mode.  Saves power when RF switches
/// are supplied by the chip's DIOs.
pub fn drive_dios_in_sleep_mode_cmd(enable: Enable) -> (r: [u8; 3])
    ensures
        r@ == spec_drive_dios_in_sleep_mode_cmd(enable),
{
    [
        0x01,
        0x2A,
        enable.code(),
    ]
}

/// Bytes of the GetTemp request.
pub open spec fn spec_get_temp_req() -> Seq<u8> {
    seq![
        0x01u8,
        0x1Au8,
    ]
}

/// Returns the temperature measurement from the built-in sensor.  Uses XOSC
/// mode, so SetTcxoMode must be called first if a TCXO is connected.
pub fn get_temp_req() -> (r: [u8; 2])
    ensures
        r@ == spec_get_temp_req(),
{
    [
        0x01,
        0x1A,
    ]
}

/// Bytes of the SetRegMode request.
pub open spec fn spec_set_reg_mode_cmd(reg_mode: RegMode) -> Seq<u8> {
    seq![
        0x01u8,
        0x10u8,
        reg_mode.spec_code(),
    ]
}

/// Sets whether the DC-DC converter is enabled for XOSC, FS, RX and TX
/// modes.  Only works in Standby RC mode.
pub fn set_reg_mode_cmd(reg_mode: RegMode) -> (r: [u8; 3])
    ensures
        r@ == spec_set_reg_mode_cmd(reg_mode),
{
    [
        0x01,
        0x10,
        reg_mode.code(),
    ]
}

/// Bytes of the GetVbat request.
pub open spec fn spec_get_vbat_req() -> Seq<u8> {
    seq![
        0x01u8,
        0x19u8,
    ]
}

/// Returns the battery supply voltage (VBAT) as a function of the reference
/// voltage.
pub fn get_vbat_req() -> (r: [u8; 2])
    ensures
        r@ == spec_get_vbat_req(),
{
    [
        0x01,
        0x19,
    ]
}

/// Bytes of the GetChipEui request.
pub open spec fn spec_get_chip_eui_req() -> Seq<u8> {
    seq![
        0x01u8,
        0x25u8,
    ]
}

/// Reads the pre-provisioned ChipEui: a globally unique number assigned in
/// production, stored in persistent memory.  Can be used as the LoRaWAN
/// DeviceEui.
pub fn get_chip_eui_req() -> (r: [u8; 2])
    ensures
        r@ == spec_get_chip_eui_req(),
{
    [
        0x01,
        0x25,
    ]
}

/// Bytes of the GetSemtechJoinEui request.
pub open spec fn spec_get_semtech_join_eui_req() -> Seq<u8> {
    seq![
        0x01u8,
        0x26u8,
    ]
}

/// Reads the pre-programmed JoinEui installed in production.  The LoRaWAN
/// root keys are derived from this JoinEui.  Stored in persistent memory.
pub fn get_semtech_join_eui_req() -> (r: [u8; 2])
    ensures
        r@ == spec_get_semtech_join_eui_req(),
{
    [
        0x01,
        0x26,
    ]
}

// Response structs

/// Response for the GetStatus command.
pub struct StatusRsp([u8; 6]);

impl StatusRsp {
    /// The raw response bytes.
    pub closed spec fn bytes(&self) -> Seq<u8> {
        self.0@
    }

    /// Create a zero-filled response buffer.
    pub fn new() -> (r: Self)
        ensures
            r.bytes() == zero_bytes(6),
    {
        let r = StatusRsp([0u8; 6]);
        proof {
            assert(r.bytes() =~= zero_bytes(6));
        }
        r
    }

    /// Wrap the raw bytes returned by a read transaction.
    pub fn from_bytes(bytes: &[u8]) -> (r: Self)
        requires
            bytes@.len() == 6,
        ensures
            r.bytes() == bytes@,
    {
        StatusRsp(to_array(bytes))
    }

    /// Return the full two-byte status header.
    pub fn status(&self) -> (r: Status)
        ensures
            r@ == spec_be16(self.bytes()[0], self.bytes()[1]),
    {
        Status::from_array([self.0[0], self.0[1]])
    }

    /// IRQ status register.
    pub fn intr(&self) -> (r: Intr)
        ensures
            r@ == spec_be32(self.bytes()[2], self.bytes()[3], self.bytes()[4], self.bytes()[5]),
    {
        Intr::new(be32(self.0[2], self.0[3], self.0[4], self.0[5]))
    }
}

/// Response for the GetErrors command.
pub struct ErrorsRsp([u8; 3]);

impl ErrorsRsp {
    /// The raw response bytes.
    pub closed spec fn bytes(&self) -> Seq<u8> {
        self.0@
    }

    /// Create a zero-filled response buffer.
    pub fn new() -> (r: Self)
        ensures
            r.bytes() == zero_bytes(3),
    {
        let r = ErrorsRsp([0u8; 3]);
        proof {
            assert(r.bytes() =~= zero_bytes(3));
        }
        r
    }

    /// Wrap the raw bytes returned by a read transaction.
    pub fn from_bytes(bytes: &[u8]) -> (r: Self)
        requires
            bytes@.len() == 3,
        ensures
            r.bytes() == bytes@,
    {
        ErrorsRsp(to_array(bytes))
    }

    /// Return the status header (short form, from byte 0).
    pub fn status(&self) -> (r: Status)
        ensures
            r@ == ((self.bytes()[0] as u16) << 8),
    {
        Status::from_byte(self.0[0])
    }

    /// LF RC calibration error.
    pub fn lf_rc_calib_err(&self) -> (r: bool)
        ensures
            r == ((self.bytes()[1] & 0x01) != 0),
    {
        (self.0[1] & 0x01) != 0
    }

    /// HF RC calibration error.
    pub fn hf_rc_calib_err(&self) -> (r: bool)
        ensures
            r == ((self.bytes()[1] & 0x02) != 0),
    {
        (self.0[1] & 0x02) != 0
    }

    /// ADC calibration error.
    pub fn adc_calib_err(&self) -> (r: bool)
        ensures
            r == ((self.bytes()[1] & 0x04) != 0),
    {
        (self.0[1] & 0x04) != 0
    }

    /// PLL calibration error.
    pub fn pll_calib_err(&self) -> (r: bool)
        ensures
            r == ((self.bytes()[1] & 0x08) != 0),
    {
        (self.0[1] & 0x08) != 0
    }

    /// Image rejection calibration error.
    pub fn img_calib_err(&self) -> (r: bool)
        ensures
            r == ((self.bytes()[1] & 0x10) != 0),
    {
        (self.0[1] & 0x10) != 0
    }

    /// HF XOSC start error.
    pub fn hf_xosc_start_err(&self) -> (r: bool)
        ensures
            r == ((self.bytes()[1] & 0x20) != 0),
    {
        (self.0[1] & 0x20) != 0
    }

    /// LF XOSC start error.
    pub fn lf_xosc_start_err(&self) -> (r: bool)
        ensures
            r == ((self.bytes()[1] & 0x40) != 0),
    {
        (self.0[1] & 0x40) != 0
    }

    /// PLL lock error.
    pub fn pll_lock_err(&self) -> (r: bool)
        ensures
            r == ((self.bytes()[1] & 0x80) != 0),
    {
        (self.0[1] & 0x80) != 0
    }

    /// RX ADC offset error.
    pub fn rx_adc_offset_err(&self) -> (r: bool)
        ensures
            r == ((self.bytes()[2] & 0x01) != 0),
    {
        (self.0[2] & 0x01) != 0
    }

    /// The error flags as a 16-bit value.
    pub fn value(&self) -> (r: u16)
        ensures
            r == spec_be16(self.bytes()[1], self.bytes()[2]),
    {
        be16(self.0[1], self.0[2])
    }

    /// True when no error is present.
    pub fn none(&self) -> (r: bool)
        ensures
            r == (self.bytes()[1] == 0 && self.bytes()[2] == 0),
    {
        self.0[1] == 0 && self.0[2] == 0
    }
}

/// Response header for the ReadBuffer8 command; the data bytes follow
/// the status byte in the raw response.
pub struct ReadBuffer8Rsp([u8; 2]);

impl ReadBuffer8Rsp {
    /// The raw response bytes.
    pub closed spec fn bytes(&self) -> Seq<u8> {
        self.0@
    }

    /// Create a zero-filled response buffer.
    pub fn new() -> (r: Self)
        ensures
            r.bytes() == zero_bytes(2),
    {
        let r = ReadBuffer8Rsp([0u8; 2]);
        proof {
            assert(r.bytes() =~= zero_bytes(2));
        }
        r
    }

    /// Wrap the raw bytes returned by a read transaction.
    pub fn from_bytes(bytes: &[u8]) -> (r: Self)
        requires
            bytes@.len() == 2,
        ensures
            r.bytes() == bytes@,
    {
        ReadBuffer8Rsp(to_array(bytes))
    }

    /// Return the status header (short form, from byte 0).
    pub fn status(&self) -> (r: Status)
        ensures
            r@ == ((self.bytes()[0] as u16) << 8),
    {
        Status::from_byte(self.0[0])
    }
}

/// Response for the GetRandomNumber command.
pub struct RandomNumberRsp([u8; 5]);

impl RandomNumberRsp {
    /// The raw response bytes.
    pub closed spec fn bytes(&self) -> Seq<u8> {
        self.0@
    }

    /// Create a zero-filled response buffer.
    pub fn new() -> (r: Self)
        ensures
            r.bytes() == zero_bytes(5),
    {
        let r = RandomNumberRsp([0u8; 5]);
        proof {
            assert(r.bytes() =~= zero_bytes(5));
        }
        r
    }

    /// Wrap the raw bytes returned by a read transaction.
    pub fn from_bytes(bytes: &[u8]) -> (r: Self)
        requires
            bytes@.len() == 5,
        ensures
            r.bytes() == bytes@,
    {
        RandomNumberRsp(to_array(bytes))
    }

    /// Return the status header (short form, from byte 0).
    pub fn status(&self) -> (r: Status)
        ensures
            r@ == ((self.bytes()[0] as u16) << 8),
    {
        Status::from_byte(self.0[0])
    }

    /// The 32-bit random number.
    pub fn random_number(&self) -> (r: u32)
        ensures
            r == spec_be32(self.bytes()[1], self.bytes()[2], self.bytes()[3], self.bytes()[4]),
    {
        be32(self.0[1], self.0[2], self.0[3], self.0[4])
    }
}

/// Response for the GetVersion command.
pub struct VersionRsp([u8; 5]);

impl VersionRsp {
    /// The raw response bytes.
    pub closed spec fn bytes(&self) -> Seq<u8> {
        self.0@
    }

    /// Create a zero-filled response buffer.
    pub fn new() -> (r: Self)
        ensures
            r.bytes() == zero_bytes(5),
    {
        let r = VersionRsp([0u8; 5]);
        proof {
            assert(r.bytes() =~= zero_bytes(5));
        }
        r
    }

    /// Wrap the raw bytes returned by a read transaction.
    pub fn from_bytes(bytes: &[u8]) -> (r: Self)
        requires
            bytes@.len() == 5,
        ensures
            r.bytes() == bytes@,
    {
        VersionRsp(to_array(bytes))
    }

    /// Return the status header (short form, from byte 0).
    pub fn status(&self) -> (r: Status)
        ensures
            r@ == ((self.bytes()[0] as u16) << 8),
    {
        Status::from_byte(self.0[0])
    }

    /// Hardware version.
    pub fn hw_version(&self) -> (r: u8)
        ensures
            r == self.bytes()[1],
    {
        self.0[1]
    }

    /// Device type.
    pub fn hw_type(&self) -> (r: HwType)
        ensures
            r == HwType::spec_from_code(self.bytes()[2]),
    {
        HwType::from_code(self.0[2])
    }

    /// Firmware major version number.
    pub fn fw_major(&self) -> (r: u8)
        ensures
            r == self.bytes()[3],
    {
        self.0[3]
    }

    /// Firmware minor version number.
    pub fn fw_minor(&self) -> (r: u8)
        ensures
            r == self.bytes()[4],
    {
        self.0[4]
    }
}

/// Response for the GetTemp command.
pub struct TempRsp([u8; 3]);

impl TempRsp {
    /// The raw response bytes.
    pub closed spec fn bytes(&self) -> Seq<u8> {
        self.0@
    }

    /// Create a zero-filled response buffer.
    pub fn new() -> (r: Self)
        ensures
            r.bytes() == zero_bytes(3),
    {
        let r = TempRsp([0u8; 3]);
        proof {
            assert(r.bytes() =~= zero_bytes(3));
        }
        r
    }

    /// Wrap the raw bytes returned by a read transaction.
    pub fn from_bytes(bytes: &[u8]) -> (r: Self)
        requires
            bytes@.len() == 3,
        ensures
            r.bytes() == bytes@,
    {
        TempRsp(to_array(bytes))
    }

    /// Return the status header (short form, from byte 0).
    pub fn status(&self) -> (r: Status)
        ensures
            r@ == ((self.bytes()[0] as u16) << 8),
    {
        Status::from_byte(self.0[0])
    }

    /// Temperature value, 11-bit precision.
    pub fn temp(&self) -> (r: u16)
        ensures
            r == spec_be16(self.bytes()[1], self.bytes()[2]),
    {
        be16(self.0[1], self.0[2])
    }
}

/// Response for the GetVbat command.
pub struct VbatRsp([u8; 2]);

impl VbatRsp {
    /// The raw response bytes.
    pub closed spec fn bytes(&self) -> Seq<u8> {
        self.0@
    }

    /// Create a zero-filled response buffer.
    pub fn new() -> (r: Self)
        ensures
            r.bytes() == zero_bytes(2),
    {
        let r = VbatRsp([0u8; 2]);
        proof {
            assert(r.bytes() =~= zero_bytes(2));
        }
        r
    }

    /// Wrap the raw bytes returned by a read transaction.
    pub fn from_bytes(bytes: &[u8]) -> (r: Self)
        requires
            bytes@.len() == 2,
        ensures
            r.bytes() == bytes@,
    {
        VbatRsp(to_array(bytes))
    }

    /// Return the status header (short form, from byte 0).
    pub fn status(&self) -> (r: Status)
        ensures
            r@ == ((self.bytes()[0] as u16) << 8),
    {
        Status::from_byte(self.0[0])
    }

    /// Battery voltage measurement value.
    pub fn vbat(&self) -> (r: u8)
        ensures
            r == self.bytes()[1],
    {
        self.0[1]
    }
}

/// Response for the GetChipEui command.
pub struct ChipEuiRsp([u8; 9]);

impl ChipEuiRsp {
    /// The raw response bytes.
    pub closed spec fn bytes(&self) -> Seq<u8> {
        self.0@
    }

    /// Create a zero-filled response buffer.
    pub fn new() -> (r: Self)
        ensures
            r.bytes() == zero_bytes(9),
    {
        let r = ChipEuiRsp([0u8; 9]);
        proof {
            assert(r.bytes() =~= zero_bytes(9));
        }
        r
    }

    /// Wrap the raw bytes returned by a read transaction.
    pub fn from_bytes(bytes: &[u8]) -> (r: Self)
        requires
            bytes@.len() == 9,
        ensures
            r.bytes() == bytes@,
    {
        ChipEuiRsp(to_array(bytes))
    }

    /// Return the status header (short form, from byte 0).
    pub fn status(&self) -> (r: Status)
        ensures
            r@ == ((self.bytes()[0] as u16) << 8),
    {
        Status::from_byte(self.0[0])
    }

    /// The 8-byte globally unique ChipEui, big endian.
    pub fn chip_eui(&self) -> (r: u64)
        ensures
            r == spec_be64(self.bytes()[1], self.bytes()[2], self.bytes()[3], self.bytes()[4], self.bytes()[5], self.bytes()[6], self.bytes()[7], self.bytes()[8]),
    {
        be64(self.0[1], self.0[2], self.0[3], self.0[4], self.0[5], self.0[6], self.0[7], self.0[8])
    }
}

/// Response for the GetSemtechJoinEui command.
pub struct SemtechJoinEuiRsp([u8; 9]);

impl SemtechJoinEuiRsp {
    /// The raw response bytes.
    pub closed spec fn bytes(&self) -> Seq<u8> {
        self.0@
    }

    /// Create a zero-filled response buffer.
    pub fn new() -> (r: Self)
        ensures
            r.bytes() == zero_bytes(9),
    {
        let r = SemtechJoinEuiRsp([0u8; 9]);
        proof {
            assert(r.bytes() =~= zero_bytes(9));
        }
        r
    }

    /// Wrap the raw bytes returned by a read transaction.
    pub fn from_bytes(bytes: &[u8]) -> (r: Self)
        requires
            bytes@.len() == 9,
        ensures
            r.bytes() == bytes@,
    {
        SemtechJoinEuiRsp(to_array(bytes))
    }

    /// Return the status header (short form, from byte 0).
    pub fn status(&self) -> (r: Status)
        ensures
            r@ == ((self.bytes()[0] as u16) << 8),
    {
        Status::from_byte(self.0[0])
    }

    /// The 8-byte factory JoinEui, big endian; shared across a set of
    /// devices.
    pub fn semtech_join_eui(&self) -> (r: u64)
        ensures
            r == spec_be64(self.bytes()[1], self.bytes()[2], self.bytes()[3], self.bytes()[4], self.bytes()[5], self.bytes()[6], self.bytes()[7], self.bytes()[8]),
    {
        be64(self.0[1], self.0[2], self.0[3], self.0[4], self.0[5], self.0[6], self.0[7], self.0[8])
    }
}

} // verus!
