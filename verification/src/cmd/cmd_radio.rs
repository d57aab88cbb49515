//! Radio control commands: RF channel, power amplifier, TX/RX modes
//! and reception statistics.

use vstd::prelude::*;

#[allow(unused_imports)]
use crate::bytes::{be16, be32, be64, spec_be16, spec_be32, spec_be64, spec_u16_hi, spec_u16_lo,
    spec_u32_b0, spec_u32_b1, spec_u32_b2, spec_u32_b3, to_array, u16_hi, u16_lo, u32_b0, u32_b1,
    u32_b2, u32_b3};
#[allow(unused_imports)]
use crate::port::zero_bytes;
#[allow(unused_imports)]
use crate::status::Status;

verus! {

/// Device mode between TX and RX modes.
#[derive(Debug, Clone, Copy, PartialEq, Eq, Structural)]
pub enum IntermediaryMode {
    Sleep,
    StdbyRc,
    StdbyXosc,
    Fs,
}

impl IntermediaryMode {
    /// Numeric code of this value on the wire.
    pub open spec fn spec_code(&self) -> u8 {
        match self {
            IntermediaryMode::Sleep => 0,
            IntermediaryMode::StdbyRc => 1,
            IntermediaryMode::StdbyXosc => 2,
            IntermediaryMode::Fs => 3,
        }
    }

    /// Encode this value for a request byte.
    #[verifier::when_used_as_spec(spec_code)]
    pub fn code(&self) -> (r: u8)
        ensures
            r == self.spec_code(),
    {
        match self {
            IntermediaryMode::Sleep => 0,
            IntermediaryMode::StdbyRc => 1,
            IntermediaryMode::StdbyXosc => 2,
            IntermediaryMode::Fs => 3,
        }
    }
}

/// Fallback mode after RX or TX.
#[derive(Debug, Clone, Copy, PartialEq, Eq, Structural)]
pub enum FallbackMode {
    StdbyRc,
    StdbyXosc,
    Fs,
}

impl FallbackMode {
    /// Numeric code of this value on the wire.
    pub open spec fn spec_code(&self) -> u8 {
        match self {
            FallbackMode::StdbyRc => 1,
            FallbackMode::StdbyXosc => 2,
            FallbackMode::Fs => 3,
        }
    }

    /// Encode this value for a request byte.
    #[verifier::when_used_as_spec(spec_code)]
    pub fn code(&self) -> (r: u8)
        ensures
            r == self.spec_code(),
    {
        match self {
            FallbackMode::StdbyRc => 1,
            FallbackMode::StdbyXosc => 2,
            FallbackMode::Fs => 3,
        }
    }
}

/// RX boosted mode: deactivated or activated; other values are reserved.
#[derive(Debug, Clone, Copy, PartialEq, Eq, Structural)]
pub enum RxBoosted {
    Deactivated,
    Activated,
}

impl RxBoosted {
    /// Numeric code of this value on the wire.
    pub open spec fn spec_code(&self) -> u8 {
        match self {
            RxBoosted::Deactivated => 0,
            RxBoosted::Activated => 1,
        }
    }

    /// Encode this value for a request byte.
    #[verifier::when_used_as_spec(spec_code)]
    pub fn code(&self) -> (r: u8)
        ensures
            r == self.spec_code(),
    {
        match self {
            RxBoosted::Deactivated => 0,
            RxBoosted::Activated => 1,
        }
    }
}

/// PA selection: low power, high power or high frequency.
#[derive(Debug, Clone, Copy, PartialEq, Eq, Structural)]
pub enum PaSel {
    LpPa,
    HpPa,
    HfPa,
}

impl PaSel {
    /// Numeric code of this value on the wire.
    pub open spec fn spec_code(&self) -> u8 {
        match self {
            PaSel::LpPa => 0,
            PaSel::HpPa => 1,
            PaSel::HfPa => 2,
        }
    }

    /// Encode this value for a request byte.
    #[verifier::when_used_as_spec(spec_code)]
    pub fn code(&self) -> (r: u8)
        ensures
            r == self.spec_code(),
    {
        match self {
            PaSel::LpPa => 0,
            PaSel::HpPa => 1,
            PaSel::HfPa => 2,
        }
    }
}

/// PA power source: the internal regulator (VREG) or VBAT.
/// VBAT must be used when the TX power is above 14.
#[derive(Debug, Clone, Copy, PartialEq, Eq, Structural)]
pub enum RegPaSupply {
    Vreg,
    Vbat,
}

impl RegPaSupply {
    /// Numeric code of this value on the wire.
    pub open spec fn spec_code(&self) -> u8 {
        match self {
            RegPaSupply::Vreg => 0,
            RegPaSupply::Vbat => 1,
        }
    }

    /// Encode this value for a request byte.
    #[verifier::when_used_as_spec(spec_code)]
    pub fn code(&self) -> (r: u8)
        ensures
            r == self.spec_code(),
    {
        match self {
            RegPaSupply::Vreg => 0,
            RegPaSupply::Vbat => 1,
        }
    }
}

/// PA power ramping time.
#[derive(Debug, Clone, Copy, PartialEq, Eq, Structural)]
pub enum RampTime {
    Ramp16u,
    Ramp32u,
    Ramp48u,
    Ramp64u,
    Ramp80u,
    Ramp96u,
    Ramp112u,
    Ramp128u,
    Ramp144u,
    Ramp160u,
    Ramp176u,
    Ramp192u,
    Ramp208u,
    Ramp240u,
    Ramp272u,
    Ramp304u,
}

impl RampTime {
    /// Numeric code of this value on the wire.
    pub open spec fn spec_code(&self) -> u8 {
        match self {
            RampTime::Ramp16u => 0,
            RampTime::Ramp32u => 1,
            RampTime::Ramp48u => 2,
            RampTime::Ramp64u => 3,
            RampTime::Ramp80u => 4,
            RampTime::Ramp96u => 5,
            RampTime::Ramp112u => 6,
            RampTime::Ramp128u => 7,
            RampTime::Ramp144u => 8,
            RampTime::Ramp160u => 9,
            RampTime::Ramp176u => 10,
            RampTime::Ramp192u => 11,
            RampTime::Ramp208u => 12,
            RampTime::Ramp240u => 13,
            RampTime::Ramp272u => 14,
            RampTime::Ramp304u => 15,
        }
    }

    /// Encode this value for a request byte.
    #[verifier::when_used_as_spec(spec_code)]
    pub fn code(&self) -> (r: u8)
        ensures
            r == self.spec_code(),
    {
        match self {
            RampTime::Ramp16u => 0,
            RampTime::Ramp32u => 1,
            RampTime::Ramp48u => 2,
            RampTime::Ramp64u => 3,
            RampTime::Ramp80u => 4,
            RampTime::Ramp96u => 5,
            RampTime::Ramp112u => 6,
            RampTime::Ramp128u => 7,
            RampTime::Ramp144u => 8,
            RampTime::Ramp160u => 9,
            RampTime::Ramp176u => 10,
            RampTime::Ramp192u => 11,
            RampTime::Ramp208u => 12,
            RampTime::Ramp240u => 13,
            RampTime::Ramp272u => 14,
            RampTime::Ramp304u => 15,
        }
    }
}

/// Modem selection.
#[derive(Debug, Clone, Copy, PartialEq, Eq, Structural)]
pub enum PacketType {
    Gfsk,
    Lora,
    SigfoxUl,
    LrFhss,
    Ranging,
    Ble,
    NotSet,
}

impl PacketType {
    /// Numeric code of this value on the wire.
    pub open spec fn spec_code(&self) -> u8 {
        match self {
            PacketType::Gfsk => 1,
            PacketType::Lora => 2,
            PacketType::SigfoxUl => 3,
            PacketType::LrFhss => 4,
            PacketType::Ranging => 5,
            PacketType::Ble => 6,
            PacketType::NotSet => 0,
        }
    }

    /// Encode this value for a request byte.
    #[verifier::when_used_as_spec(spec_code)]
    pub fn code(&self) -> (r: u8)
        ensures
            r == self.spec_code(),
    {
        match self {
            PacketType::Gfsk => 1,
            PacketType::Lora => 2,
            PacketType::SigfoxUl => 3,
            PacketType::LrFhss => 4,
            PacketType::Ranging => 5,
            PacketType::Ble => 6,
            PacketType::NotSet => 0,
        }
    }

    /// Decode a response byte; unknown codes map to the fallback value.
    pub open spec fn spec_from_code(v: u8) -> PacketType {
        if v == 1 {
            PacketType::Gfsk
        } else if v == 2 {
            PacketType::Lora
        } else if v == 3 {
            PacketType::SigfoxUl
        } else if v == 4 {
            PacketType::LrFhss
        } else if v == 5 {
            PacketType::Ranging
        } else if v == 6 {
            PacketType::Ble
        } else {
            PacketType::NotSet
        }
    }

    /// Decode a response byte.
    pub fn from_code(v: u8) -> (r: PacketType)
        ensures
            r == PacketType::spec_from_code(v),
    {
        match v {
            1 => PacketType::Gfsk,
            2 => PacketType::Lora,
            3 => PacketType::SigfoxUl,
            4 => PacketType::LrFhss,
            5 => PacketType::Ranging,
            6 => PacketType::Ble,
            _ => PacketType::NotSet,
        }
    }
}

/// Bytes of the SetRfFrequency request.
pub open spec fn spec_set_rf_frequency_cmd(rf_freq: u32) -> Seq<u8> {
    seq![
        0x02u8,
        0x0Bu8,
        spec_u32_b3(rf_freq),
        spec_u32_b2(rf_freq),
        spec_u32_b1(rf_freq),
        spec_u32_b0(rf_freq),
    ]
}

/// Sets the RF (PLL) frequency of the radio in Hz.  The Sub-GHz path is
/// selected for frequencies up to 1.50GHz, the HF path above; all frequency
/// dependent parameters are automatically recomputed.
pub fn set_rf_frequency_cmd(rf_freq: u32) -> (r: [u8; 6])
    ensures
        r@ == spec_set_rf_frequency_cmd(rf_freq),
{
    [
        0x02,
        0x0B,
        u32_b3(rf_freq),
        u32_b2(rf_freq),
        u32_b1(rf_freq),
        u32_b0(rf_freq),
    ]
}

/// Bytes of the SetRx request.
pub open spec fn spec_set_rx_cmd(rx_timeout: u32) -> Seq<u8> {
    seq![
        0x02u8,
        0x09u8,
        spec_u32_b2(rx_timeout),
        spec_u32_b1(rx_timeout),
        spec_u32_b0(rx_timeout),
    ]
}

/// Sets the radio in RX mode.  After the timeout the chip returns to
/// Standby RC.  BUSY goes low after entering RX mode.  Fails if no packet
/// type is configured or the packet type does not allow RX.
pub fn set_rx_cmd(rx_timeout: u32) -> (r: [u8; 5])
    ensures
        r@ == spec_set_rx_cmd(rx_timeout),
{
    [
        0x02,
        0x09,
        u32_b2(rx_timeout),
        u32_b1(rx_timeout),
        u32_b0(rx_timeout),
    ]
}

/// Bytes of the SetTx request.
pub open spec fn spec_set_tx_cmd(tx_timeout: u32) -> Seq<u8> {
    seq![
        0x02u8,
        0x0Au8,
        spec_u32_b2(tx_timeout),
        spec_u32_b1(tx_timeout),
        spec_u32_b0(tx_timeout),
    ]
}

/// Sets the radio in TX mode and triggers an RF packet transmission with an
/// RTC timeout.  After TX_DONE or TIMEOUT the chip returns to its fallback
/// mode.  BUSY goes low after entering TX mode.  Fails if no packet type is
/// configured or the packet type does not allow TX.
pub fn set_tx_cmd(tx_timeout: u32) -> (r: [u8; 5])
    ensures
        r@ == spec_set_tx_cmd(tx_timeout),
{
    [
        0x02,
        0x0A,
        u32_b2(tx_timeout),
        u32_b1(tx_timeout),
        u32_b0(tx_timeout),
    ]
}

/// Bytes of the SetTxCw request.
pub open spec fn spec_set_tx_cw_cmd() -> Seq<u8> {
    seq![
        0x02u8,
        0x19u8,
    ]
}

/// Sets the device in TX continuous wave mode (unmodulated carrier).  The
/// operating frequency and PA configuration must be set before this
/// command.  Used for regulatory compliance testing.
pub fn set_tx_cw_cmd() -> (r: [u8; 2])
    ensures
        r@ == spec_set_tx_cw_cmd(),
{
    [
        0x02,
        0x19,
    ]
}

/// Bytes of the SetTxInfinitePreamble request.
pub open spec fn spec_set_tx_infinite_preamble_cmd() -> Seq<u8> {
    seq![
        0x02u8,
        0x1Au8,
    ]
}

/// Transmits an infinite preamble sequence.  The operating frequency, PA
/// configuration and packet type must be set before this command.
pub fn set_tx_infinite_preamble_cmd() -> (r: [u8; 2])
    ensures
        r@ == spec_set_tx_infinite_preamble_cmd(),
{
    [
        0x02,
        0x1A,
    ]
}

/// Bytes of the AutoTxRx request.
pub open spec fn spec_auto_tx_rx_cmd(delay: u32, intermediary_mode: IntermediaryMode, timeout: u32) -> Seq<u8> {
    seq![
        0x02u8,
        0x0Cu8,
        spec_u32_b2(delay),
        spec_u32_b1(delay),
        spec_u32_b0(delay),
        intermediary_mode.spec_code(),
        spec_u32_b2(timeout),
        spec_u32_b1(timeout),
        spec_u32_b0(timeout),
    ]
}

/// Automatically performs a transition to RX after TX, or to TX after RX.
/// After the second mode the chip returns to Standby RC.  Not used if Rx
/// Duty Cycle is started.
pub fn auto_tx_rx_cmd(delay: u32, intermediary_mode: IntermediaryMode, timeout: u32) -> (r: [u8; 9])
    ensures
        r@ == spec_auto_tx_rx_cmd(delay, intermediary_mode, timeout),
{
    [
        0x02,
        0x0C,
        u32_b2(delay),
        u32_b1(delay),
        u32_b0(delay),
        intermediary_mode.code(),
        u32_b2(timeout),
        u32_b1(timeout),
        u32_b0(timeout),
    ]
}

/// Bytes of the SetRxTxFallbackMode request.
pub open spec fn spec_set_rx_tx_fallback_mode_cmd(fallback_mode: FallbackMode) -> Seq<u8> {
    seq![
        0x02u8,
        0x13u8,
        fallback_mode.spec_code(),
    ]
}

/// Defines the device mode after packet transmission or reception.  Not
/// used if Rx Duty Cycle is started or AutoTxRx is configured.  After an RX
/// timeout the device returns to Standby RC regardless of this setting.
pub fn set_rx_tx_fallback_mode_cmd(fallback_mode: FallbackMode) -> (r: [u8; 3])
    ensures
        r@ == spec_set_rx_tx_fallback_mode_cmd(fallback_mode),
{
    [
        0x02,
        0x13,
        fallback_mode.code(),
    ]
}

/// Bytes of the SetRxDutyCycle request.
pub open spec fn spec_set_rx_duty_cycle_cmd(rx_period: u32, sleep_period: u32, use_lora_cad: bool) -> Seq<u8> {
    seq![
        0x02u8,
        0x14u8,
        spec_u32_b2(rx_period),
        spec_u32_b1(rx_period),
        spec_u32_b0(rx_period),
        spec_u32_b2(sleep_period),
        spec_u32_b1(sleep_period),
        spec_u32_b0(sleep_period),
        (if use_lora_cad { 1u8 } else { 0u8 }),
    ]
}

/// Periodically opens RX windows.  Between windows the device goes to sleep
/// with retention.  The 32kHz clock source must be configured before
/// entering duty cycle.  Returns a command failure if no packet type is
/// set.
pub fn set_rx_duty_cycle_cmd(rx_period: u32, sleep_period: u32, use_lora_cad: bool) -> (r: [u8; 9])
    ensures
        r@ == spec_set_rx_duty_cycle_cmd(rx_period, sleep_period, use_lora_cad),
{
    [
        0x02,
        0x14,
        u32_b2(rx_period),
        u32_b1(rx_period),
        u32_b0(rx_period),
        u32_b2(sleep_period),
        u32_b1(sleep_period),
        u32_b0(sleep_period),
        if use_lora_cad { 1 } else { 0 },
    ]
}

/// Bytes of the StopTimeoutOnPreamble request.
pub open spec fn spec_stop_timeout_on_preamble_cmd(stop_on_preamble: bool) -> Seq<u8> {
    seq![
        0x02u8,
        0x17u8,
        (if stop_on_preamble { 1u8 } else { 0u8 }),
    ]
}

/// Defines whether the RX timeout is stopped on syncword/header detection
/// or on preamble detection.
pub fn stop_timeout_on_preamble_cmd(stop_on_preamble: bool) -> (r: [u8; 3])
    ensures
        r@ == spec_stop_timeout_on_preamble_cmd(stop_on_preamble),
{
    [
        0x02,
        0x17,
        if stop_on_preamble { 1 } else { 0 },
    ]
}

/// Bytes of the GetRssiInst request.
pub open spec fn spec_get_rssi_inst_req() -> Seq<u8> {
    seq![
        0x02u8,
        0x05u8,
    ]
}

/// Returns the instantaneous RSSI value at the time the command is sent.
/// With no RF packet present the RF noise is returned.  The formula is
/// RSSI (dBm) = -rssi/2.
pub fn get_rssi_inst_req() -> (r: [u8; 2])
    ensures
        r@ == spec_get_rssi_inst_req(),
{
    [
        0x02,
        0x05,
    ]
}

/// Bytes of the GetStats request.
pub open spec fn spec_get_stats_req() -> Seq<u8> {
    seq![
        0x02u8,
        0x01u8,
    ]
}

/// Returns the internal statistics of received RF packets.  Statistics are
/// reset on power-on reset, power-down, or the ResetStats command.
pub fn get_stats_req() -> (r: [u8; 2])
    ensures
        r@ == spec_get_stats_req(),
{
    [
        0x02,
        0x01,
    ]
}

/// Bytes of the ResetStats request.
pub open spec fn spec_reset_stats_cmd() -> Seq<u8> {
    seq![
        0x02u8,
        0x00u8,
    ]
}

/// Resets the internal statistics of received RF packets.
pub fn reset_stats_cmd() -> (r: [u8; 2])
    ensures
        r@ == spec_reset_stats_cmd(),
{
    [
        0x02,
        0x00,
    ]
}

/// Bytes of the GetRxBufferStatus request.
pub open spec fn spec_get_rx_buffer_status_req() -> Seq<u8> {
    seq![
        0x02u8,
        0x03u8,
    ]
}

/// Returns the length of the last packet received and the offset in the RX
/// buffer of the first byte received.
pub fn get_rx_buffer_status_req() -> (r: [u8; 2])
    ensures
        r@ == spec_get_rx_buffer_status_req(),
{
    [
        0x02,
        0x03,
    ]
}

/// Bytes of the SetRxBoosted request.
pub open spec fn spec_set_rx_boosted_cmd(rx_boosted: RxBoosted) -> Seq<u8> {
    seq![
        0x02u8,
        0x27u8,
        rx_boosted.spec_code(),
    ]
}

/// Sets the device in RX boosted mode, for about 2dB increased sensitivity
/// at the expense of about 2mA higher RX current consumption.
pub fn set_rx_boosted_cmd(rx_boosted: RxBoosted) -> (r: [u8; 3])
    ensures
        r@ == spec_set_rx_boosted_cmd(rx_boosted),
{
    [
        0x02,
        0x27,
        rx_boosted.code(),
    ]
}

/// Bytes of the SetPaConfig request.
pub open spec fn spec_set_pa_config_cmd(pa_sel: PaSel, reg_pa_supply: RegPaSupply, pa_duty_cycle: u8, pa_hp_sel: u8) -> Seq<u8> {
    seq![
        0x02u8,
        0x15u8,
        pa_sel.spec_code(),
        reg_pa_supply.spec_code(),
        pa_duty_cycle,
        pa_hp_sel,
    ]
}

/// Selects which PA to use and configures the PA supply.  Must be called
/// before SetTxParams.  There is no automatic frequency limitation during
/// PA selection: the frequency must match the external matching network.
pub fn set_pa_config_cmd(pa_sel: PaSel, reg_pa_supply: RegPaSupply, pa_duty_cycle: u8, pa_hp_sel: u8) -> (r: [u8; 6])
    ensures
        r@ == spec_set_pa_config_cmd(pa_sel, reg_pa_supply, pa_duty_cycle, pa_hp_sel),
{
    [
        0x02,
        0x15,
        pa_sel.code(),
        reg_pa_supply.code(),
        pa_duty_cycle,
        pa_hp_sel,
    ]
}

/// Bytes of the SetTxParams request.
pub open spec fn spec_set_tx_params_cmd(tx_power: i8, ramp_time: RampTime) -> Seq<u8> {
    seq![
        0x02u8,
        0x11u8,
        tx_power as u8,
        ramp_time.spec_code(),
    ]
}

/// Sets the TX power and ramp time of the selected PA.  SetPaConfig must be
/// sent before this command.  A 48us ramp time is the recommended trade-off
/// between fast RF establishment and minimum spurious emissions.
pub fn set_tx_params_cmd(tx_power: i8, ramp_time: RampTime) -> (r: [u8; 4])
    ensures
        r@ == spec_set_tx_params_cmd(tx_power, ramp_time),
{
    [
        0x02,
        0x11,
        tx_power as u8,
        ramp_time.code(),
    ]
}

/// Bytes of the SetRssiCalibration request.
pub open spec fn spec_set_rssi_calibration_cmd(tune_g4: u8, tune_g5: u8, tune_g6: u8, tune_g7: u8, tune_g8: u8, tune_g9: u8, tune_g10: u8, tune_g11: u8, tune_g12: u8, tune_g13: u8, tune_g13_hp1: u8, tune_g13_hp2: u8, tune_g13_hp3: u8, tune_g13_hp4: u8, tune_g13_hp5: u8, tune_g13_hp6: u8, tune_g13_hp7: u8, gain_offset: u16) -> Seq<u8> {
    seq![
        0x02u8,
        0x29u8,
        (((tune_g4 & 0xF) << 4) | (tune_g5 & 0xF)),
        (((tune_g6 & 0xF) << 4) | (tune_g7 & 0xF)),
        (((tune_g8 & 0xF) << 4) | (tune_g9 & 0xF)),
        (((tune_g10 & 0xF) << 4) | (tune_g11 & 0xF)),
        (((tune_g12 & 0xF) << 4) | (tune_g13 & 0xF)),
        (((tune_g13_hp1 & 0xF) << 4) | (tune_g13_hp2 & 0xF)),
        (((tune_g13_hp3 & 0xF) << 4) | (tune_g13_hp4 & 0xF)),
        (((tune_g13_hp5 & 0xF) << 4) | (tune_g13_hp6 & 0xF)),
        (((tune_g13_hp7 & 0xF) << 4) | spec_u16_hi(gain_offset)),
        spec_u16_lo(gain_offset),
    ]
}

/// Sets the gain offsets for on-chip power estimation.  The internal LNA
/// has predefined gains (G4 to G13 with sub-gains); RSSI must be calibrated
/// per hardware type, not per device.
pub fn set_rssi_calibration_cmd(tune_g4: u8, tune_g5: u8, tune_g6: u8, tune_g7: u8, tune_g8: u8, tune_g9: u8, tune_g10: u8, tune_g11: u8, tune_g12: u8, tune_g13: u8, tune_g13_hp1: u8, tune_g13_hp2: u8, tune_g13_hp3: u8, tune_g13_hp4: u8, tune_g13_hp5: u8, tune_g13_hp6: u8, tune_g13_hp7: u8, gain_offset: u16) -> (r: [u8; 12])
    ensures
        r@ == spec_set_rssi_calibration_cmd(tune_g4, tune_g5, tune_g6, tune_g7, tune_g8, tune_g9, tune_g10, tune_g11, tune_g12, tune_g13, tune_g13_hp1, tune_g13_hp2, tune_g13_hp3, tune_g13_hp4, tune_g13_hp5, tune_g13_hp6, tune_g13_hp7, gain_offset),
{
    [
        0x02,
        0x29,
        ((tune_g4 & 0xF) << 4) | (tune_g5 & 0xF),
        ((tune_g6 & 0xF) << 4) | (tune_g7 & 0xF),
        ((tune_g8 & 0xF) << 4) | (tune_g9 & 0xF),
        ((tune_g10 & 0xF) << 4) | (tune_g11 & 0xF),
        ((tune_g12 & 0xF) << 4) | (tune_g13 & 0xF),
        ((tune_g13_hp1 & 0xF) << 4) | (tune_g13_hp2 & 0xF),
        ((tune_g13_hp3 & 0xF) << 4) | (tune_g13_hp4 & 0xF),
        ((tune_g13_hp5 & 0xF) << 4) | (tune_g13_hp6 & 0xF),
        ((tune_g13_hp7 & 0xF) << 4) | u16_hi(gain_offset),
        u16_lo(gain_offset),
    ]
}

/// Bytes of the SetPacketType request.
pub open spec fn spec_set_packet_type_cmd(packet_type: PacketType) -> Seq<u8> {
    seq![
        0x02u8,
        0x0Eu8,
        packet_type.spec_code(),
    ]
}

/// Defines which modem to use for the next RF transactions.  The first
/// command to call before RX/TX and before defining modulation or packet
/// parameters.  Only works in Standby RC, Standby Xosc or FS mode.
pub fn set_packet_type_cmd(packet_type: PacketType) -> (r: [u8; 3])
    ensures
        r@ == spec_set_packet_type_cmd(packet_type),
{
    [
        0x02,
        0x0E,
        packet_type.code(),
    ]
}

/// Bytes of the GetPacketType request.
pub open spec fn spec_get_packet_type_req() -> Seq<u8> {
    seq![
        0x02u8,
        0x02u8,
    ]
}

/// Returns the current protocol of the radio.
pub fn get_packet_type_req() -> (r: [u8; 2])
    ensures
        r@ == spec_get_packet_type_req(),
{
    [
        0x02,
        0x02,
    ]
}

// Response structs

/// Response for the GetRssiInst command.
pub struct RssiInstRsp([u8; 2]);

impl RssiInstRsp {
    /// The raw response bytes.
    pub closed spec fn bytes(&self) -> Seq<u8> {
        self.0@
    }

    /// Create a zero-filled response buffer.
    pub fn new() -> (r: Self)
        ensures
            r.bytes() == zero_bytes(2),
    {
        let r = RssiInstRsp([0u8; 2]);
        proof {
            assert(r.bytes() =~= zero_bytes(2));
        }
        r
    }

    /// Wrap the raw bytes returned by a read transaction.
    pub fn from_bytes(bytes: &[u8]) -> (r: Self)
        requires
            bytes@.len() == 2,
        ensures
            r.bytes() == bytes@,
    {
        RssiInstRsp(to_array(bytes))
    }

    /// Return the status header (short form, from byte 0).
    pub fn status(&self) -> (r: Status)
        ensures
            r@ == ((self.bytes()[0] as u16) << 8),
    {
        Status::from_byte(self.0[0])
    }

    /// Instantaneous RSSI value.  Convert to dBm with RSSI(dBm) = -rssi/2.
    pub fn rssi(&self) -> (r: u8)
        ensures
            r == self.bytes()[1],
    {
        self.0[1]
    }
}

/// Response for the GetStats command.
pub struct StatsRsp([u8; 9]);

impl StatsRsp {
    /// The raw response bytes.
    pub closed spec fn bytes(&self) -> Seq<u8> {
        self.0@
    }

    /// Create a zero-filled response buffer.
    pub fn new() -> (r: Self)
        ensures
            r.bytes() == zero_bytes(9),
    {
        let r = StatsRsp([0u8; 9]);
        proof {
            assert(r.bytes() =~= zero_bytes(9));
        }
        r
    }

    /// Wrap the raw bytes returned by a read transaction.
    pub fn from_bytes(bytes: &[u8]) -> (r: Self)
        requires
            bytes@.len() == 9,
        ensures
            r.bytes() == bytes@,
    {
        StatsRsp(to_array(bytes))
    }

    /// Return the status header (short form, from byte 0).
    pub fn status(&self) -> (r: Status)
        ensures
            r@ == ((self.bytes()[0] as u16) << 8),
    {
        Status::from_byte(self.0[0])
    }

    /// Total number of received packets.
    pub fn pkt_rx(&self) -> (r: u16)
        ensures
            r == spec_be16(self.bytes()[1], self.bytes()[2]),
    {
        be16(self.0[1], self.0[2])
    }

    /// Total number of received packets with a CRC error.
    pub fn crc_error(&self) -> (r: u16)
        ensures
            r == spec_be16(self.bytes()[3], self.bytes()[4]),
    {
        be16(self.0[3], self.0[4])
    }

    /// Header errors.  In LoRa a header error is a failed checksum; in FSK
    /// the header is in error only when the packet length is higher than the
    /// programmed length.
    pub fn header_error(&self) -> (r: u16)
        ensures
            r == spec_be16(self.bytes()[5], self.bytes()[6]),
    {
        be16(self.0[5], self.0[6])
    }

    /// False synchronisation counter (LoRa only).
    pub fn false_sync(&self) -> (r: u16)
        ensures
            r == spec_be16(self.bytes()[7], self.bytes()[8]),
    {
        be16(self.0[7], self.0[8])
    }
}

/// Response for the GetRxBufferStatus command.
pub struct RxBufferStatusRsp([u8; 3]);

impl RxBufferStatusRsp {
    /// The raw response bytes.
    pub closed spec fn bytes(&self) -> Seq<u8> {
        self.0@
    }

    /// Create a zero-filled response buffer.
    pub fn new() -> (r: Self)
        ensures
            r.bytes() == zero_bytes(3),
    {
        let r = RxBufferStatusRsp([0u8; 3]);
        proof {
            assert(r.bytes() =~= zero_bytes(3));
        }
        r
    }

    /// Wrap the raw bytes returned by a read transaction.
    pub fn from_bytes(bytes: &[u8]) -> (r: Self)
        requires
            bytes@.len() == 3,
        ensures
            r.bytes() == bytes@,
    {
        RxBufferStatusRsp(to_array(bytes))
    }

    /// Return the status header (short form, from byte 0).
    pub fn status(&self) -> (r: Status)
        ensures
            r@ == ((self.bytes()[0] as u16) << 8),
    {
        Status::from_byte(self.0[0])
    }

    /// Payload length of the last packet received, in bytes.
    pub fn pld_len(&self) -> (r: u8)
        ensures
            r == self.bytes()[1],
    {
        self.0[1]
    }

    /// Offset in the RX buffer of the first byte received.
    pub fn offset(&self) -> (r: u8)
        ensures
            r == self.bytes()[2],
    {
        self.0[2]
    }
}

/// Response for the GetPacketType command.
pub struct PacketTypeRsp([u8; 2]);

impl PacketTypeRsp {
    /// The raw response bytes.
    pub closed spec fn bytes(&self) -> Seq<u8> {
        self.0@
    }

    /// Create a zero-filled response buffer.
    pub fn new() -> (r: Self)
        ensures
            r.bytes() == zero_bytes(2),
    {
        let r = PacketTypeRsp([0u8; 2]);
        proof {
            assert(r.bytes() =~= zero_bytes(2));
        }
        r
    }

    /// Wrap the raw bytes returned by a read transaction.
    pub fn from_bytes(bytes: &[u8]) -> (r: Self)
        requires
            bytes@.len() == 2,
        ensures
            r.bytes() == bytes@,
    {
        PacketTypeRsp(to_array(bytes))
    }

    /// Return the status header (short form, from byte 0).
    pub fn status(&self) -> (r: Status)
        ensures
            r@ == ((self.bytes()[0] as u16) << 8),
    {
        Status::from_byte(self.0[0])
    }

    /// The current modem.
    pub fn packet_type(&self) -> (r: PacketType)
        ensures
            r == PacketType::spec_from_code(self.bytes()[1]),
    {
        PacketType::from_code(self.0[1])
    }
}

} // verus!
