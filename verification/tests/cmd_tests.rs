//! Tests of the per-opcode request builders and response accessors.

use lr1120::cmd::cmd_crypto::crypto_set_key_req;
use lr1120::cmd::cmd_crypto::KeyId;
use lr1120::cmd::cmd_fsk::{set_fsk_modulation_params_cmd, set_fsk_sync_word_cmd, Precision,
    PulseShape, RxBw};
use lr1120::cmd::cmd_gnss::gnss_get_sv_visible_req;
use lr1120::cmd::cmd_lora::{set_lora_modulation_params_cmd, Ldro, LoraBw, LoraCr, Sf};
use lr1120::cmd::cmd_lrfhss::{lr_fhss_build_frame_cmd, Grid, Hopping, LrfhssBw, LrfhssCr};
use lr1120::cmd::cmd_radio::{set_rf_frequency_cmd, set_rssi_calibration_cmd, set_rx_cmd,
    set_tx_params_cmd, PacketType, RampTime, StatsRsp};
use lr1120::cmd::cmd_regmem::{write_reg_mem32_cmd, ReadRegMem32Rsp};
use lr1120::cmd::cmd_system::{calibrate_cmd, set_sleep_cmd, ErrorsRsp, VersionRsp};
use lr1120::cmd::cmd_wifi::{wifi_scan_cmd, AcqMode, WifiReadResultsRsp, WifiStandard};

#[test]
fn rf_frequency_big_endian() {
    assert_eq!(set_rf_frequency_cmd(0x12345678), [0x02, 0x0B, 0x12, 0x34, 0x56, 0x78]);
}

#[test]
fn rx_timeout_three_bytes() {
    assert_eq!(set_rx_cmd(0x00FFAA55), [0x02, 0x09, 0xFF, 0xAA, 0x55]);
}

#[test]
fn tx_params_signed_power() {
    // A negative TX power is carried as its two's complement byte.
    assert_eq!(set_tx_params_cmd(-19, RampTime::Ramp48u), [0x02, 0x11, 0xED, 0x02]);
}

#[test]
fn rssi_calibration_packs_nibbles() {
    let r = set_rssi_calibration_cmd(1, 2, 3, 4, 5, 6, 7, 8, 9, 10, 11, 12, 13, 14, 15, 0, 5,
        0x0123);
    assert_eq!(
        r,
        [0x02, 0x29, 0x12, 0x34, 0x56, 0x78, 0x9A, 0xBC, 0xDE, 0xF0, 0x51, 0x23]
    );
}

#[test]
fn write_reg_mem32_overlaps_address_and_data() {
    // Byte 5 carries the low address byte OR'ed with the high data byte,
    // as the hardware table lays it out.
    let r = write_reg_mem32_cmd(0x00F20460, 0x81000000);
    assert_eq!(r, [0x01, 0x05, 0x00, 0xF2, 0x04, 0x60 | 0x81, 0x00, 0x00, 0x00]);
}

#[test]
fn calibrate_packs_flags() {
    assert_eq!(calibrate_cmd(true, false, true, false, true, false), [0x01, 0x0F, 0x15]);
    assert_eq!(calibrate_cmd(true, true, true, true, true, true), [0x01, 0x0F, 0x3F]);
}

#[test]
fn sleep_packs_flags_and_time() {
    assert_eq!(
        set_sleep_cmd(true, true, 0xDEADBEEF),
        [0x01, 0x1B, 0x03, 0xDE, 0xAD, 0xBE, 0xEF]
    );
}

#[test]
fn lora_modulation_masks_fields() {
    let r = set_lora_modulation_params_cmd(Sf::Sf12, LoraBw::Bw125, LoraCr::Cr1Ham45Si, Ldro::On);
    assert_eq!(r, [0x02, 0x0F, 12, 4, 1, 1]);
}

#[test]
fn lora_bw_helpers() {
    assert_eq!(LoraBw::Bw125.to_hz(), 125_000);
    assert_eq!(LoraBw::Bw812.to_hz(), 812_500);
    assert!(LoraBw::Bw812.is_fractional());
    assert!(!LoraBw::Bw500.is_fractional());
    assert_eq!(LoraCr::Cr2Ham23Si.denominator(), 6);
    assert!(LoraCr::Cr6Ham23Li.is_li());
    assert!(!LoraCr::Cr1Ham45Si.is_li());
}

#[test]
fn fsk_modulation_merges_precision_into_bitrate() {
    let r = set_fsk_modulation_params_cmd(Precision::High, 0x80000000, PulseShape::Bt0p5,
        RxBw::Bw467000, 0x00012345);
    assert_eq!(r, [0x02, 0x0F, 0x81, 0x00, 0x00, 0x00, 9, 9, 0x00, 0x01, 0x23, 0x45]);
}

#[test]
fn fsk_syncword_eight_bytes() {
    let r = set_fsk_sync_word_cmd(0x9723522556536564);
    assert_eq!(r, [0x02, 0x06, 0x97, 0x23, 0x52, 0x25, 0x56, 0x53, 0x65, 0x64]);
}

#[test]
fn lrfhss_frame_carries_signed_offset() {
    let r = lr_fhss_build_frame_cmd(2, LrfhssCr::Cr2p3, 0, Grid::Grid25, Hopping::HoppingEnabled,
        LrfhssBw::Bw1523p4, 0x0102, -1);
    assert_eq!(r, [0x02, 0x2C, 2, 1, 0, 0, 1, 8, 0x01, 0x02, 0xFF]);
}

#[test]
fn crypto_key_big_endian() {
    let r = crypto_set_key_req(KeyId::App, 0x0102030405060708090A0B0C0D0E0F10);
    assert_eq!(r[0], 0x05);
    assert_eq!(r[1], 0x02);
    assert_eq!(r[2], 3);
    assert_eq!(r[3..19], [1, 2, 3, 4, 5, 6, 7, 8, 9, 10, 11, 12, 13, 14, 15, 16]);
}

#[test]
fn gnss_visible_satellites_request() {
    let r = gnss_get_sv_visible_req(0x01020304, 0x0506, 0x0708, true, true);
    assert_eq!(r, [0x04, 0x1F, 1, 2, 3, 4, 5, 6, 7, 8, 3]);
}

#[test]
fn wifi_scan_request_layout() {
    let r = wifi_scan_cmd(WifiStandard::B, 0x3FFF, AcqMode::BeaconAndPacket, 16, 8, 105, true);
    assert_eq!(r, [0x03, 0x00, 1, 0x3F, 0xFF, 2, 16, 8, 0, 105, 1]);
}

#[test]
fn version_response_accessors() {
    let v = VersionRsp::from_bytes(&[0x04, 0x22, 0x01, 0x02, 0x19]);
    assert_eq!(v.hw_version(), 0x22);
    assert_eq!(v.fw_major(), 2);
    assert_eq!(v.fw_minor(), 0x19);
}

#[test]
fn stats_response_big_endian_counters() {
    let s = StatsRsp::from_bytes(&[0x04, 0x01, 0x02, 0x00, 0x03, 0x00, 0x00, 0x12, 0x34]);
    assert_eq!(s.pkt_rx(), 0x0102);
    assert_eq!(s.crc_error(), 0x0003);
    assert_eq!(s.header_error(), 0x0000);
    assert_eq!(s.false_sync(), 0x1234);
}

#[test]
fn errors_response_bits() {
    let e = ErrorsRsp::from_bytes(&[0x04, 0b0010_0101, 0x01]);
    assert!(e.lf_rc_calib_err());
    assert!(!e.hf_rc_calib_err());
    assert!(e.adc_calib_err());
    assert!(e.hf_xosc_start_err());
    assert!(e.rx_adc_offset_err());
    assert!(!e.none());
    assert_eq!(e.value(), 0x2501);
    let clean = ErrorsRsp::from_bytes(&[0x04, 0, 0]);
    assert!(clean.none());
}

#[test]
fn regmem_response_value() {
    let r = ReadRegMem32Rsp::from_bytes(&[0x04, 0x00, 0xCA, 0xFE, 0xBA, 0xBE]);
    assert_eq!(r.value(), 0xCAFEBABE);
}

#[test]
fn wifi_short_record_fields() {
    let rec = WifiReadResultsRsp::from_slice(&[
        0x01,        // standard B
        0b0100_1101, // end device, origin 0, channel 13
        77,          // RSSI
        0x00, 0x16, 0xEA, 0x12, 0x34, 0x56,
    ]);
    assert_eq!(rec.wifi_standard(), WifiStandard::B);
    assert_eq!(rec.channel_id(), 13);
    assert!(rec.is_end_device());
    assert_eq!(rec.rssi(), 77);
    assert_eq!(rec.mac(), 0x0016EA123456);
}

#[test]
fn packet_type_decode() {
    assert_eq!(PacketType::from_code(2), PacketType::Lora);
    assert_eq!(PacketType::from_code(6), PacketType::Ble);
    assert_eq!(PacketType::from_code(99), PacketType::NotSet);
}
