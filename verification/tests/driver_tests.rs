//! Tests of the command wrappers against the deterministic fake port.

use lr1120::cmd::cmd_crypto::{CeStatus, KeyId};
use lr1120::cmd::cmd_radio::PacketType;
use lr1120::cmd::cmd_system::HwType;
use lr1120::engine::Lr1120;
use lr1120::fake::FakePort;
use lr1120::gnss::{AlmanacHeader, AlmanacSv};
use lr1120::status::{ChipModeStatus, CmdStatus};
use lr1120::system::{ChipMode, DioNum};
use lr1120::Lr1120Error;

const CAP: usize = 512;
const BUDGET: u32 = 100;

fn driver(rx_script: Vec<u8>) -> Lr1120<FakePort> {
    Lr1120::new(FakePort::new(0, rx_script), CAP, BUDGET)
}

#[test]
fn set_rf_sends_frequency_bytes() {
    let mut dev = driver(Vec::new());
    dev.set_rf(868_000_000).unwrap();
    // 868000000 = 0x33BCA100, after the SetRfFrequency opcode.
    assert_eq!(dev.port.tx_log, vec![0x02, 0x0B, 0x33, 0xBC, 0xA1, 0x00]);
}

#[test]
fn set_packet_type_sends_code() {
    let mut dev = driver(Vec::new());
    dev.set_packet_type(PacketType::Lora).unwrap();
    assert_eq!(dev.port.tx_log, vec![0x02, 0x0E, 0x02]);
}

#[test]
fn set_chip_mode_standby() {
    let mut dev = driver(Vec::new());
    dev.set_chip_mode(ChipMode::StandbyRc).unwrap();
    assert_eq!(dev.port.tx_log, vec![0x01, 0x1C, 0x00]);
    let mut dev = driver(Vec::new());
    dev.set_chip_mode(ChipMode::Retention(0x010203)).unwrap();
    assert_eq!(dev.port.tx_log, vec![0x01, 0x1B, 0x03, 0x00, 0x01, 0x02, 0x03]);
}

#[test]
fn get_version_parses_response() {
    let mut script = vec![0x00, 0x00];  // shadow of the 2-byte request
    script.extend_from_slice(&[0x04, 0x22, 0x02, 0x01, 0x19]);
    let mut dev = driver(script);
    let v = dev.get_version().unwrap();
    assert_eq!(v.hw_version(), 0x22);
    assert_eq!(v.hw_type(), HwType::Lr1120);
    assert_eq!(v.fw_major(), 0x01);
    assert_eq!(v.fw_minor(), 0x19);
}

#[test]
fn get_status_parses_word_and_interrupts() {
    let mut script = vec![0x00, 0x00];
    script.extend_from_slice(&[0x04, 0x05, 0x00, 0x00, 0x04, 0x08]);
    let mut dev = driver(script);
    let (status, intr) = dev.get_status().unwrap();
    assert_eq!(status.cmd(), CmdStatus::Okay);
    assert_eq!(status.chip_mode(), ChipModeStatus::Tx);
    assert!(intr.rx_done());
    assert!(intr.timeout());
    assert!(!intr.tx_done());
}

#[test]
fn rd_reg_assembles_value() {
    let mut script = vec![0x00; 7];  // shadow of the 7-byte request
    script.extend_from_slice(&[0x04, 0x00, 0xDE, 0xAD, 0xBE, 0xEF]);
    let mut dev = driver(script);
    let v = dev.rd_reg(0xF20460).unwrap();
    assert_eq!(v, 0xDEADBEEF);
    // The request carries the address and a word count of one.
    assert_eq!(dev.port.tx_log[..7], [0x01, 0x06, 0x00, 0xF2, 0x04, 0x60, 0x01]);
}

#[test]
fn rd_mem_rejects_over_forty_words() {
    let mut dev = driver(Vec::new());
    assert_eq!(dev.rd_mem(0, 41), Err(Lr1120Error::CmdErr));
    assert_eq!(dev.port.transfers, 0);
}

#[test]
fn wr_tx_buffer_from_appends_payload() {
    let mut dev = driver(Vec::new());
    dev.wr_tx_buffer_from(&[0x11, 0x22, 0x33]).unwrap();
    assert_eq!(dev.port.tx_log, vec![0x01, 0x09, 0x11, 0x22, 0x33]);
}

#[test]
fn get_chip_eui_assembles_eui() {
    let mut script = vec![0x00, 0x00];
    script.extend_from_slice(&[0x04, 0x01, 0x02, 0x03, 0x04, 0x05, 0x06, 0x07, 0x08]);
    let mut dev = driver(script);
    assert_eq!(dev.get_chip_eui().unwrap(), 0x0102030405060708);
}

#[test]
fn get_rssi_avg_averages_samples() {
    // Two RSSI reads of 10 and 20: the rounded mean is 15.
    let mut script = Vec::new();
    script.extend_from_slice(&[0x00, 0x00, 0x04, 10]);
    script.extend_from_slice(&[0x00, 0x00, 0x04, 20]);
    let mut dev = driver(script);
    assert_eq!(dev.get_rssi_avg(2).unwrap(), 15);
}

#[test]
fn dio_num_masks() {
    assert_eq!(DioNum::new(5).as_mask(), 1);
    assert_eq!(DioNum::new(8).as_mask(), 8);
    assert_eq!(DioNum::new(10).as_mask(), 16);
    assert_eq!(DioNum::new(9), DioNum::NotWired);
    assert_eq!(DioNum::NotWired.as_mask(), 0);
}

#[test]
fn ce_set_key_reports_engine_status() {
    let mut script = vec![0x00; 19];  // shadow of the 19-byte request
    script.extend_from_slice(&[0x04, 0x00]);  // SPI status ok, engine success
    let mut dev = driver(script);
    let st = dev.ce_set_key(KeyId::Nwk, 0x000102030405060708090A0B0C0D0E0F).unwrap();
    assert_eq!(st, CeStatus::Success);
    assert_eq!(dev.port.tx_log[..5], [0x05, 0x02, 0x02, 0x00, 0x01]);
}

#[test]
fn ce_derive_key_validates_key_classes() {
    let mut dev = driver(Vec::new());
    // A unicast source is not allowed.
    assert_eq!(
        dev.ce_derive_key(KeyId::AppS, KeyId::McAppS0, 0),
        Err(Lr1120Error::InvalidParam)
    );
    // A root destination is not allowed.
    assert_eq!(
        dev.ce_derive_key(KeyId::Nwk, KeyId::App, 0),
        Err(Lr1120Error::InvalidParam)
    );
    assert_eq!(dev.port.transfers, 0);
}

#[test]
fn ce_encrypt_round_trips_payload_bytes() {
    let mut script = vec![0x00; 5];  // shadow of the request and payload
    script.extend_from_slice(&[0x00, 0xC0, 0xFE]);  // engine success + data
    let mut dev = driver(script);
    let res = dev.ce_encrypt(KeyId::Gp0, &[0x12, 0x34]).unwrap();
    assert_eq!(res.status, CeStatus::Success);
    assert_eq!(res.data, vec![0xC0, 0xFE]);
}

#[test]
fn gnss_get_warm_start_sv_reads_ids() {
    let mut script = vec![0x00; 3];
    script.extend_from_slice(&[7, 11, 23]);
    let mut dev = driver(script);
    let svs = dev.gnss_get_warm_start_sv(true, false, 3).unwrap();
    assert_eq!(svs, vec![7, 11, 23]);
}

#[test]
fn almanac_wire_forms() {
    let hdr = AlmanacHeader::new(0x1234, 0xA1B2C3D4);
    let hb = hdr.to_bytes();
    assert_eq!(
        hb,
        [128, 0x12, 0x34, 0xA1, 0xB2, 0xC3, 0xD4, 0, 0, 0, 0, 0, 0, 0, 0, 0, 0, 0, 0, 0]
    );
    let sv = AlmanacSv {
        sv_id: 9,
        content: [1, 2, 3, 4, 5, 6, 7, 8, 9, 10, 11, 12, 13, 14, 15],
        ca_code: 0xBEEF,
        modulation: 3,
        const_id: 1,
    };
    let sb = sv.to_bytes();
    assert_eq!(
        sb,
        [9, 1, 2, 3, 4, 5, 6, 7, 8, 9, 10, 11, 12, 13, 14, 15, 0xBE, 0xEF, 3, 1]
    );
}

#[test]
fn gnss_updt_almanac_streams_batches() {
    let mut dev = driver(Vec::new());
    let hdr = AlmanacHeader::new(1, 2);
    let sv = AlmanacSv {
        sv_id: 1,
        content: [0; 15],
        ca_code: 0,
        modulation: 0,
        const_id: 0,
    };
    let svs = vec![sv; 26];
    dev.gnss_updt_almanac(hdr, &svs).unwrap();
    // Header write, a full batch of 25 records, and a final batch of one.
    assert_eq!(dev.port.transfers, 3);
    assert_eq!(dev.port.tx_log.len(), (2 + 20) + (2 + 25 * 20) + (2 + 20));
}

#[test]
fn wifi_get_result_short_parses_records() {
    let mut script = vec![0x00; 5];  // shadow of the 5-byte request
    // Two 9-byte records.
    script.extend_from_slice(&[0x01, 0x02, 60, 0, 0, 0, 0, 0, 0x11]);
    script.extend_from_slice(&[0x02, 0x03, 70, 0, 0, 0, 0, 0, 0x22]);
    let mut dev = driver(script);
    let recs = dev.wifi_get_result_short(0, 2).unwrap();
    assert_eq!(recs.len(), 2);
    assert_eq!(recs[0].rssi(), 60);
    assert_eq!(recs[0].channel_id(), 2);
    assert_eq!(recs[0].mac(), 0x11);
    assert_eq!(recs[1].rssi(), 70);
    assert_eq!(recs[1].channel_id(), 3);
    assert_eq!(recs[1].mac(), 0x22);
}

#[test]
fn rd_rx_buffer_to_fills_caller_buffer() {
    let mut script = vec![0x00; 4];  // shadow of the 4-byte request
    script.extend_from_slice(&[0x04, 0xAB, 0xCD]);
    let mut dev = driver(script);
    let mut buffer = vec![0u8; 3];
    dev.rd_rx_buffer_to(5, &mut buffer).unwrap();
    assert_eq!(buffer, vec![0x04, 0xAB, 0xCD]);
    // The request asked for three bytes starting at offset five.
    assert_eq!(dev.port.tx_log[..4], [0x01, 0x0A, 5, 3]);
}

#[test]
fn wr_tx_buffer_resends_buffer_prefix() {
    // A read leaves its response in the transaction buffer; the first
    // bytes can then be pushed into the TX buffer without copying them out.
    let mut script = vec![0x00; 4];
    script.extend_from_slice(&[0x04, 0xAA, 0xBB]);
    let mut dev = driver(script);
    dev.rd_rx_buffer(0, 3).unwrap();
    dev.wr_tx_buffer(3).unwrap();
    let n = dev.port.tx_log.len();
    assert_eq!(dev.port.tx_log[n - 5..], [0x01, 0x09, 0x04, 0xAA, 0xBB]);
}

#[test]
fn lora_packet_status_fields() {
    let mut script = vec![0x00, 0x00];
    script.extend_from_slice(&[0x04, 77, 0xF8, 80]);
    let mut dev = driver(script);
    let st = dev.get_lora_packet_status().unwrap();
    assert_eq!(st.rssi_pkt(), 77);
    assert_eq!(st.snr_pkt(), -8);
    assert_eq!(st.signal_rssi_pkt(), 80);
    assert_eq!(dev.port.tx_log[..2], [0x02, 0x04]);
}

#[test]
fn fsk_packet_status_fields() {
    let mut script = vec![0x00, 0x00];
    script.extend_from_slice(&[0x04, 0b0000_0010, 90, 95]);
    let mut dev = driver(script);
    let st = dev.get_fsk_packet_status().unwrap();
    assert_eq!(st.rx_status(), 0b0000_0010);
    assert_eq!(st.rssi_sync(), 90);
    assert_eq!(st.rssi_avg(), 95);
}

#[test]
fn rd_mem_timeout_releases_chip_select() {
    let mut dev = Lr1120::new(FakePort::new(u32::MAX, vec![0; 8]), CAP, 5);
    let r = dev.rd_mem(0x100, 2);
    assert_eq!(r, Err(Lr1120Error::Timeout));
    assert_eq!(dev.port.polls_made, 5);
    assert!(!dev.port.is_selected);
    // Only the request write touched the bus.
    assert_eq!(dev.port.transfers, 1);
}
