//! Tests for the status and interrupt decoders.

use lr1120::status::{
    decode_interrupts, decode_status, ChipModeStatus, CmdStatus, ExecutionContext, Intr, ResetSrc,
    Status, IRQ_MASK_CAD_DETECTED, IRQ_MASK_CAD_DONE, IRQ_MASK_CRC_ERROR, IRQ_MASK_HEADER_ERR,
    IRQ_MASK_LORA_TXRX, IRQ_MASK_PREAMBLE_DETECTED, IRQ_MASK_RX_DONE, IRQ_MASK_RX_ERROR,
    IRQ_MASK_SW_HDR_VALID, IRQ_MASK_TIMEOUT, IRQ_MASK_TX_DONE,
};
use lr1120::Lr1120Error;

#[test]
fn decode_status_ok_sleep() {
    // Word 0x0400: outcome bits 11:9 = 010 = Ok, bit 8 = 0, mode bits 2:0 = 0.
    let s = decode_status(&[0x04, 0x00]);
    assert_eq!(s.cmd(), CmdStatus::Okay);
    assert!(!s.irq());
    assert_eq!(s.chip_mode(), ChipModeStatus::Sleep);
    assert_eq!(s.reset_src(), ResetSrc::Cleared);
    assert!(s.is_ok());
}

#[test]
fn decode_status_fields() {
    // Word 0x0745: outcome 011 = Data, irq pending, reset source 4
    // (watchdog), mode 5 (TX).
    let s = Status::from_array([0x07, 0x45]);
    assert_eq!(s.cmd(), CmdStatus::Data);
    assert!(s.irq());
    assert_eq!(s.reset_src(), ResetSrc::Watchdog);
    assert_eq!(s.chip_mode(), ChipModeStatus::Tx);
    assert_eq!(s.context(), ExecutionContext::Flash);
    assert!(s.is_ok());
}

#[test]
fn short_form_decodes_like_zero_padded() {
    for byte in [0x40u8, 0x00, 0x04, 0x06, 0x02, 0xFF, 0xA5] {
        let short = decode_status(&[byte]);
        let long = decode_status(&[byte, 0x00]);
        assert_eq!(short.cmd(), long.cmd());
        assert_eq!(short.irq(), long.irq());
        assert_eq!(short.reset_src(), long.reset_src());
        assert_eq!(short.chip_mode(), long.chip_mode());
        assert_eq!(short.check(), long.check());
    }
}

#[test]
fn empty_slice_is_zero_word() {
    let s = decode_status(&[]);
    assert_eq!(s.cmd(), CmdStatus::Fail);
    assert!(!s.irq());
}

#[test]
fn status_round_trip() {
    let cases = [
        (CmdStatus::Fail, false, ResetSrc::Cleared, ChipModeStatus::Sleep),
        (CmdStatus::PErr, true, ResetSrc::Analog, ChipModeStatus::Rc),
        (CmdStatus::Okay, false, ResetSrc::External, ChipModeStatus::Xosc),
        (CmdStatus::Data, true, ResetSrc::System, ChipModeStatus::Fs),
        (CmdStatus::Okay, true, ResetSrc::Watchdog, ChipModeStatus::Rx),
        (CmdStatus::Fail, true, ResetSrc::Iocd, ChipModeStatus::Tx),
        (CmdStatus::Data, false, ResetSrc::Rtc, ChipModeStatus::Loc),
    ];
    for (cmd, irq, reset, mode) in cases {
        let s = Status::from_fields(cmd, irq, reset, mode);
        assert_eq!(s.cmd(), cmd);
        assert_eq!(s.irq(), irq);
        assert_eq!(s.reset_src(), reset);
        assert_eq!(s.chip_mode(), mode);
        // Packing to bytes and decoding again gives the same fields.
        let bytes = s.to_bytes();
        let back = Status::from_array(bytes);
        assert_eq!(back.cmd(), cmd);
        assert_eq!(back.irq(), irq);
        assert_eq!(back.reset_src(), reset);
        assert_eq!(back.chip_mode(), mode);
    }
}

#[test]
fn outcome_check_mapping() {
    assert_eq!(Status::from_byte(0x00).check(), Err(Lr1120Error::CmdFail));
    assert_eq!(Status::from_byte(0x02).check(), Err(Lr1120Error::CmdErr));
    assert_eq!(Status::from_byte(0x04).check(), Ok(()));
    assert_eq!(Status::from_byte(0x06).check(), Ok(()));
    assert_eq!(Status::from_byte(0x08).check(), Err(Lr1120Error::Unknown));
}

#[test]
fn interrupt_word_rx_done_and_timeout() {
    // Word 0x00000408: bit 3 (0x8) is RX done, bit 10 (0x400) is timeout.
    let i = decode_interrupts(&[0x00, 0x00, 0x04, 0x08]);
    assert!(i.rx_done());
    assert!(i.timeout());
    assert!(!i.tx_done());
    assert!(!i.preamble_detected());
    assert!(!i.sw_header_valid());
    assert!(!i.cad_detected());
    assert!(!i.cad_done());
    assert!(!i.header_err());
    assert!(!i.crc_error());
    assert!(!i.len_error());
    assert!(!i.addr_error());
    assert!(!i.lrfhss_hop());
    assert!(!i.low_bat());
    assert!(!i.cmd());
    assert!(!i.error());
    assert!(!i.rx_timestamp());
    assert!(!i.rx_error());
    assert!(!i.none());
    assert_eq!(i.value(), 0x0000_0408);
}

#[test]
fn interrupt_accessors_commute_with_or() {
    let a = Intr::new(IRQ_MASK_RX_DONE | IRQ_MASK_CRC_ERROR);
    let b = Intr::new(IRQ_MASK_TIMEOUT | IRQ_MASK_TX_DONE);
    let u = Intr::new(a.value() | b.value());
    assert_eq!(u.rx_done(), a.rx_done() || b.rx_done());
    assert_eq!(u.tx_done(), a.tx_done() || b.tx_done());
    assert_eq!(u.timeout(), a.timeout() || b.timeout());
    assert_eq!(u.crc_error(), a.crc_error() || b.crc_error());
    assert_eq!(u.cad_done(), a.cad_done() || b.cad_done());
    assert_eq!(u.rx_error(), a.rx_error() || b.rx_error());
}

#[test]
fn interrupt_from_short_slice() {
    // A short slice is padded with zeros at the end.
    let i = Intr::from_slice(&[0x00, 0x40]);
    assert_eq!(i.value(), 0x0040_0000);
    assert!(i.cmd());
    let none = Intr::from_slice(&[]);
    assert!(none.none());
}

#[test]
fn combined_masks() {
    assert_eq!(
        IRQ_MASK_LORA_TXRX,
        IRQ_MASK_PREAMBLE_DETECTED
            | IRQ_MASK_HEADER_ERR
            | IRQ_MASK_SW_HDR_VALID
            | IRQ_MASK_RX_DONE
            | IRQ_MASK_TX_DONE
            | IRQ_MASK_CAD_DETECTED
            | IRQ_MASK_CAD_DONE
            | IRQ_MASK_TIMEOUT
            | IRQ_MASK_CRC_ERROR
    );
    assert_eq!(IRQ_MASK_RX_ERROR, 0x0300_00C0);
    let txrx = Intr::new_txrx();
    assert!(txrx.intr_match(IRQ_MASK_RX_DONE));
    assert!(txrx.intr_match(IRQ_MASK_TIMEOUT));
    assert!(!txrx.intr_match(IRQ_MASK_CRC_ERROR));
}
