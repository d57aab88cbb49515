//! (G)FSK operations: generic FSK modulation with the packet structure
//! of earlier chips, supporting fixed or dynamic length packets up to 255
//! bytes, with configurable CRC, address filtering and whitening.

use vstd::prelude::*;

#[allow(unused_imports)]
use crate::Lr1120Error;
use crate::cmd::cmd_fsk::{AddrComp, Crc, DcFree, FskPacketStatusRsp, FskPktFormat,
    PblLenDetect, Precision, PulseShape, RxBw, get_fsk_packet_status_req,
    set_fsk_modulation_params_cmd, set_fsk_packet_params_cmd, set_fsk_sync_word_cmd,
    spec_get_fsk_packet_status_req, spec_set_fsk_modulation_params_cmd,
    spec_set_fsk_packet_params_cmd, spec_set_fsk_sync_word_cmd};
use crate::engine::{Lr1120, preserves_frame, write_cmd_history, write_then_read_history};
use crate::port::SpiPort;

verus! {

impl<P: SpiPort> Lr1120<P> {

    /// Set the modulation parameters: raw bitrate, pulse shaping, bandwidth
    /// and frequency deviation.
    pub fn set_fsk_modulation(&mut self, bitrate: u32, pulse_shape: PulseShape, rx_bw: RxBw, fdev: u32) -> (r: Result<(), Lr1120Error>)
        requires
            old(self).wf(),
        ensures
            preserves_frame(*old(self), *final(self)),
            r is Ok ==> final(self).wf() && write_cmd_history(
                old(self).port.history(),
                final(self).port.history(),
                spec_set_fsk_modulation_params_cmd(Precision::Basic, bitrate, pulse_shape, rx_bw, fdev),
            ),
    {
        let req = set_fsk_modulation_params_cmd(Precision::Basic, bitrate, pulse_shape, rx_bw, fdev);
        self.write(req.as_slice())
    }

    /// Set the packet parameters: preamble, length format, CRC, addressing
    /// and whitening.
    pub fn set_fsk_packet(&mut self, pbl_len_tx: u16, pbl_len_detect: PblLenDetect, sw_len: u8, addr_comp: AddrComp, fsk_pkt_format: FskPktFormat, pld_len: u8, crc: Crc, dc_free: DcFree) -> (r: Result<(), Lr1120Error>)
        requires
            old(self).wf(),
        ensures
            preserves_frame(*old(self), *final(self)),
            r is Ok ==> final(self).wf() && write_cmd_history(
                old(self).port.history(),
                final(self).port.history(),
                spec_set_fsk_packet_params_cmd(pbl_len_tx, pbl_len_detect, sw_len, addr_comp, fsk_pkt_format, pld_len, crc, dc_free),
            ),
    {
        let req = set_fsk_packet_params_cmd(pbl_len_tx, pbl_len_detect, sw_len, addr_comp, fsk_pkt_format, pld_len, crc, dc_free);
        self.write(req.as_slice())
    }

    /// Configure the syncword.
    pub fn set_fsk_syncword(&mut self, syncword: u64) -> (r: Result<(), Lr1120Error>)
        requires
            old(self).wf(),
        ensures
            preserves_frame(*old(self), *final(self)),
            r is Ok ==> final(self).wf() && write_cmd_history(
                old(self).port.history(),
                final(self).port.history(),
                spec_set_fsk_sync_word_cmd(syncword),
            ),
    {
        let req = set_fsk_sync_word_cmd(syncword);
        self.write(req.as_slice())
    }
    /// Read the (G)FSK packet status of the last received packet: RX status
    /// flags and RSSI.
    pub fn get_fsk_packet_status(&mut self) -> (r: Result<FskPacketStatusRsp, Lr1120Error>)
        requires
            old(self).wf(),
        ensures
            preserves_frame(*old(self), *final(self)),
            r matches Ok(v) ==> final(self).wf() && exists|rsp: Seq<u8>|
                {
                    &&& rsp.len() == 4
                    &&& #[trigger] write_then_read_history(
                        old(self).port.history(),
                        final(self).port.history(),
                        spec_get_fsk_packet_status_req(),
                        rsp,
                        old(self).spec_poll_budget(),
                    )
                    &&& crate::status::spec_status_byte_check(rsp[0]) is Ok
                    &&& v.bytes() == rsp
                },
    {
        let req = get_fsk_packet_status_req();
        let budget = self.poll_budget;
        let rsp = match self.read_checked(req.as_slice(), 4, budget) {
            Ok(v) => v,
            Err(e) => {
                return Err(e);
            },
        };
        Ok(FskPacketStatusRsp::from_bytes(rsp.as_slice()))
    }
}

} // verus!
