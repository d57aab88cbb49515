//! LoRa operations: modulation and packet configuration, channel
//! activity detection, syncwords and ranging.

use vstd::prelude::*;

#[allow(unused_imports)]
use crate::Lr1120Error;
use crate::cmd::cmd_lora::{CheckLength, ExitMode, HeaderType, Ldro, LoraBw, LoraCr,
    LoraPacketStatusRsp, LoraRxHeaderInfosRsp, get_lora_packet_status_req,
    spec_get_lora_packet_status_req, RangingResKind, RangingResultRsp, RangingRssiRsp, Sf,
    get_lora_rx_header_infos_req, get_ranging_result_req, set_lora_cad_cmd,
    set_lora_cad_params_cmd, set_lora_modulation_params_cmd, set_lora_packet_params_cmd,
    set_lora_synch_timeout_cmd, set_lora_syncword_cmd, set_ranging_addr_cmd,
    set_ranging_parameter_cmd, set_ranging_req_addr_cmd, set_ranging_tx_rx_delay_cmd,
    spec_get_lora_rx_header_infos_req, spec_get_ranging_result_req, spec_set_lora_cad_cmd,
    spec_set_lora_cad_params_cmd, spec_set_lora_modulation_params_cmd,
    spec_set_lora_packet_params_cmd, spec_set_lora_synch_timeout_cmd,
    spec_set_lora_syncword_cmd, spec_set_ranging_addr_cmd, spec_set_ranging_parameter_cmd,
    spec_set_ranging_req_addr_cmd, spec_set_ranging_tx_rx_delay_cmd};
use crate::cmd::cmd_regmem::{spec_write_reg_mem_mask32_cmd, write_reg_mem_mask32_cmd};
use crate::engine::{Lr1120, preserves_frame, write_cmd_history, write_then_read_history};
use crate::port::SpiPort;

verus! {

/// LoRa modulation parameters: SF, bandwidth, coding rate and LDRO.
#[derive(Debug, Clone, Copy)]
pub struct LoraModulationParams {
    /// Spreading factor.
    pub sf: Sf,
    /// Bandwidth.
    pub bw: LoraBw,
    /// Coding rate.
    pub cr: LoraCr,
    /// Low data-rate optimisation.
    pub ldro: Ldro,
}

impl LoraModulationParams {
    /// Whether the mandatory low data-rate optimisation applies to this
    /// SF/BW pair.
    pub open spec fn spec_ldro_needed(sf: Sf, bw: LoraBw) -> bool {
        ||| (sf == Sf::Sf12 && !(bw == LoraBw::Bw1000 || bw == LoraBw::Bw500))
        ||| (sf == Sf::Sf11 && !(bw == LoraBw::Bw1000 || bw == LoraBw::Bw500 || bw
            == LoraBw::Bw250))
    }

    /// Modulation with the default coding rate (4/5) and LDRO based on
    /// SF/BW.
    pub fn basic(sf: Sf, bw: LoraBw) -> (r: LoraModulationParams)
        ensures
            r.sf == sf && r.bw == bw && r.cr == LoraCr::Cr1Ham45Si,
            r.ldro == (if LoraModulationParams::spec_ldro_needed(sf, bw) {
                Ldro::On
            } else {
                Ldro::Off
            }),
    {
        let ldro_en = (sf == Sf::Sf12 && !matches!(bw, LoraBw::Bw1000 | LoraBw::Bw500)) || (sf
            == Sf::Sf11 && !matches!(bw, LoraBw::Bw1000 | LoraBw::Bw500 | LoraBw::Bw250));
        LoraModulationParams {
            sf,
            bw,
            cr: LoraCr::Cr1Ham45Si,
            ldro: if ldro_en {
                Ldro::On
            } else {
                Ldro::Off
            },
        }
    }

    /// Modulation from explicit parameters.
    pub fn new(sf: Sf, bw: LoraBw, cr: LoraCr, ldro: Ldro) -> (r: LoraModulationParams)
        ensures
            r.sf == sf && r.bw == bw && r.cr == cr && r.ldro == ldro,
    {
        LoraModulationParams { sf, bw, cr, ldro }
    }
}

/// LoRa packet parameters: preamble, payload length, header type, CRC
/// and chirp direction.
#[derive(Debug, Clone, Copy)]
pub struct LoraPacketParams {
    /// Preamble length (in symbols).
    pub pbl_len: u16,
    /// Payload length (in bytes).
    pub payload_len: u8,
    /// Explicit or implicit header.
    pub header_type: HeaderType,
    /// CRC enable.
    pub crc_en: bool,
    /// Chirp direction.
    pub invert_iq: bool,
}

impl LoraPacketParams {
    /// Default packet parameters: explicit header with CRC and standard
    /// chirp direction, with a longer preamble for the short spreading
    /// factors.
    pub fn basic(payload_len: u8, modulation: &LoraModulationParams) -> (r: LoraPacketParams)
        ensures
            r.pbl_len == (if modulation.sf.spec_code() < 7 {
                12u16
            } else {
                8u16
            }),
            r.payload_len == payload_len,
            r.header_type == HeaderType::Explicit,
            r.crc_en && !r.invert_iq,
    {
        LoraPacketParams {
            pbl_len: if modulation.sf.code() < 7 {
                12
            } else {
                8
            },
            payload_len,
            header_type: HeaderType::Explicit,
            crc_en: true,
            invert_iq: false,
        }
    }

    /// Packet parameters from explicit values.
    pub fn new(pbl_len: u16, payload_len: u8, header_type: HeaderType, crc_en: bool,
        invert_iq: bool) -> (r: LoraPacketParams)
        ensures
            r.pbl_len == pbl_len && r.payload_len == payload_len,
            r.header_type == header_type && r.crc_en == crc_en && r.invert_iq == invert_iq,
    {
        LoraPacketParams { pbl_len, payload_len, header_type, crc_en, invert_iq }
    }
}

/// The recommended CAD threshold for a given SF and number of symbols.
pub open spec fn spec_lora_cad_thr(sf: Sf, nb_symbols: u8) -> u8 {
    (
    if nb_symbols <= 1 {
        60u8
    } else if nb_symbols == 2 {
        56u8
    } else if nb_symbols == 3 {
        52u8
    } else {
        51u8
    } + match sf {
        Sf::Sf5 => 0u8,
        Sf::Sf6 => 1u8,
        Sf::Sf7 => 2u8,
        Sf::Sf8 => 3u8,
        Sf::Sf9 => 5u8,
        Sf::Sf10 => 6u8,
        Sf::Sf11 => 8u8,
        Sf::Sf12 => 10u8,
    }) as u8
}

/// Recommended CAD threshold for a given SF and number of symbols.
#[verifier::when_used_as_spec(spec_lora_cad_thr)]
pub fn lora_cad_thr(sf: Sf, nb_symbols: u8) -> (r: u8)
    ensures
        r == spec_lora_cad_thr(sf, nb_symbols),
{
    let base_symb: u8 = match nb_symbols {
        0 | 1 => 60,
        2 => 56,
        3 => 52,
        _ => 51,
    };
    let offset_sf: u8 = match sf {
        Sf::Sf5 => 0,
        Sf::Sf6 => 1,
        Sf::Sf7 => 2,
        Sf::Sf8 => 3,
        Sf::Sf9 => 5,
        Sf::Sf10 => 6,
        Sf::Sf11 => 8,
        Sf::Sf12 => 10,
    };
    base_symb + offset_sf
}

/// Clamp a symbol count into the valid CAD range 1..=15.
pub open spec fn spec_clamp_symbols(n: u8) -> u8 {
    if n < 1 {
        1u8
    } else if n > 15 {
        15u8
    } else {
        n
    }
}

/// LoRa CAD parameters.
#[derive(Debug, Clone, Copy)]
pub struct LoraCadParams {
    /// Number of symbols (1 to 15).
    pub nb_symbols: u8,
    /// Exit mode: idle, RX (low power detect on long preamble) or TX (for
    /// listen-before-talk).
    pub exit_mode: ExitMode,
    /// Timeout for the following RX or TX if the exit mode is not
    /// CAD-only.
    pub timeout: u32,
    /// Detection threshold.
    pub thr: u8,
}

impl LoraCadParams {
    /// The clamped number of symbols.
    pub open spec fn spec_nb_symbols(&self) -> u8 {
        self.nb_symbols
    }

    /// CAD parameters for a CAD-only operation.
    pub fn new_cad_only(sf: Sf, nb_symbols: u8) -> (r: LoraCadParams)
        ensures
            r.spec_nb_symbols() == spec_clamp_symbols(nb_symbols),
            r.exit_mode == ExitMode::CadOnly,
            r.timeout == 0,
            r.thr == spec_lora_cad_thr(sf, spec_clamp_symbols(nb_symbols)),
    {
        let nb_symbols = clamp_symbols(nb_symbols);
        let thr = lora_cad_thr(sf, nb_symbols);
        LoraCadParams { nb_symbols, exit_mode: ExitMode::CadOnly, timeout: 0, thr }
    }

    /// CAD parameters with an automatic detection threshold.
    pub fn new_auto(sf: Sf, nb_symbols: u8, exit_mode: ExitMode, timeout: u32) -> (r:
        LoraCadParams)
        ensures
            r.spec_nb_symbols() == spec_clamp_symbols(nb_symbols),
            r.exit_mode == exit_mode,
            r.timeout == timeout,
            r.thr == spec_lora_cad_thr(sf, spec_clamp_symbols(nb_symbols)),
    {
        let nb_symbols = clamp_symbols(nb_symbols);
        let thr = lora_cad_thr(sf, nb_symbols);
        LoraCadParams { nb_symbols, exit_mode, timeout, thr }
    }

    /// CAD parameters with a manual detection threshold.
    pub fn new(nb_symbols: u8, thr: u8, exit_mode: ExitMode, timeout: u32) -> (r: LoraCadParams)
        ensures
            r.spec_nb_symbols() == spec_clamp_symbols(nb_symbols),
            r.exit_mode == exit_mode,
            r.timeout == timeout,
            r.thr == thr,
    {
        let nb_symbols = clamp_symbols(nb_symbols);
        LoraCadParams { nb_symbols, exit_mode, timeout, thr }
    }
}

/// Clamp a symbol count into the valid CAD range 1..=15.
#[verifier::when_used_as_spec(spec_clamp_symbols)]
fn clamp_symbols(n: u8) -> (r: u8)
    ensures
        r == spec_clamp_symbols(n),
{
    if n < 1 {
        1
    } else if n > 15 {
        15
    } else {
        n
    }
}

/// Side-detector configuration byte: SF, LDRO and chirp inversion packed
/// together.
#[derive(Debug, Clone, Copy)]
pub struct SidedetCfg(u8);

impl SidedetCfg {
    /// The packed configuration byte.
    pub closed spec fn spec_to_byte(&self) -> u8 {
        self.0
    }

    /// Pack a side-detector configuration byte.
    pub fn new(sf: Sf, ldro: Ldro, inv: bool) -> (r: SidedetCfg)
        ensures
            r.spec_to_byte() == ((sf.spec_code() << 4) | (ldro.spec_code() << 2) | (if inv {
                1u8
            } else {
                0u8
            })),
    {
        let b = (sf.code() << 4) | (ldro.code() << 2) | if inv {
            1
        } else {
            0
        };
        SidedetCfg(b)
    }

    /// Return the packed configuration byte.
    #[verifier::when_used_as_spec(spec_to_byte)]
    pub fn to_byte(&self) -> (r: u8)
        ensures
            r == self.spec_to_byte(),
    {
        self.0
    }
}

/// LoRa blanking configuration.
#[derive(Debug, Clone)]
pub struct BlankingCfg {
    /// Threshold on the SNR margin (0.5dB steps) to enable symbol domain
    /// blanking (0 to 15).
    pub snr_thr: u8,
    /// Gain (0 to 3) to adapt the threshold based on the average SNR.
    pub thr_gain: u8,
    /// Symbol domain blanking coefficient (0 to 3, 0 being
    /// hard-blanking).
    pub symb_gain: u8,
    /// Threshold on RSSI (0.5dB steps) for time domain blanking (0 to
    /// 15).
    pub rssi_thr: u8,
    /// Enable time domain blanking during detection.
    pub detect: bool,
}

impl BlankingCfg {
    /// Blanking disabled.
    pub fn off() -> (r: BlankingCfg)
        ensures
            r.thr_gain == 0 && r.snr_thr == 0 && r.symb_gain == 0 && !r.detect && r.rssi_thr == 0,
    {
        BlankingCfg { thr_gain: 0, snr_thr: 0, symb_gain: 0, detect: false, rssi_thr: 0 }
    }

    /// Blanking enabled in the symbol domain only.
    pub fn symbol() -> (r: BlankingCfg)
        ensures
            r.thr_gain == 2 && r.snr_thr == 8 && r.symb_gain == 2 && !r.detect && r.rssi_thr == 0,
    {
        BlankingCfg { thr_gain: 2, snr_thr: 8, symb_gain: 2, detect: false, rssi_thr: 0 }
    }

    /// Blanking enabled in the time and symbol domains.
    pub fn td_symb() -> (r: BlankingCfg)
        ensures
            r.thr_gain == 2 && r.snr_thr == 8 && r.symb_gain == 2 && !r.detect && r.rssi_thr == 7,
    {
        BlankingCfg { thr_gain: 2, snr_thr: 8, symb_gain: 2, detect: false, rssi_thr: 7 }
    }

    /// Blanking fully enabled, including during detection.
    pub fn full() -> (r: BlankingCfg)
        ensures
            r.thr_gain == 2 && r.snr_thr == 8 && r.symb_gain == 2 && r.detect && r.rssi_thr == 7,
    {
        BlankingCfg { thr_gain: 2, snr_thr: 8, symb_gain: 2, detect: true, rssi_thr: 7 }
    }
}

/// Frequency estimation during a ranging exchange; valid only on the
/// responder side.
#[derive(Debug, Clone)]
pub struct RangingFei {
    /// Frequency estimation on the first exchange.
    pub fei1: i32,
    /// Frequency estimation on the second exchange.
    pub fei2: i32,
}

/// Duration of the timing-sync pulse of the responder.
#[derive(Debug, Clone, Copy, PartialEq, Eq, Structural)]
pub enum TimingSyncPulseWidth {
    W1,
    W5,
    W52,
    W520,
    W5200,
    W52k,
    W260k,
    W1024k,
}

impl TimingSyncPulseWidth {
    /// Numeric code of this pulse width on the wire.
    pub open spec fn spec_code(&self) -> u8 {
        match self {
            TimingSyncPulseWidth::W1 => 0,
            TimingSyncPulseWidth::W5 => 1,
            TimingSyncPulseWidth::W52 => 2,
            TimingSyncPulseWidth::W520 => 3,
            TimingSyncPulseWidth::W5200 => 4,
            TimingSyncPulseWidth::W52k => 5,
            TimingSyncPulseWidth::W260k => 6,
            TimingSyncPulseWidth::W1024k => 7,
        }
    }

    /// Encode this pulse width for a request byte.
    #[verifier::when_used_as_spec(spec_code)]
    pub fn code(&self) -> (r: u8)
        ensures
            r == self.spec_code(),
    {
        match self {
            TimingSyncPulseWidth::W1 => 0,
            TimingSyncPulseWidth::W5 => 1,
            TimingSyncPulseWidth::W52 => 2,
            TimingSyncPulseWidth::W520 => 3,
            TimingSyncPulseWidth::W5200 => 4,
            TimingSyncPulseWidth::W52k => 5,
            TimingSyncPulseWidth::W260k => 6,
            TimingSyncPulseWidth::W1024k => 7,
        }
    }
}

impl<P: SpiPort> Lr1120<P> {

    /// Set the LoRa modulation parameters.
    pub fn set_lora_modulation(&mut self, params: &LoraModulationParams) -> (r: Result<(), Lr1120Error>)
        requires
            old(self).wf(),
        ensures
            preserves_frame(*old(self), *final(self)),
            r is Ok ==> final(self).wf() && write_cmd_history(
                old(self).port.history(),
                final(self).port.history(),
                spec_set_lora_modulation_params_cmd(params.sf, params.bw, params.cr, params.ldro),
            ),
    {
        let req = set_lora_modulation_params_cmd(params.sf, params.bw, params.cr, params.ldro);
        self.write(req.as_slice())
    }

    /// Set the LoRa packet parameters.
    pub fn set_lora_packet(&mut self, params: &LoraPacketParams) -> (r: Result<(), Lr1120Error>)
        requires
            old(self).wf(),
        ensures
            preserves_frame(*old(self), *final(self)),
            r is Ok ==> final(self).wf() && write_cmd_history(
                old(self).port.history(),
                final(self).port.history(),
                spec_set_lora_packet_params_cmd(params.pbl_len, params.header_type, params.payload_len, params.crc_en, params.invert_iq),
            ),
    {
        let req = set_lora_packet_params_cmd(params.pbl_len, params.header_type, params.payload_len, params.crc_en, params.invert_iq);
        self.write(req.as_slice())
    }

    /// Set the LoRa syncword using the legacy 1-byte notation: 0x34 for a
    /// public network, 0x12 for a private one.
    pub fn set_lora_syncword(&mut self, syncword: u8) -> (r: Result<(), Lr1120Error>)
        requires
            old(self).wf(),
        ensures
            preserves_frame(*old(self), *final(self)),
            r is Ok ==> final(self).wf() && write_cmd_history(
                old(self).port.history(),
                final(self).port.history(),
                spec_set_lora_syncword_cmd(syncword),
            ),
    {
        let req = set_lora_syncword_cmd(syncword);
        self.write(req.as_slice())
    }

    /// Set the LoRa syncword using the 2-byte notation (two values of 5
    /// bits each).  The public network is (6, 8) and the private network
    /// (2, 4).
    pub fn set_lora_syncword_ext(&mut self, s1: i8, s2: i8) -> (r: Result<(), Lr1120Error>)
        requires
            old(self).wf(),
        ensures
            preserves_frame(*old(self), *final(self)),
            r is Ok ==> final(self).wf() && write_cmd_history(
                old(self).port.history(),
                final(self).port.history(),
                spec_write_reg_mem_mask32_cmd(
                    0xF20460,
                    0x1FFF,
                    ((((s1 & 0x1F) as u8) as u32) | ((((s2 & 0x1F) as u8) as u32) << 8)),
                ),
            ),
    {
        let reg_val: u32 = (((s1 & 0x1F) as u8) as u32) | ((((s2 & 0x1F) as u8) as u32) << 8);
        let req = write_reg_mem_mask32_cmd(0xF20460, 0x1FFF, reg_val);
        self.write(req.as_slice())
    }

    /// Set the synchronisation timeout, in number of symbols.
    pub fn set_lora_synch_timeout(&mut self, timeout: u8) -> (r: Result<(), Lr1120Error>)
        requires
            old(self).wf(),
        ensures
            preserves_frame(*old(self), *final(self)),
            r is Ok ==> final(self).wf() && write_cmd_history(
                old(self).port.history(),
                final(self).port.history(),
                spec_set_lora_synch_timeout_cmd(timeout),
            ),
    {
        let req = set_lora_synch_timeout_cmd(timeout);
        self.write(req.as_slice())
    }

    /// Return the RX header information: CRC on/off and coding rate.
    pub fn get_lora_rx_header_info(&mut self) -> (r: Result<LoraRxHeaderInfosRsp, Lr1120Error>)
        requires
            old(self).wf(),
        ensures
            preserves_frame(*old(self), *final(self)),
            r matches Ok(v) ==> final(self).wf() && exists|rsp: Seq<u8>|
                {
                    &&& rsp.len() == 2
                    &&& #[trigger] write_then_read_history(
                        old(self).port.history(),
                        final(self).port.history(),
                        spec_get_lora_rx_header_infos_req(),
                        rsp,
                        old(self).spec_poll_budget(),
                    )
                    &&& crate::status::spec_status_byte_check(rsp[0]) is Ok
                    &&& v.bytes() == rsp
                },
    {
        let req = get_lora_rx_header_infos_req();
        let budget = self.poll_budget;
        let rsp = match self.read_checked(req.as_slice(), 2, budget) {
            Ok(v) => v,
            Err(e) => {
                return Err(e);
            },
        };
        Ok(LoraRxHeaderInfosRsp::from_bytes(rsp.as_slice()))
    }

    /// Read the LoRa RX stats (RSSI and SNR) of the last received packet.
    pub fn get_lora_packet_status(&mut self) -> (r: Result<LoraPacketStatusRsp, Lr1120Error>)
        requires
            old(self).wf(),
        ensures
            preserves_frame(*old(self), *final(self)),
            r matches Ok(v) ==> final(self).wf() && exists|rsp: Seq<u8>|
                {
                    &&& rsp.len() == 4
                    &&& #[trigger] write_then_read_history(
                        old(self).port.history(),
                        final(self).port.history(),
                        spec_get_lora_packet_status_req(),
                        rsp,
                        old(self).spec_poll_budget(),
                    )
                    &&& crate::status::spec_status_byte_check(rsp[0]) is Ok
                    &&& v.bytes() == rsp
                },
    {
        let req = get_lora_packet_status_req();
        let budget = self.poll_budget;
        let rsp = match self.read_checked(req.as_slice(), 4, budget) {
            Ok(v) => v,
            Err(e) => {
                return Err(e);
            },
        };
        Ok(LoraPacketStatusRsp::from_bytes(rsp.as_slice()))
    }

    /// Set the LoRa channel activity detection parameters.
    pub fn set_lora_cad_params(&mut self, params: LoraCadParams) -> (r: Result<(), Lr1120Error>)
        requires
            old(self).wf(),
        ensures
            preserves_frame(*old(self), *final(self)),
            r is Ok ==> final(self).wf() && write_cmd_history(
                old(self).port.history(),
                final(self).port.history(),
                spec_set_lora_cad_params_cmd(params.spec_nb_symbols(), params.thr, 10, params.exit_mode, params.timeout),
            ),
    {
        let req = set_lora_cad_params_cmd(params.nb_symbols, params.thr, 10, params.exit_mode, params.timeout);
        self.write(req.as_slice())
    }

    /// Start a LoRa channel activity detection (CAD).
    pub fn set_lora_cad(&mut self) -> (r: Result<(), Lr1120Error>)
        requires
            old(self).wf(),
        ensures
            preserves_frame(*old(self), *final(self)),
            r is Ok ==> final(self).wf() && write_cmd_history(
                old(self).port.history(),
                final(self).port.history(),
                spec_set_lora_cad_cmd(),
            ),
    {
        let req = set_lora_cad_cmd();
        self.write(req.as_slice())
    }

    /// Enable compatibility with the SX127x for SF6 communication.  Must
    /// be called after each modulation change.
    pub fn comp_sx127x_sf6(&mut self, en: bool) -> (r: Result<(), Lr1120Error>)
        requires
            old(self).wf(),
        ensures
            preserves_frame(*old(self), *final(self)),
            r is Ok ==> final(self).wf() && write_cmd_history(
                old(self).port.history(),
                final(self).port.history(),
                spec_write_reg_mem_mask32_cmd(
                    0xF20414,
                    0x00040000,
                    (if en {
                        1u32
                    } else {
                        0u32
                    }),
                ),
            ),
    {
        let req = write_reg_mem_mask32_cmd(0xF20414, 0x00040000, if en {
            1
        } else {
            0
        });
        self.write(req.as_slice())
    }

    /// Configure the side-detector, allowing multiple spreading factors to
    /// be detected; an empty configuration disables all side-detectors.
    /// Must be called after the modulation is set.
    pub fn set_lora_sidedet_cfg(&mut self, cfg: &[SidedetCfg]) -> (r: Result<(), Lr1120Error>)
        requires
            old(self).wf(),
            cfg@.len() <= 3,
        ensures
            preserves_frame(*old(self), *final(self)),
            r is Ok ==> final(self).wf() && write_cmd_history(
                old(self).port.history(),
                final(self).port.history(),
                seq![0x02u8, 0x24u8] + cfg@.map_values(|c: SidedetCfg| c.spec_to_byte()),
            ),
    {
        let mut req: Vec<u8> = Vec::new();
        req.push(0x02);
        req.push(0x24);
        let mut i: usize = 0;
        while i < cfg.len()
            invariant
                i <= cfg@.len(),
                req@ == seq![0x02u8, 0x24u8] + cfg@.map_values(|c: SidedetCfg| c.spec_to_byte())
                    .take(i as int),
            decreases cfg@.len() - i,
        {
            req.push(cfg[i].to_byte());
            proof {
                assert(req@ =~= seq![0x02u8, 0x24u8] + cfg@.map_values(
                    |c: SidedetCfg| c.spec_to_byte(),
                ).take(i + 1));
            }
            i += 1;
        }
        proof {
            assert(req@ =~= seq![0x02u8, 0x24u8] + cfg@.map_values(
                |c: SidedetCfg| c.spec_to_byte(),
            ));
        }
        self.write(req.as_slice())
    }

    /// Configure the side-detector syncwords using the basic syncword
    /// format; only the provided entries are sent.
    pub fn set_lora_sidedet_syncword(&mut self, sw: &[u8]) -> (r: Result<(), Lr1120Error>)
        requires
            old(self).wf(),
            sw@.len() <= 3,
        ensures
            preserves_frame(*old(self), *final(self)),
            r is Ok ==> final(self).wf() && write_cmd_history(
                old(self).port.history(),
                final(self).port.history(),
                seq![0x02u8, 0x25u8] + sw@,
            ),
    {
        let mut req: Vec<u8> = Vec::new();
        req.push(0x02);
        req.push(0x25);
        let mut i: usize = 0;
        while i < sw.len()
            invariant
                i <= sw@.len(),
                req@ == seq![0x02u8, 0x25u8] + sw@.take(i as int),
            decreases sw@.len() - i,
        {
            req.push(sw[i]);
            proof {
                assert(req@ =~= seq![0x02u8, 0x25u8] + sw@.take(i + 1));
            }
            i += 1;
        }
        proof {
            assert(req@ =~= seq![0x02u8, 0x25u8] + sw@);
        }
        self.write(req.as_slice())
    }

    /// Set the device address for ranging.  The device answers a ranging
    /// request only if the request address matches; the length defines how
    /// many address bytes are checked, starting from the LSB.
    pub fn set_ranging_dev_addr(&mut self, addr: u32, length: Option<CheckLength>) -> (r: Result<(), Lr1120Error>)
        requires
            old(self).wf(),
        ensures
            preserves_frame(*old(self), *final(self)),
            r is Ok ==> final(self).wf() && write_cmd_history(
                old(self).port.history(),
                final(self).port.history(),
                spec_set_ranging_addr_cmd(addr, (match length { Some(l) => l, None => CheckLength::Addr32b })),
            ),
    {
        let chk = match length {
            Some(l) => l,
            None => CheckLength::Addr32b,
        };
        let req = set_ranging_addr_cmd(addr, chk);
        self.write(req.as_slice())
    }

    /// Set the request address for ranging.
    pub fn set_ranging_req_addr(&mut self, addr: u32) -> (r: Result<(), Lr1120Error>)
        requires
            old(self).wf(),
        ensures
            preserves_frame(*old(self), *final(self)),
            r is Ok ==> final(self).wf() && write_cmd_history(
                old(self).port.history(),
                final(self).port.history(),
                spec_set_ranging_req_addr_cmd(addr),
            ),
    {
        let req = set_ranging_req_addr_cmd(addr);
        self.write(req.as_slice())
    }

    /// Set the ranging calibration value.
    pub fn set_ranging_txrx_delay(&mut self, delay: u32) -> (r: Result<(), Lr1120Error>)
        requires
            old(self).wf(),
        ensures
            preserves_frame(*old(self), *final(self)),
            r is Ok ==> final(self).wf() && write_cmd_history(
                old(self).port.history(),
                final(self).port.history(),
                spec_set_ranging_tx_rx_delay_cmd(delay),
            ),
    {
        let req = set_ranging_tx_rx_delay_cmd(delay);
        self.write(req.as_slice())
    }

    /// Get the base delay for ranging depending on bandwidth and SF.  The
    /// delay was calibrated only for the 125kHz, 250kHz and 500kHz
    /// bandwidths.
    pub fn get_ranging_base_delay(&self, modulation: &LoraModulationParams) -> (r: u32)
    {
        let ranging_delay: [u32; 24] = [
            19115,
            19113,
            19121,
            19127,
            19141,
            19178,
            19242,
            19370,
            20265,
            20266,
            20279,
            20292,
            20236,
            20305,
            20433,
            20689,
            20154,
            20268,
            20298,
            20319,
            20323,
            20314,
            20570,
            21082,
        ];
        let offset: usize = match modulation.bw {
            LoraBw::Bw500 => 0,
            LoraBw::Bw250 => 8,
            LoraBw::Bw125 => 16,
            _ => 32,
        };
        let sf_code = modulation.sf.code();
        proof {
            assert(5 <= modulation.sf.spec_code() <= 12);
        }
        let idx = offset + (sf_code as usize - 5);
        if idx < 24 {
            ranging_delay[idx]
        } else {
            let sh: u32 = 12 - (sf_code as u32);
            proof {
                assert(5600u32 >> sh <= 5600) by (bit_vector)
                    requires
                        sh <= 7,
                ;
            }
            18000 - (5600u32 >> sh)
        }
    }

    /// Set the ranging parameters: the number of symbols, typically between
    /// 8 and 16, with 12 close to optimal.
    pub fn set_ranging_params(&mut self, nb_symbols: u8) -> (r: Result<(), Lr1120Error>)
        requires
            old(self).wf(),
        ensures
            preserves_frame(*old(self), *final(self)),
            r is Ok ==> final(self).wf() && write_cmd_history(
                old(self).port.history(),
                final(self).port.history(),
                spec_set_ranging_parameter_cmd(0, nb_symbols),
            ),
    {
        let req = set_ranging_parameter_cmd(0, nb_symbols);
        self.write(req.as_slice())
    }

    /// Return the result of the last ranging exchange (round-trip time of
    /// flight).
    pub fn get_ranging_result(&mut self) -> (r: Result<RangingResultRsp, Lr1120Error>)
        requires
            old(self).wf(),
        ensures
            preserves_frame(*old(self), *final(self)),
            r matches Ok(v) ==> final(self).wf() && exists|rsp: Seq<u8>|
                {
                    &&& rsp.len() == 4
                    &&& #[trigger] write_then_read_history(
                        old(self).port.history(),
                        final(self).port.history(),
                        spec_get_ranging_result_req(RangingResKind::Distance),
                        rsp,
                        old(self).spec_poll_budget(),
                    )
                    &&& crate::status::spec_status_byte_check(rsp[0]) is Ok
                    &&& v.bytes() == rsp
                },
    {
        let req = get_ranging_result_req(RangingResKind::Distance);
        let budget = self.poll_budget;
        let rsp = match self.read_checked(req.as_slice(), 4, budget) {
            Ok(v) => v,
            Err(e) => {
                return Err(e);
            },
        };
        Ok(RangingResultRsp::from_bytes(rsp.as_slice()))
    }

    /// Return the RSSI measured during ranging.
    pub fn get_ranging_rssi(&mut self) -> (r: Result<RangingRssiRsp, Lr1120Error>)
        requires
            old(self).wf(),
        ensures
            preserves_frame(*old(self), *final(self)),
            r matches Ok(v) ==> final(self).wf() && exists|rsp: Seq<u8>|
                {
                    &&& rsp.len() == 2
                    &&& #[trigger] write_then_read_history(
                        old(self).port.history(),
                        final(self).port.history(),
                        spec_get_ranging_result_req(RangingResKind::Rssi),
                        rsp,
                        old(self).spec_poll_budget(),
                    )
                    &&& crate::status::spec_status_byte_check(rsp[0]) is Ok
                    &&& v.bytes() == rsp
                },
    {
        let req = get_ranging_result_req(RangingResKind::Rssi);
        let budget = self.poll_budget;
        let rsp = match self.read_checked(req.as_slice(), 2, budget) {
            Ok(v) => v,
            Err(e) => {
                return Err(e);
            },
        };
        Ok(RangingRssiRsp::from_bytes(rsp.as_slice()))
    }
}

} // verus!
