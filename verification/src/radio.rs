//! Radio control and RF management: RF channel configuration, power
//! amplifier setup, antenna signal measurement, and transmission and
//! reception control.

use vstd::prelude::*;

#[allow(unused_imports)]
use crate::Lr1120Error;
use crate::cmd::cmd_radio::{PaSel, PacketType, FallbackMode, RampTime, RegPaSupply,
    RssiInstRsp, RxBufferStatusRsp, get_rssi_inst_req, get_rx_buffer_status_req,
    reset_stats_cmd, set_pa_config_cmd, set_packet_type_cmd, set_rf_frequency_cmd,
    set_rx_cmd, set_rx_duty_cycle_cmd, set_rx_tx_fallback_mode_cmd, set_tx_cmd,
    set_tx_cw_cmd, set_tx_params_cmd, stop_timeout_on_preamble_cmd,
    spec_get_rssi_inst_req, spec_get_rx_buffer_status_req, spec_reset_stats_cmd,
    spec_set_pa_config_cmd, spec_set_packet_type_cmd, spec_set_rf_frequency_cmd,
    spec_set_rx_cmd, spec_set_rx_duty_cycle_cmd, spec_set_rx_tx_fallback_mode_cmd,
    spec_set_tx_cmd, spec_set_tx_cw_cmd, spec_set_tx_params_cmd,
    spec_stop_timeout_on_preamble_cmd};
use crate::engine::{Lr1120, preserves_frame, write_cmd_history, write_then_read_history};
use crate::port::{BusEvent, SpiPort, all_polls, busy_polls, wait_ok_events};

verus! {

/// Sum of a run of sampled readings.
pub open spec fn spec_rssi_sum(samples: Seq<u8>) -> int
    decreases samples.len(),
{
    if samples.len() == 0 {
        0
    } else {
        spec_rssi_sum(samples.drop_last()) + samples.last()
    }
}

/// The history of a run of instantaneous RSSI reads: one checked
/// write-then-read per sample, in order, each response carrying its sample
/// after a status byte that reported success.
pub open spec fn rssi_samples_history(
    pre: Seq<BusEvent>,
    post: Seq<BusEvent>,
    samples: Seq<u8>,
    budget: u32,
) -> bool
    decreases samples.len(),
{
    if samples.len() == 0 {
        post == pre
    } else {
        exists|mid: Seq<BusEvent>, sb: u8|
            #![trigger crate::status::spec_status_byte_check(sb), mid.is_prefix_of(post)]
            {
                &&& mid.is_prefix_of(post)
                &&& rssi_samples_history(pre, mid, samples.drop_last(), budget)
                &&& write_then_read_history(
                    mid,
                    post,
                    spec_get_rssi_inst_req(),
                    seq![sb, samples.last()],
                    budget,
                )
                &&& crate::status::spec_status_byte_check(sb) is Ok
            }
    }
}

impl<P: SpiPort> Lr1120<P> {

    /// Set the RF channel (in Hz).
    pub fn set_rf(&mut self, freq: u32) -> (r: Result<(), Lr1120Error>)
        requires
            old(self).wf(),
        ensures
            preserves_frame(*old(self), *final(self)),
            r is Ok ==> final(self).wf() && write_cmd_history(
                old(self).port.history(),
                final(self).port.history(),
                spec_set_rf_frequency_cmd(freq),
            ),
    {
        let req = set_rf_frequency_cmd(freq);
        self.write(req.as_slice())
    }

    /// Set the packet type.
    pub fn set_packet_type(&mut self, packet_type: PacketType) -> (r: Result<(), Lr1120Error>)
        requires
            old(self).wf(),
        ensures
            preserves_frame(*old(self), *final(self)),
            r is Ok ==> final(self).wf() && write_cmd_history(
                old(self).port.history(),
                final(self).port.history(),
                spec_set_packet_type_cmd(packet_type),
            ),
    {
        let req = set_packet_type_cmd(packet_type);
        self.write(req.as_slice())
    }

    /// Set TX power and ramp time.
    /// TX power is given in half-dB units: the range is -19..44 for the LF
    /// path and -39..24 for the HF path.  The ramp time matters for
    /// out-of-band emission; a safe rule of thumb is around 4/bandwidth.
    pub fn set_tx_params(&mut self, tx_power: i8, ramp_time: RampTime) -> (r: Result<(), Lr1120Error>)
        requires
            old(self).wf(),
        ensures
            preserves_frame(*old(self), *final(self)),
            r is Ok ==> final(self).wf() && write_cmd_history(
                old(self).port.history(),
                final(self).port.history(),
                spec_set_tx_params_cmd(tx_power, ramp_time),
            ),
    {
        let req = set_tx_params_cmd(tx_power, ramp_time);
        self.write(req.as_slice())
    }

    /// Configure the power amplifier: the high-power PA draws from VBAT,
    /// the others from the internal regulator.
    pub fn set_pa(&mut self, pa_sel: PaSel, duty_cycle: u8) -> (r: Result<(), Lr1120Error>)
        requires
            old(self).wf(),
        ensures
            preserves_frame(*old(self), *final(self)),
            r is Ok ==> final(self).wf() && write_cmd_history(
                old(self).port.history(),
                final(self).port.history(),
                spec_set_pa_config_cmd(pa_sel, (if pa_sel == PaSel::HpPa { RegPaSupply::Vbat } else { RegPaSupply::Vreg }), duty_cycle, 7),
            ),
    {
        let pa_supply = if pa_sel == PaSel::HpPa {
            RegPaSupply::Vbat
        } else {
            RegPaSupply::Vreg
        };
        let req = set_pa_config_cmd(pa_sel, pa_supply, duty_cycle, 7);
        self.write(req.as_slice())
    }

    /// Set the fallback mode after TX or RX.
    pub fn set_fallback(&mut self, fallback_mode: FallbackMode) -> (r: Result<(), Lr1120Error>)
        requires
            old(self).wf(),
        ensures
            preserves_frame(*old(self), *final(self)),
            r is Ok ==> final(self).wf() && write_cmd_history(
                old(self).port.history(),
                final(self).port.history(),
                spec_set_rx_tx_fallback_mode_cmd(fallback_mode),
            ),
    {
        let req = set_rx_tx_fallback_mode_cmd(fallback_mode);
        self.write(req.as_slice())
    }

    /// Set the chip in TX mode.  Set the timeout to 0 or to a value longer
    /// than the packet duration; it is given in LF clock steps (about
    /// 30.5us).
    pub fn set_tx(&mut self, tx_timeout: u32) -> (r: Result<(), Lr1120Error>)
        requires
            old(self).wf(),
        ensures
            preserves_frame(*old(self), *final(self)),
            r is Ok ==> final(self).wf() && write_cmd_history(
                old(self).port.history(),
                final(self).port.history(),
                spec_set_tx_cmd(tx_timeout),
            ),
    {
        let req = set_tx_cmd(tx_timeout);
        self.write(req.as_slice())
    }

    /// Start TX in test continuous wave mode.
    pub fn set_tx_cw(&mut self) -> (r: Result<(), Lr1120Error>)
        requires
            old(self).wf(),
        ensures
            preserves_frame(*old(self), *final(self)),
            r is Ok ==> final(self).wf() && write_cmd_history(
                old(self).port.history(),
                final(self).port.history(),
                spec_set_tx_cw_cmd(),
            ),
    {
        let req = set_tx_cw_cmd();
        self.write(req.as_slice())
    }

    /// Start periodic RX: the radio listens for `listen_time`, goes to sleep
    /// once a packet is received or none was detected, and repeats every
    /// `cycle_time` (which must be larger than the listen time).  With
    /// `use_lora_cad` a CAD is performed instead of a standard reception.
    pub fn set_rx_duty_cycle(&mut self, listen_time: u32, cycle_time: u32, use_lora_cad: bool) -> (r: Result<(), Lr1120Error>)
        requires
            old(self).wf(),
        ensures
            preserves_frame(*old(self), *final(self)),
            r is Ok ==> final(self).wf() && write_cmd_history(
                old(self).port.history(),
                final(self).port.history(),
                spec_set_rx_duty_cycle_cmd(listen_time, cycle_time, use_lora_cad),
            ),
    {
        let req = set_rx_duty_cycle_cmd(listen_time, cycle_time, use_lora_cad);
        self.write(req.as_slice())
    }

    /// Clear the RX statistics.
    pub fn clear_rx_stats(&mut self) -> (r: Result<(), Lr1120Error>)
        requires
            old(self).wf(),
        ensures
            preserves_frame(*old(self), *final(self)),
            r is Ok ==> final(self).wf() && write_cmd_history(
                old(self).port.history(),
                final(self).port.history(),
                spec_reset_stats_cmd(),
            ),
    {
        let req = reset_stats_cmd();
        self.write(req.as_slice())
    }

    /// Set whether the RX timeout stops when a preamble is detected or when
    /// the synchronization is confirmed (the default).
    pub fn set_stop_timeout(&mut self, on_preamble: bool) -> (r: Result<(), Lr1120Error>)
        requires
            old(self).wf(),
        ensures
            preserves_frame(*old(self), *final(self)),
            r is Ok ==> final(self).wf() && write_cmd_history(
                old(self).port.history(),
                final(self).port.history(),
                spec_stop_timeout_on_preamble_cmd(on_preamble),
            ),
    {
        let req = stop_timeout_on_preamble_cmd(on_preamble);
        self.write(req.as_slice())
    }

    /// Set the chip in RX mode.  A timeout of 0 means a single reception;
    /// 0xFFFFFF is continuous RX; any other value makes the chip fall back
    /// if no reception occurs before the timeout (in LF clock steps).
    /// With `wait` the readiness signal is polled, with the configured
    /// budget, after the command is issued.
    pub fn set_rx(&mut self, rx_timeout: u32, wait: bool) -> (r: Result<(), Lr1120Error>)
        requires
            old(self).wf(),
        ensures
            preserves_frame(*old(self), *final(self)),
            r is Ok ==> final(self).wf(),
            r is Ok && !wait ==> write_cmd_history(
                old(self).port.history(),
                final(self).port.history(),
                spec_set_rx_cmd(rx_timeout),
            ),
            r is Ok && wait ==> exists|mid: Seq<BusEvent>|
                {
                    &&& #[trigger] write_cmd_history(
                        old(self).port.history(),
                        mid,
                        spec_set_rx_cmd(rx_timeout),
                    )
                    &&& mid.is_prefix_of(final(self).port.history())
                    &&& all_polls(final(self).port.history().skip(mid.len() as int))
                    &&& wait_ok_events(
                        final(self).port.history().skip(mid.len() as int),
                        old(self).spec_poll_budget(),
                    )
                },
            r == Err::<(), Lr1120Error>(Lr1120Error::Timeout) ==> wait && final(self).wf()
                && exists|mid: Seq<BusEvent>|
                {
                    &&& #[trigger] write_cmd_history(
                        old(self).port.history(),
                        mid,
                        spec_set_rx_cmd(rx_timeout),
                    )
                    &&& final(self).port.history() == mid + busy_polls(
                        old(self).spec_poll_budget() as nat,
                    )
                },
    {
        let req = set_rx_cmd(rx_timeout);
        match self.write(req.as_slice()) {
            Ok(()) => {},
            Err(e) => {
                return Err(e);
            },
        }
        if wait {
            let ghost mid = self.port.history();
            let budget = self.poll_budget;
            match self.wait_ready(budget) {
                Ok(()) => {},
                Err(e) => {
                    proof {
                        assert(write_cmd_history(
                            old(self).port.history(),
                            mid,
                            spec_set_rx_cmd(rx_timeout),
                        ));
                        if e == Lr1120Error::Timeout {
                            let polls = self.port.history().skip(mid.len() as int);
                            assert(polls =~= busy_polls(budget as nat));
                            assert(self.port.history() =~= mid + busy_polls(budget as nat));
                        }
                        assert(old(self).port.history().is_prefix_of(self.port.history())) by {
                            assert(old(self).port.history() =~= self.port.history().subrange(
                                0,
                                old(self).port.history().len() as int,
                            ));
                        }
                    }
                    return Err(e);
                },
            }
            proof {
                assert(write_cmd_history(
                    old(self).port.history(),
                    mid,
                    spec_set_rx_cmd(rx_timeout),
                ));
                assert(old(self).port.history().is_prefix_of(self.port.history())) by {
                    assert(old(self).port.history() =~= self.port.history().subrange(
                        0,
                        old(self).port.history().len() as int,
                    ));
                }
            }
        }
        Ok(())
    }

    /// Set RX in continuous mode.
    pub fn set_rx_continous(&mut self) -> (r: Result<(), Lr1120Error>)
        requires
            old(self).wf(),
        ensures
            preserves_frame(*old(self), *final(self)),
            r is Ok ==> final(self).wf() && exists|mid: Seq<BusEvent>|
                {
                    &&& #[trigger] write_cmd_history(
                        old(self).port.history(),
                        mid,
                        spec_set_rx_cmd(0xFFFFFF),
                    )
                    &&& mid.is_prefix_of(final(self).port.history())
                    &&& all_polls(final(self).port.history().skip(mid.len() as int))
                    &&& wait_ok_events(
                        final(self).port.history().skip(mid.len() as int),
                        old(self).spec_poll_budget(),
                    )
                },
    {
        self.set_rx(0xFFFFFF, true)
    }

    /// Return the length of the last packet received and the offset of its
    /// first byte in the RX buffer.
    pub fn get_rx_buffer_status(&mut self) -> (r: Result<RxBufferStatusRsp, Lr1120Error>)
        requires
            old(self).wf(),
        ensures
            preserves_frame(*old(self), *final(self)),
            r matches Ok(v) ==> final(self).wf() && exists|rsp: Seq<u8>|
                {
                    &&& rsp.len() == 3
                    &&& #[trigger] write_then_read_history(
                        old(self).port.history(),
                        final(self).port.history(),
                        spec_get_rx_buffer_status_req(),
                        rsp,
                        old(self).spec_poll_budget(),
                    )
                    &&& crate::status::spec_status_byte_check(rsp[0]) is Ok
                    &&& v.bytes() == rsp
                },
    {
        let req = get_rx_buffer_status_req();
        let budget = self.poll_budget;
        let rsp = match self.read_checked(req.as_slice(), 3, budget) {
            Ok(v) => v,
            Err(e) => {
                return Err(e);
            },
        };
        Ok(RxBufferStatusRsp::from_bytes(rsp.as_slice()))
    }

    /// Measure the instantaneous RSSI.
    pub fn get_rssi_inst(&mut self) -> (r: Result<u8, Lr1120Error>)
        requires
            old(self).wf(),
        ensures
            preserves_frame(*old(self), *final(self)),
            r matches Ok(v) ==> final(self).wf() && exists|rsp: Seq<u8>|
                {
                    &&& rsp.len() == 2
                    &&& #[trigger] write_then_read_history(
                        old(self).port.history(),
                        final(self).port.history(),
                        spec_get_rssi_inst_req(),
                        rsp,
                        old(self).spec_poll_budget(),
                    )
                    &&& crate::status::spec_status_byte_check(rsp[0]) is Ok
                    &&& v == rsp[1]
                },
    {
        let req = get_rssi_inst_req();
        let budget = self.poll_budget;
        let rsp = match self.read_checked(req.as_slice(), 2, budget) {
            Ok(v) => v,
            Err(e) => {
                return Err(e);
            },
        };
        let parsed = RssiInstRsp::from_bytes(rsp.as_slice());
        Ok(parsed.rssi())
    }

    /// Measure an average RSSI (in -0.5dBm steps): the half-up rounded
    /// mean of `nb_meas` instantaneous RSSI measurements.
    pub fn get_rssi_avg(&mut self, nb_meas: u16) -> (r: Result<u8, Lr1120Error>)
        requires
            old(self).wf(),
            1 <= nb_meas <= 256,
        ensures
            preserves_frame(*old(self), *final(self)),
            r matches Ok(v) ==> final(self).wf() && exists|samples: Seq<u8>|
                {
                    &&& #[trigger] spec_rssi_sum(samples) >= 0
                    &&& samples.len() == nb_meas
                    &&& rssi_samples_history(
                        old(self).port.history(),
                        final(self).port.history(),
                        samples,
                        old(self).spec_poll_budget(),
                    )
                    &&& v == (((spec_rssi_sum(samples) + (nb_meas >> 1)) / (nb_meas as int)) as u8)
                },
    {
        let mut rssi: u16 = 0;
        let mut i: u16 = 0;
        let ghost mut samples: Seq<u8> = Seq::empty();
        proof {
            assert(rssi_samples_history(
                old(self).port.history(),
                self.port.history(),
                samples,
                old(self).spec_poll_budget(),
            ));
        }
        while i < nb_meas
            invariant
                self.wf(),
                i <= nb_meas <= 256,
                samples.len() == i,
                rssi as int == spec_rssi_sum(samples),
                rssi <= 255 * (i as int),
                self.poll_budget == old(self).poll_budget,
                rssi_samples_history(
                    old(self).port.history(),
                    self.port.history(),
                    samples,
                    old(self).spec_poll_budget(),
                ),
                preserves_frame(*old(self), *self),
            decreases nb_meas - i,
        {
            let ghost prev = self.port.history();
            let ghost samples0 = samples;
            let sample = match self.get_rssi_inst() {
                Ok(v) => v,
                Err(e) => {
                    return Err(e);
                },
            };
            proof {
                let rspw: Seq<u8> = choose|rsp: Seq<u8>|
                    {
                        &&& rsp.len() == 2
                        &&& #[trigger] write_then_read_history(
                            prev,
                            self.port.history(),
                            spec_get_rssi_inst_req(),
                            rsp,
                            old(self).spec_poll_budget(),
                        )
                        &&& crate::status::spec_status_byte_check(rsp[0]) is Ok
                        &&& sample == rsp[1]
                    };
                assert(seq![rspw[0], sample] =~= rspw);
                assert(prev.is_prefix_of(self.port.history())) by {
                    assert(prev =~= self.port.history().subrange(0, prev.len() as int));
                }
                samples = samples.push(sample);
                assert(samples.drop_last() =~= samples0);
                assert(samples.last() == sample);
                assert(rssi_samples_history(
                    old(self).port.history(),
                    self.port.history(),
                    samples,
                    old(self).spec_poll_budget(),
                ));
                assert(old(self).port.history().is_prefix_of(self.port.history())) by {
                    assert(old(self).port.history() =~= self.port.history().subrange(
                        0,
                        old(self).port.history().len() as int,
                    ));
                }
            }
            rssi += sample as u16;
            i += 1;
        }
        proof {
            assert(nb_meas >> 1 <= 128) by (bit_vector)
                requires
                    nb_meas <= 256,
            ;
        }
        let avg = (rssi + (nb_meas >> 1)) / nb_meas;
        proof {
            assert(spec_rssi_sum(samples) >= 0);
            assert(avg as int == (spec_rssi_sum(samples) + (nb_meas >> 1)) / (nb_meas as int));
        }
        Ok(#[verifier::truncate] (avg as u8))
    }

}

} // verus!
