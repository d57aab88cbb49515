//! Crypto engine operations: key handling, encryption, decryption and
//! message authentication.

use vstd::prelude::*;

#[allow(unused_imports)]
use crate::Lr1120Error;
use crate::cmd::cmd_crypto::{CeStatus, CryptoComputeAesCmacRsp, CryptoGetParamRsp, KeyId,
    LorawanVersion, crypto_aes_decrypt_req, crypto_aes_encrypt01_req, crypto_aes_encrypt_req,
    crypto_check_encrypted_firmware_image_cmd, crypto_check_encrypted_firmware_image_result_req,
    crypto_compute_aes_cmac_req, crypto_derive_key_req, crypto_get_param_req,
    crypto_process_join_accept_req, crypto_restore_from_flash_req, crypto_set_key_req,
    crypto_set_param_req, crypto_store_to_flash_req, crypto_verify_aes_cmac_req,
    spec_crypto_aes_decrypt_req, spec_crypto_aes_encrypt01_req, spec_crypto_aes_encrypt_req,
    spec_crypto_check_encrypted_firmware_image_cmd,
    spec_crypto_check_encrypted_firmware_image_result_req, spec_crypto_compute_aes_cmac_req,
    spec_crypto_derive_key_req, spec_crypto_get_param_req, spec_crypto_process_join_accept_req,
    spec_crypto_restore_from_flash_req, spec_crypto_set_key_req, spec_crypto_set_param_req,
    spec_crypto_store_to_flash_req, spec_crypto_verify_aes_cmac_req};
use crate::engine::{Lr1120, preserves_frame, read_phase_history, write_cmd_history,
    write_then_read_history};
use crate::port::{BusEvent, SpiPort, busy_polls};

verus! {

/// Result of an encryption or decryption: the crypto engine status and
/// the data after the operation.
pub struct CeDataRes {
    /// Status of the crypto operation (success or failure).
    pub status: CeStatus,
    /// Data after the crypto operation.
    pub data: Vec<u8>,
}

impl<P: SpiPort> Lr1120<P> {

    /// Set an encryption key.
    pub fn ce_set_key(&mut self, id: KeyId, key: u128) -> (r: Result<CeStatus, Lr1120Error>)
        requires
            old(self).wf(),
        ensures
            preserves_frame(*old(self), *final(self)),
            r matches Ok(v) ==> final(self).wf() && exists|rsp: Seq<u8>|
                {
                    &&& rsp.len() == 2
                    &&& #[trigger] write_then_read_history(
                        old(self).port.history(),
                        final(self).port.history(),
                        spec_crypto_set_key_req(id, key),
                        rsp,
                        old(self).spec_poll_budget(),
                    )
                    &&& crate::status::spec_status_byte_check(rsp[0]) is Ok
                    &&& v == CeStatus::spec_from_code(rsp[1])
                },
    {
        let req = crypto_set_key_req(id, key);
        let budget = self.poll_budget;
        let rsp = match self.read_checked(req.as_slice(), 2, budget) {
            Ok(v) => v,
            Err(e) => {
                return Err(e);
            },
        };
        Ok(CeStatus::from_code(rsp[1]))
    }

    /// Derive the input value from the source key into the destination
    /// key.  The source must be the network or application root key or a
    /// general purpose transport key; the destination may be any key other
    /// than the root keys.
    pub fn ce_derive_key(&mut self, src: KeyId, dst: KeyId, input: u128) -> (r: Result<
        CeStatus,
        Lr1120Error,
    >)
        requires
            old(self).wf(),
        ensures
            preserves_frame(*old(self), *final(self)),
            (!src.spec_is_core() && !src.spec_is_gp_transport()) || dst.spec_is_core() ==> r
                == Err::<CeStatus, Lr1120Error>(Lr1120Error::InvalidParam) && *final(self)
                == *old(self),
            r matches Ok(v) ==> final(self).wf() && exists|rsp: Seq<u8>|
                {
                    &&& rsp.len() == 2
                    &&& #[trigger] write_then_read_history(
                        old(self).port.history(),
                        final(self).port.history(),
                        spec_crypto_derive_key_req(src, dst, input),
                        rsp,
                        old(self).spec_poll_budget(),
                    )
                    &&& crate::status::spec_status_byte_check(rsp[0]) is Ok
                    &&& v == CeStatus::spec_from_code(rsp[1])
                },
    {
        if !src.is_core() && !src.is_gp_transport() {
            return Err(Lr1120Error::InvalidParam);
        }
        if dst.is_core() {
            return Err(Lr1120Error::InvalidParam);
        }
        let req = crypto_derive_key_req(src, dst, input);
        let budget = self.poll_budget;
        let rsp = match self.read_checked(req.as_slice(), 2, budget) {
            Ok(v) => v,
            Err(e) => {
                return Err(e);
            },
        };
        Ok(CeStatus::from_code(rsp[1]))
    }

    /// Decrypt a join accept message using two keys (one for decryption,
    /// one for the integrity check).  The input holds the header (1 or 12
    /// bytes) followed by 16 or 32 bytes of encrypted payload; the
    /// decryption status and decrypted payload are returned.
    pub fn ce_process_join_accept(&mut self, dec: KeyId, mic: KeyId, lorawan: LorawanVersion,
        data: &[u8]) -> (r: Result<CeDataRes, Lr1120Error>)
        requires
            old(self).wf(),
        ensures
            preserves_frame(*old(self), *final(self)),
            r matches Ok(v) ==> final(self).wf() && exists|mid: Seq<BusEvent>, rsp: Seq<u8>|
                {
                    &&& #[trigger] write_cmd_history(
                        old(self).port.history(),
                        mid,
                        spec_crypto_process_join_accept_req(dec, mic, lorawan) + data@,
                    )
                    &&& #[trigger] read_phase_history(
                        mid,
                        final(self).port.history(),
                        rsp,
                        old(self).spec_poll_budget(),
                    )
                    &&& rsp.len() >= 1
                    &&& v.status == CeStatus::spec_from_code(rsp[0])
                    &&& v.data@ == rsp.skip(1)
                },
            r == Err::<CeDataRes, Lr1120Error>(Lr1120Error::Timeout)
                ==> final(self).wf() && exists|mid: Seq<BusEvent>|
                {
                    &&& #[trigger] write_cmd_history(
                        old(self).port.history(),
                        mid,
                        spec_crypto_process_join_accept_req(dec, mic, lorawan) + data@,
                    )
                    &&& final(self).port.history() == mid + busy_polls(
                        old(self).spec_poll_budget() as nat,
                    )
                },
    {
        // Check that the input data has a valid length.
        let hdr_len: usize = match lorawan {
            LorawanVersion::V1p0 => 1,
            LorawanVersion::V1p1 => 12,
        };
        let rsp_len: usize = if data.len() >= hdr_len {
            data.len() - hdr_len
        } else {
            0
        };
        if rsp_len != 16 && rsp_len != 32 {
            return Err(Lr1120Error::InvalidParam);
        }
        let req = crypto_process_join_accept_req(dec, mic, lorawan);
        match self.write_with_trailing_payload(req.as_slice(), data) {
            Ok(()) => {},
            Err(e) => {
                return Err(e);
            },
        }
        let ghost mid = self.port.history();
        let budget = self.poll_budget;
        let rsp = match self.read_response(rsp_len + 1, budget) {
            Ok(v) => v,
            Err(e) => {
                proof {
                    assert(write_cmd_history(
                        old(self).port.history(),
                        mid,
                        spec_crypto_process_join_accept_req(dec, mic, lorawan) + data@,
                    ));
                    assert(old(self).port.history().is_prefix_of(self.port.history())) by {
                        assert(old(self).port.history() =~= self.port.history().subrange(
                            0,
                            old(self).port.history().len() as int,
                        ));
                    }
                }
                return Err(e);
            },
        };
        let status = CeStatus::from_code(rsp[0]);
        let mut payload: Vec<u8> = Vec::new();
        let mut i: usize = 1;
        while i < rsp.len()
            invariant
                1 <= i <= rsp@.len(),
                payload@ == rsp@.subrange(1, i as int),
            decreases rsp@.len() - i,
        {
            payload.push(rsp[i]);
            i += 1;
        }
        proof {
            assert(payload@ =~= rsp@.skip(1));
            assert(old(self).port.history().is_prefix_of(self.port.history())) by {
                assert(old(self).port.history() =~= self.port.history().subrange(
                    0,
                    old(self).port.history().len() as int,
                ));
            }
        }
        Ok(CeDataRes { status, data: payload })
    }

    /// Encrypt data for a LoRaWAN operation; the key is limited to the
    /// unicast and multicast session keys.
    pub fn ce_encrypt_lorawan(&mut self, key: KeyId, din: &[u8]) -> (r: Result<CeDataRes, Lr1120Error>)
        requires
            old(self).wf(),
        ensures
            preserves_frame(*old(self), *final(self)),
            (!key.spec_is_unicast() && !key.spec_is_multicast()) ==> r == Err::<CeDataRes, Lr1120Error>(Lr1120Error::InvalidParam) && *final(self)
                == *old(self),
            r matches Ok(v) ==> final(self).wf() && exists|mid: Seq<BusEvent>, rsp: Seq<u8>|
                {
                    &&& #[trigger] write_cmd_history(
                        old(self).port.history(),
                        mid,
                        spec_crypto_aes_encrypt01_req(key) + din@,
                    )
                    &&& #[trigger] read_phase_history(
                        mid,
                        final(self).port.history(),
                        rsp,
                        old(self).spec_poll_budget(),
                    )
                    &&& rsp.len() == din@.len() + 1
                    &&& v.status == CeStatus::spec_from_code(rsp[0])
                    &&& v.data@ == rsp.skip(1)
                },
            r == Err::<CeDataRes, Lr1120Error>(Lr1120Error::Timeout)
                ==> final(self).wf() && exists|mid: Seq<BusEvent>|
                {
                    &&& #[trigger] write_cmd_history(
                        old(self).port.history(),
                        mid,
                        spec_crypto_aes_encrypt01_req(key) + din@,
                    )
                    &&& final(self).port.history() == mid + busy_polls(
                        old(self).spec_poll_budget() as nat,
                    )
                },
    {
        if !key.is_unicast() && !key.is_multicast() {
            return Err(Lr1120Error::InvalidParam);
        }
        let req = crypto_aes_encrypt01_req(key);
        match self.write_with_trailing_payload(req.as_slice(), din) {
            Ok(()) => {},
            Err(e) => {
                return Err(e);
            },
        }
        let ghost mid = self.port.history();
        let budget = self.poll_budget;
        let rsp = match self.read_response(din.len() + 1, budget) {
            Ok(v) => v,
            Err(e) => {
                proof {
                    assert(write_cmd_history(
                        old(self).port.history(),
                        mid,
                        spec_crypto_aes_encrypt01_req(key) + din@,
                    ));
                    assert(old(self).port.history().is_prefix_of(self.port.history())) by {
                        assert(old(self).port.history() =~= self.port.history().subrange(
                            0,
                            old(self).port.history().len() as int,
                        ));
                    }
                }
                return Err(e);
            },
        };
        let status = CeStatus::from_code(rsp[0]);
        let mut payload: Vec<u8> = Vec::new();
        let mut i: usize = 1;
        while i < rsp.len()
            invariant
                1 <= i <= rsp@.len(),
                payload@ == rsp@.subrange(1, i as int),
            decreases rsp@.len() - i,
        {
            payload.push(rsp[i]);
            i += 1;
        }
        proof {
            assert(payload@ =~= rsp@.skip(1));
            assert(old(self).port.history().is_prefix_of(self.port.history())) by {
                assert(old(self).port.history() =~= self.port.history().subrange(
                    0,
                    old(self).port.history().len() as int,
                ));
            }
        }
        Ok(CeDataRes { status, data: payload })
    }

    /// Encrypt data for a non-LoRaWAN operation.
    pub fn ce_encrypt(&mut self, key: KeyId, din: &[u8]) -> (r: Result<CeDataRes, Lr1120Error>)
        requires
            old(self).wf(),
        ensures
            preserves_frame(*old(self), *final(self)),
            r matches Ok(v) ==> final(self).wf() && exists|mid: Seq<BusEvent>, rsp: Seq<u8>|
                {
                    &&& #[trigger] write_cmd_history(
                        old(self).port.history(),
                        mid,
                        spec_crypto_aes_encrypt_req(key) + din@,
                    )
                    &&& #[trigger] read_phase_history(
                        mid,
                        final(self).port.history(),
                        rsp,
                        old(self).spec_poll_budget(),
                    )
                    &&& rsp.len() == din@.len() + 1
                    &&& v.status == CeStatus::spec_from_code(rsp[0])
                    &&& v.data@ == rsp.skip(1)
                },
            r == Err::<CeDataRes, Lr1120Error>(Lr1120Error::Timeout)
                ==> final(self).wf() && exists|mid: Seq<BusEvent>|
                {
                    &&& #[trigger] write_cmd_history(
                        old(self).port.history(),
                        mid,
                        spec_crypto_aes_encrypt_req(key) + din@,
                    )
                    &&& final(self).port.history() == mid + busy_polls(
                        old(self).spec_poll_budget() as nat,
                    )
                },
    {
        let req = crypto_aes_encrypt_req(key);
        match self.write_with_trailing_payload(req.as_slice(), din) {
            Ok(()) => {},
            Err(e) => {
                return Err(e);
            },
        }
        let ghost mid = self.port.history();
        let budget = self.poll_budget;
        let rsp = match self.read_response(din.len() + 1, budget) {
            Ok(v) => v,
            Err(e) => {
                proof {
                    assert(write_cmd_history(
                        old(self).port.history(),
                        mid,
                        spec_crypto_aes_encrypt_req(key) + din@,
                    ));
                    assert(old(self).port.history().is_prefix_of(self.port.history())) by {
                        assert(old(self).port.history() =~= self.port.history().subrange(
                            0,
                            old(self).port.history().len() as int,
                        ));
                    }
                }
                return Err(e);
            },
        };
        let status = CeStatus::from_code(rsp[0]);
        let mut payload: Vec<u8> = Vec::new();
        let mut i: usize = 1;
        while i < rsp.len()
            invariant
                1 <= i <= rsp@.len(),
                payload@ == rsp@.subrange(1, i as int),
            decreases rsp@.len() - i,
        {
            payload.push(rsp[i]);
            i += 1;
        }
        proof {
            assert(payload@ =~= rsp@.skip(1));
            assert(old(self).port.history().is_prefix_of(self.port.history())) by {
                assert(old(self).port.history() =~= self.port.history().subrange(
                    0,
                    old(self).port.history().len() as int,
                ));
            }
        }
        Ok(CeDataRes { status, data: payload })
    }

    /// Decrypt data for a non-LoRaWAN operation.
    pub fn ce_decrypt(&mut self, key: KeyId, din: &[u8]) -> (r: Result<CeDataRes, Lr1120Error>)
        requires
            old(self).wf(),
        ensures
            preserves_frame(*old(self), *final(self)),
            r matches Ok(v) ==> final(self).wf() && exists|mid: Seq<BusEvent>, rsp: Seq<u8>|
                {
                    &&& #[trigger] write_cmd_history(
                        old(self).port.history(),
                        mid,
                        spec_crypto_aes_decrypt_req(key) + din@,
                    )
                    &&& #[trigger] read_phase_history(
                        mid,
                        final(self).port.history(),
                        rsp,
                        old(self).spec_poll_budget(),
                    )
                    &&& rsp.len() == din@.len() + 1
                    &&& v.status == CeStatus::spec_from_code(rsp[0])
                    &&& v.data@ == rsp.skip(1)
                },
            r == Err::<CeDataRes, Lr1120Error>(Lr1120Error::Timeout)
                ==> final(self).wf() && exists|mid: Seq<BusEvent>|
                {
                    &&& #[trigger] write_cmd_history(
                        old(self).port.history(),
                        mid,
                        spec_crypto_aes_decrypt_req(key) + din@,
                    )
                    &&& final(self).port.history() == mid + busy_polls(
                        old(self).spec_poll_budget() as nat,
                    )
                },
    {
        let req = crypto_aes_decrypt_req(key);
        match self.write_with_trailing_payload(req.as_slice(), din) {
            Ok(()) => {},
            Err(e) => {
                return Err(e);
            },
        }
        let ghost mid = self.port.history();
        let budget = self.poll_budget;
        let rsp = match self.read_response(din.len() + 1, budget) {
            Ok(v) => v,
            Err(e) => {
                proof {
                    assert(write_cmd_history(
                        old(self).port.history(),
                        mid,
                        spec_crypto_aes_decrypt_req(key) + din@,
                    ));
                    assert(old(self).port.history().is_prefix_of(self.port.history())) by {
                        assert(old(self).port.history() =~= self.port.history().subrange(
                            0,
                            old(self).port.history().len() as int,
                        ));
                    }
                }
                return Err(e);
            },
        };
        let status = CeStatus::from_code(rsp[0]);
        let mut payload: Vec<u8> = Vec::new();
        let mut i: usize = 1;
        while i < rsp.len()
            invariant
                1 <= i <= rsp@.len(),
                payload@ == rsp@.subrange(1, i as int),
            decreases rsp@.len() - i,
        {
            payload.push(rsp[i]);
            i += 1;
        }
        proof {
            assert(payload@ =~= rsp@.skip(1));
            assert(old(self).port.history().is_prefix_of(self.port.history())) by {
                assert(old(self).port.history() =~= self.port.history().subrange(
                    0,
                    old(self).port.history().len() as int,
                ));
            }
        }
        Ok(CeDataRes { status, data: payload })
    }

    /// Compute the AES CMAC of the provided data.
    pub fn ce_compute_cmac(&mut self, key: KeyId, data: &[u8]) -> (r: Result<
        CryptoComputeAesCmacRsp,
        Lr1120Error,
    >)
        requires
            old(self).wf(),
        ensures
            preserves_frame(*old(self), *final(self)),
            (key != KeyId::Nwk && key != KeyId::JsInt && !key.spec_is_unicast()) ==> r == Err::<
                CryptoComputeAesCmacRsp,
                Lr1120Error,
            >(Lr1120Error::InvalidParam) && *final(self) == *old(self),
            r matches Ok(v) ==> final(self).wf() && exists|mid: Seq<BusEvent>, rsp: Seq<u8>|
                {
                    &&& #[trigger] write_cmd_history(
                        old(self).port.history(),
                        mid,
                        spec_crypto_compute_aes_cmac_req(key) + data@,
                    )
                    &&& #[trigger] read_phase_history(
                        mid,
                        final(self).port.history(),
                        rsp,
                        old(self).spec_poll_budget(),
                    )
                    &&& rsp.len() == 6
                    &&& v.bytes() == rsp
                },
            r == Err::<CryptoComputeAesCmacRsp, Lr1120Error>(Lr1120Error::Timeout)
                ==> final(self).wf() && exists|mid: Seq<BusEvent>|
                {
                    &&& #[trigger] write_cmd_history(
                        old(self).port.history(),
                        mid,
                        spec_crypto_compute_aes_cmac_req(key) + data@,
                    )
                    &&& final(self).port.history() == mid + busy_polls(
                        old(self).spec_poll_budget() as nat,
                    )
                },
    {
        if key != KeyId::Nwk && key != KeyId::JsInt && !key.is_unicast() {
            return Err(Lr1120Error::InvalidParam);
        }
        let req = crypto_compute_aes_cmac_req(key);
        match self.write_with_trailing_payload(req.as_slice(), data) {
            Ok(()) => {},
            Err(e) => {
                return Err(e);
            },
        }
        let ghost mid = self.port.history();
        let budget = self.poll_budget;
        let rsp = match self.read_response(6, budget) {
            Ok(v) => v,
            Err(e) => {
                proof {
                    assert(write_cmd_history(
                        old(self).port.history(),
                        mid,
                        spec_crypto_compute_aes_cmac_req(key) + data@,
                    ));
                    assert(old(self).port.history().is_prefix_of(self.port.history())) by {
                        assert(old(self).port.history() =~= self.port.history().subrange(
                            0,
                            old(self).port.history().len() as int,
                        ));
                    }
                }
                return Err(e);
            },
        };
        proof {
            assert(old(self).port.history().is_prefix_of(self.port.history())) by {
                assert(old(self).port.history() =~= self.port.history().subrange(
                    0,
                    old(self).port.history().len() as int,
                ));
            }
        }
        Ok(CryptoComputeAesCmacRsp::from_bytes(rsp.as_slice()))
    }

    /// Verify the AES CMAC of the provided data.
    pub fn ce_verify_cmac(&mut self, key: KeyId, mic: u32, data: &[u8]) -> (r: Result<
        CeStatus,
        Lr1120Error,
    >)
        requires
            old(self).wf(),
        ensures
            preserves_frame(*old(self), *final(self)),
            (key != KeyId::Nwk && key != KeyId::JsInt && !key.spec_is_unicast()
                && !key.spec_is_multicast()) ==> r == Err::<CeStatus, Lr1120Error>(
                Lr1120Error::InvalidParam,
            ) && *final(self) == *old(self),
            r matches Ok(v) ==> final(self).wf() && exists|mid: Seq<BusEvent>, rsp: Seq<u8>|
                {
                    &&& #[trigger] write_cmd_history(
                        old(self).port.history(),
                        mid,
                        spec_crypto_verify_aes_cmac_req(key, mic) + data@,
                    )
                    &&& #[trigger] read_phase_history(
                        mid,
                        final(self).port.history(),
                        rsp,
                        old(self).spec_poll_budget(),
                    )
                    &&& rsp.len() == 2
                    &&& v == CeStatus::spec_from_code(rsp[1])
                },
            r == Err::<CeStatus, Lr1120Error>(Lr1120Error::Timeout)
                ==> final(self).wf() && exists|mid: Seq<BusEvent>|
                {
                    &&& #[trigger] write_cmd_history(
                        old(self).port.history(),
                        mid,
                        spec_crypto_verify_aes_cmac_req(key, mic) + data@,
                    )
                    &&& final(self).port.history() == mid + busy_polls(
                        old(self).spec_poll_budget() as nat,
                    )
                },
    {
        if key != KeyId::Nwk && key != KeyId::JsInt && !key.is_unicast() && !key.is_multicast() {
            return Err(Lr1120Error::InvalidParam);
        }
        let req = crypto_verify_aes_cmac_req(key, mic);
        match self.write_with_trailing_payload(req.as_slice(), data) {
            Ok(()) => {},
            Err(e) => {
                return Err(e);
            },
        }
        let ghost mid = self.port.history();
        let budget = self.poll_budget;
        let rsp = match self.read_response(2, budget) {
            Ok(v) => v,
            Err(e) => {
                proof {
                    assert(write_cmd_history(
                        old(self).port.history(),
                        mid,
                        spec_crypto_verify_aes_cmac_req(key, mic) + data@,
                    ));
                    assert(old(self).port.history().is_prefix_of(self.port.history())) by {
                        assert(old(self).port.history() =~= self.port.history().subrange(
                            0,
                            old(self).port.history().len() as int,
                        ));
                    }
                }
                return Err(e);
            },
        };
        proof {
            assert(old(self).port.history().is_prefix_of(self.port.history())) by {
                assert(old(self).port.history() =~= self.port.history().subrange(
                    0,
                    old(self).port.history().len() as int,
                ));
            }
        }
        Ok(CeStatus::from_code(rsp[1]))
    }

    /// Store all keys and parameters from the crypto engine into flash
    /// memory.
    pub fn ce_store_to_flash(&mut self) -> (r: Result<CeStatus, Lr1120Error>)
        requires
            old(self).wf(),
        ensures
            preserves_frame(*old(self), *final(self)),
            r matches Ok(v) ==> final(self).wf() && exists|rsp: Seq<u8>|
                {
                    &&& rsp.len() == 2
                    &&& #[trigger] write_then_read_history(
                        old(self).port.history(),
                        final(self).port.history(),
                        spec_crypto_store_to_flash_req(),
                        rsp,
                        old(self).spec_poll_budget(),
                    )
                    &&& crate::status::spec_status_byte_check(rsp[0]) is Ok
                    &&& v == CeStatus::spec_from_code(rsp[1])
                },
    {
        let req = crypto_store_to_flash_req();
        let budget = self.poll_budget;
        let rsp = match self.read_checked(req.as_slice(), 2, budget) {
            Ok(v) => v,
            Err(e) => {
                return Err(e);
            },
        };
        Ok(CeStatus::from_code(rsp[1]))
    }

    /// Read all keys and parameters from flash memory into the crypto
    /// engine.
    pub fn ce_restore_from_flash(&mut self) -> (r: Result<CeStatus, Lr1120Error>)
        requires
            old(self).wf(),
        ensures
            preserves_frame(*old(self), *final(self)),
            r matches Ok(v) ==> final(self).wf() && exists|rsp: Seq<u8>|
                {
                    &&& rsp.len() == 2
                    &&& #[trigger] write_then_read_history(
                        old(self).port.history(),
                        final(self).port.history(),
                        spec_crypto_restore_from_flash_req(),
                        rsp,
                        old(self).spec_poll_budget(),
                    )
                    &&& crate::status::spec_status_byte_check(rsp[0]) is Ok
                    &&& v == CeStatus::spec_from_code(rsp[1])
                },
    {
        let req = crypto_restore_from_flash_req();
        let budget = self.poll_budget;
        let rsp = match self.read_checked(req.as_slice(), 2, budget) {
            Ok(v) => v,
            Err(e) => {
                return Err(e);
            },
        };
        Ok(CeStatus::from_code(rsp[1]))
    }

    /// Set a parameter by ID.
    pub fn ce_set_param(&mut self, id: u8, value: u32) -> (r: Result<CeStatus, Lr1120Error>)
        requires
            old(self).wf(),
        ensures
            preserves_frame(*old(self), *final(self)),
            r matches Ok(v) ==> final(self).wf() && exists|rsp: Seq<u8>|
                {
                    &&& rsp.len() == 2
                    &&& #[trigger] write_then_read_history(
                        old(self).port.history(),
                        final(self).port.history(),
                        spec_crypto_set_param_req(id, value),
                        rsp,
                        old(self).spec_poll_budget(),
                    )
                    &&& crate::status::spec_status_byte_check(rsp[0]) is Ok
                    &&& v == CeStatus::spec_from_code(rsp[1])
                },
    {
        let req = crypto_set_param_req(id, value);
        let budget = self.poll_budget;
        let rsp = match self.read_checked(req.as_slice(), 2, budget) {
            Ok(v) => v,
            Err(e) => {
                return Err(e);
            },
        };
        Ok(CeStatus::from_code(rsp[1]))
    }

    /// Get a parameter by ID.
    pub fn ce_get_param(&mut self, id: u8) -> (r: Result<CryptoGetParamRsp, Lr1120Error>)
        requires
            old(self).wf(),
        ensures
            preserves_frame(*old(self), *final(self)),
            r matches Ok(v) ==> final(self).wf() && exists|rsp: Seq<u8>|
                {
                    &&& rsp.len() == 6
                    &&& #[trigger] write_then_read_history(
                        old(self).port.history(),
                        final(self).port.history(),
                        spec_crypto_get_param_req(id),
                        rsp,
                        old(self).spec_poll_budget(),
                    )
                    &&& crate::status::spec_status_byte_check(rsp[0]) is Ok
                    &&& v.bytes() == rsp
                },
    {
        let req = crypto_get_param_req(id);
        let budget = self.poll_budget;
        let rsp = match self.read_checked(req.as_slice(), 6, budget) {
            Ok(v) => v,
            Err(e) => {
                return Err(e);
            },
        };
        Ok(CryptoGetParamRsp::from_bytes(rsp.as_slice()))
    }

    /// Send one chunk of the firmware image to be checked.
    pub fn ce_check_fw_image(&mut self, offset: u32, data: &[u8]) -> (r: Result<(), Lr1120Error>)
        requires
            old(self).wf(),
        ensures
            preserves_frame(*old(self), *final(self)),
            r is Ok ==> final(self).wf() && write_cmd_history(
                old(self).port.history(),
                final(self).port.history(),
                spec_crypto_check_encrypted_firmware_image_cmd(offset) + data@,
            ),
    {
        let req = crypto_check_encrypted_firmware_image_cmd(offset);
        self.write_with_trailing_payload(req.as_slice(), data)
    }

    /// Return true if all previous firmware image chunks checked out.
    pub fn ce_fw_image_ok(&mut self) -> (r: Result<bool, Lr1120Error>)
        requires
            old(self).wf(),
        ensures
            preserves_frame(*old(self), *final(self)),
            r matches Ok(v) ==> final(self).wf() && exists|rsp: Seq<u8>|
                {
                    &&& rsp.len() == 2
                    &&& #[trigger] write_then_read_history(
                        old(self).port.history(),
                        final(self).port.history(),
                        spec_crypto_check_encrypted_firmware_image_result_req(),
                        rsp,
                        old(self).spec_poll_budget(),
                    )
                    &&& crate::status::spec_status_byte_check(rsp[0]) is Ok
                    &&& v == ((rsp[1] & 0x1) != 0)
                },
    {
        let req = crypto_check_encrypted_firmware_image_result_req();
        let budget = self.poll_budget;
        let rsp = match self.read_checked(req.as_slice(), 2, budget) {
            Ok(v) => v,
            Err(e) => {
                return Err(e);
            },
        };
        Ok((rsp[1] & 0x1) != 0)
    }
}

} // verus!
