//! Crypto engine commands: key storage and derivation, AES, CMAC and
//! firmware image checking.

use vstd::prelude::*;

#[allow(unused_imports)]
use crate::bytes::{be16, be32, be64, spec_be16, spec_be32, spec_be64, spec_u16_hi, spec_u16_lo,
    spec_u32_b0, spec_u32_b1, spec_u32_b2, spec_u32_b3, spec_u64_b0, spec_u64_b1, spec_u64_b2,
    spec_u64_b3, spec_u64_b4, spec_u64_b5, spec_u64_b6, spec_u64_b7, to_array, u16_hi, u16_lo,
    u32_b0, u32_b1, u32_b2, u32_b3, u64_b0, u64_b1, u64_b2, u64_b3, u64_b4, u64_b5, u64_b6,
    u64_b7};
#[allow(unused_imports)]
use crate::port::zero_bytes;
#[allow(unused_imports)]
use crate::status::Status;

verus! {

/// Key identifier in the crypto engine.
#[derive(Debug, Clone, Copy, PartialEq, Eq, Structural)]
pub enum KeyId {
    Nwk,
    App,
    JsEnc,
    JsInt,
    GpKe0,
    GpKe1,
    GpKe2,
    GpKe3,
    GpKe4,
    GpKe5,
    AppS,
    FNwkSInt,
    SNwkSInt,
    NwkSEnc,
    Rfu0,
    Rfu1,
    McAppS0,
    McAppS1,
    McAppS2,
    McAppS3,
    McNwkS0,
    McNwkS1,
    McNwkS2,
    McNwkS3,
    Gp0,
    Gp1,
}

impl KeyId {
    /// Numeric code of this value on the wire.
    pub open spec fn spec_code(&self) -> u8 {
        match self {
            KeyId::Nwk => 2,
            KeyId::App => 3,
            KeyId::JsEnc => 4,
            KeyId::JsInt => 5,
            KeyId::GpKe0 => 6,
            KeyId::GpKe1 => 7,
            KeyId::GpKe2 => 8,
            KeyId::GpKe3 => 9,
            KeyId::GpKe4 => 10,
            KeyId::GpKe5 => 11,
            KeyId::AppS => 12,
            KeyId::FNwkSInt => 13,
            KeyId::SNwkSInt => 14,
            KeyId::NwkSEnc => 15,
            KeyId::Rfu0 => 16,
            KeyId::Rfu1 => 17,
            KeyId::McAppS0 => 18,
            KeyId::McAppS1 => 19,
            KeyId::McAppS2 => 20,
            KeyId::McAppS3 => 21,
            KeyId::McNwkS0 => 22,
            KeyId::McNwkS1 => 23,
            KeyId::McNwkS2 => 24,
            KeyId::McNwkS3 => 25,
            KeyId::Gp0 => 26,
            KeyId::Gp1 => 27,
        }
    }

    /// Encode this value for a request byte.
    #[verifier::when_used_as_spec(spec_code)]
    pub fn code(&self) -> (r: u8)
        ensures
            r == self.spec_code(),
    {
        match self {
            KeyId::Nwk => 2,
            KeyId::App => 3,
            KeyId::JsEnc => 4,
            KeyId::JsInt => 5,
            KeyId::GpKe0 => 6,
            KeyId::GpKe1 => 7,
            KeyId::GpKe2 => 8,
            KeyId::GpKe3 => 9,
            KeyId::GpKe4 => 10,
            KeyId::GpKe5 => 11,
            KeyId::AppS => 12,
            KeyId::FNwkSInt => 13,
            KeyId::SNwkSInt => 14,
            KeyId::NwkSEnc => 15,
            KeyId::Rfu0 => 16,
            KeyId::Rfu1 => 17,
            KeyId::McAppS0 => 18,
            KeyId::McAppS1 => 19,
            KeyId::McAppS2 => 20,
            KeyId::McAppS3 => 21,
            KeyId::McNwkS0 => 22,
            KeyId::McNwkS1 => 23,
            KeyId::McNwkS2 => 24,
            KeyId::McNwkS3 => 25,
            KeyId::Gp0 => 26,
            KeyId::Gp1 => 27,
        }
    }
}

impl KeyId {
    /// True when the key is the network or application root key.
    pub open spec fn spec_is_core(&self) -> bool {
        self is Nwk || self is App
    }

    /// True when the key is the network or application root key.
    #[verifier::when_used_as_spec(spec_is_core)]
    pub fn is_core(&self) -> (r: bool)
        ensures
            r == self.spec_is_core(),
    {
        matches!(self, KeyId::Nwk | KeyId::App)
    }

    /// True when the key is a lifetime (join server) key.
    pub open spec fn spec_is_lifetime(&self) -> bool {
        self is JsEnc || self is JsInt
    }

    /// True when the key is a lifetime (join server) key.
    #[verifier::when_used_as_spec(spec_is_lifetime)]
    pub fn is_lifetime(&self) -> (r: bool)
        ensures
            r == self.spec_is_lifetime(),
    {
        matches!(self, KeyId::JsEnc | KeyId::JsInt)
    }

    /// True when the key is a multicast session key.
    pub open spec fn spec_is_multicast(&self) -> bool {
        self is McAppS0 || self is McAppS1 || self is McAppS2 || self is McAppS3
            || self is McNwkS0 || self is McNwkS1 || self is McNwkS2 || self is McNwkS3
    }

    /// True when the key is a multicast session key.
    #[verifier::when_used_as_spec(spec_is_multicast)]
    pub fn is_multicast(&self) -> (r: bool)
        ensures
            r == self.spec_is_multicast(),
    {
        matches!(
            self,
            KeyId::McAppS0 | KeyId::McAppS1 | KeyId::McAppS2 | KeyId::McAppS3 | KeyId::McNwkS0
                | KeyId::McNwkS1 | KeyId::McNwkS2 | KeyId::McNwkS3
        )
    }

    /// True when the key is a general purpose transport key.
    pub open spec fn spec_is_gp_transport(&self) -> bool {
        self is GpKe0 || self is GpKe1 || self is GpKe2 || self is GpKe3 || self is GpKe4
            || self is GpKe5
    }

    /// True when the key is a general purpose transport key.
    #[verifier::when_used_as_spec(spec_is_gp_transport)]
    pub fn is_gp_transport(&self) -> (r: bool)
        ensures
            r == self.spec_is_gp_transport(),
    {
        matches!(
            self,
            KeyId::GpKe0 | KeyId::GpKe1 | KeyId::GpKe2 | KeyId::GpKe3 | KeyId::GpKe4 | KeyId::GpKe5
        )
    }

    /// True when the key is a unicast session key.
    pub open spec fn spec_is_unicast(&self) -> bool {
        self is AppS || self is FNwkSInt || self is SNwkSInt || self is NwkSEnc || self is Rfu0
            || self is Rfu1
    }

    /// True when the key is a unicast session key.
    #[verifier::when_used_as_spec(spec_is_unicast)]
    pub fn is_unicast(&self) -> (r: bool)
        ensures
            r == self.spec_is_unicast(),
    {
        matches!(
            self,
            KeyId::AppS | KeyId::FNwkSInt | KeyId::SNwkSInt | KeyId::NwkSEnc | KeyId::Rfu0
                | KeyId::Rfu1
        )
    }

    /// True when the key is a general purpose key.
    pub open spec fn spec_is_gp(&self) -> bool {
        self is Gp0 || self is Gp1
    }

    /// True when the key is a general purpose key.
    #[verifier::when_used_as_spec(spec_is_gp)]
    pub fn is_gp(&self) -> (r: bool)
        ensures
            r == self.spec_is_gp(),
    {
        matches!(self, KeyId::Gp0 | KeyId::Gp1)
    }
}

/// Crypto engine status.
#[derive(Debug, Clone, Copy, PartialEq, Eq, Structural)]
pub enum CeStatus {
    FailCmac,
    InvKeyId,
    BufSize,
    Error,
    Success,
}

impl CeStatus {
    /// Numeric code of this value on the wire.
    pub open spec fn spec_code(&self) -> u8 {
        match self {
            CeStatus::FailCmac => 1,
            CeStatus::InvKeyId => 3,
            CeStatus::BufSize => 5,
            CeStatus::Error => 6,
            CeStatus::Success => 0,
        }
    }

    /// Encode this value for a request byte.
    #[verifier::when_used_as_spec(spec_code)]
    pub fn code(&self) -> (r: u8)
        ensures
            r == self.spec_code(),
    {
        match self {
            CeStatus::FailCmac => 1,
            CeStatus::InvKeyId => 3,
            CeStatus::BufSize => 5,
            CeStatus::Error => 6,
            CeStatus::Success => 0,
        }
    }

    /// Decode a response byte; unknown codes map to the fallback value.
    pub open spec fn spec_from_code(v: u8) -> CeStatus {
        if v == 1 {
            CeStatus::FailCmac
        } else if v == 3 {
            CeStatus::InvKeyId
        } else if v == 5 {
            CeStatus::BufSize
        } else if v == 6 {
            CeStatus::Error
        } else {
            CeStatus::Success
        }
    }

    /// Decode a response byte.
    pub fn from_code(v: u8) -> (r: CeStatus)
        ensures
            r == CeStatus::spec_from_code(v),
    {
        match v {
            1 => CeStatus::FailCmac,
            3 => CeStatus::InvKeyId,
            5 => CeStatus::BufSize,
            6 => CeStatus::Error,
            _ => CeStatus::Success,
        }
    }
}

/// Determines the header size: LoRaWAN 1.0 has a 1-byte MHDR; LoRaWAN
/// 1.1 has 12 bytes with SIntKey, JoinReqType, JoinEUI, DevNonce and MHDR.
#[derive(Debug, Clone, Copy, PartialEq, Eq, Structural)]
pub enum LorawanVersion {
    V1p0,
    V1p1,
}

impl LorawanVersion {
    /// Numeric code of this value on the wire.
    pub open spec fn spec_code(&self) -> u8 {
        match self {
            LorawanVersion::V1p0 => 0,
            LorawanVersion::V1p1 => 1,
        }
    }

    /// Encode this value for a request byte.
    #[verifier::when_used_as_spec(spec_code)]
    pub fn code(&self) -> (r: u8)
        ensures
            r == self.spec_code(),
    {
        match self {
            LorawanVersion::V1p0 => 0,
            LorawanVersion::V1p1 => 1,
        }
    }
}

/// Bytes of the CryptoSetKey request.
pub open spec fn spec_crypto_set_key_req(key_id: KeyId, key: u128) -> Seq<u8> {
    seq![
        0x05u8,
        0x02u8,
        key_id.spec_code(),
        (((key >> 120) & 0xFF) as u8),
        (((key >> 112) & 0xFF) as u8),
        (((key >> 104) & 0xFF) as u8),
        (((key >> 96) & 0xFF) as u8),
        (((key >> 88) & 0xFF) as u8),
        (((key >> 80) & 0xFF) as u8),
        (((key >> 72) & 0xFF) as u8),
        (((key >> 64) & 0xFF) as u8),
        (((key >> 56) & 0xFF) as u8),
        (((key >> 48) & 0xFF) as u8),
        (((key >> 40) & 0xFF) as u8),
        (((key >> 32) & 0xFF) as u8),
        (((key >> 24) & 0xFF) as u8),
        (((key >> 16) & 0xFF) as u8),
        (((key >> 8) & 0xFF) as u8),
        ((key & 0xFF) as u8),
    ]
}

/// Sets a specific key, identified by its key ID, into the crypto engine.
/// The key is a 16-byte AES-128 key.
pub fn crypto_set_key_req(key_id: KeyId, key: u128) -> (r: [u8; 19])
    ensures
        r@ == spec_crypto_set_key_req(key_id, key),
{
    [
        0x05,
        0x02,
        key_id.code(),
        ((key >> 120) & 0xFF) as u8,
        ((key >> 112) & 0xFF) as u8,
        ((key >> 104) & 0xFF) as u8,
        ((key >> 96) & 0xFF) as u8,
        ((key >> 88) & 0xFF) as u8,
        ((key >> 80) & 0xFF) as u8,
        ((key >> 72) & 0xFF) as u8,
        ((key >> 64) & 0xFF) as u8,
        ((key >> 56) & 0xFF) as u8,
        ((key >> 48) & 0xFF) as u8,
        ((key >> 40) & 0xFF) as u8,
        ((key >> 32) & 0xFF) as u8,
        ((key >> 24) & 0xFF) as u8,
        ((key >> 16) & 0xFF) as u8,
        ((key >> 8) & 0xFF) as u8,
        (key & 0xFF) as u8,
    ]
}

/// Bytes of the CryptoDeriveKey request.
pub open spec fn spec_crypto_derive_key_req(src_key_id: KeyId, dst_key_id: KeyId, input: u128) -> Seq<u8> {
    seq![
        0x05u8,
        0x03u8,
        src_key_id.spec_code(),
        dst_key_id.spec_code(),
        (((input >> 120) & 0xFF) as u8),
        (((input >> 112) & 0xFF) as u8),
        (((input >> 104) & 0xFF) as u8),
        (((input >> 96) & 0xFF) as u8),
        (((input >> 88) & 0xFF) as u8),
        (((input >> 80) & 0xFF) as u8),
        (((input >> 72) & 0xFF) as u8),
        (((input >> 64) & 0xFF) as u8),
        (((input >> 56) & 0xFF) as u8),
        (((input >> 48) & 0xFF) as u8),
        (((input >> 40) & 0xFF) as u8),
        (((input >> 32) & 0xFF) as u8),
        (((input >> 24) & 0xFF) as u8),
        (((input >> 16) & 0xFF) as u8),
        (((input >> 8) & 0xFF) as u8),
        ((input & 0xFF) as u8),
    ]
}

/// Derives (encrypts) the input value into the destination key using the
/// source key.  The generated key is stored in crypto engine RAM; use the
/// store-to-flash command to persist it.
pub fn crypto_derive_key_req(src_key_id: KeyId, dst_key_id: KeyId, input: u128) -> (r: [u8; 20])
    ensures
        r@ == spec_crypto_derive_key_req(src_key_id, dst_key_id, input),
{
    [
        0x05,
        0x03,
        src_key_id.code(),
        dst_key_id.code(),
        ((input >> 120) & 0xFF) as u8,
        ((input >> 112) & 0xFF) as u8,
        ((input >> 104) & 0xFF) as u8,
        ((input >> 96) & 0xFF) as u8,
        ((input >> 88) & 0xFF) as u8,
        ((input >> 80) & 0xFF) as u8,
        ((input >> 72) & 0xFF) as u8,
        ((input >> 64) & 0xFF) as u8,
        ((input >> 56) & 0xFF) as u8,
        ((input >> 48) & 0xFF) as u8,
        ((input >> 40) & 0xFF) as u8,
        ((input >> 32) & 0xFF) as u8,
        ((input >> 24) & 0xFF) as u8,
        ((input >> 16) & 0xFF) as u8,
        ((input >> 8) & 0xFF) as u8,
        (input & 0xFF) as u8,
    ]
}

/// Bytes of the CryptoProcessJoinAccept request.
pub open spec fn spec_crypto_process_join_accept_req(dec_key_id: KeyId, ver_key_id: KeyId, lorawan_version: LorawanVersion) -> Seq<u8> {
    seq![
        0x05u8,
        0x04u8,
        dec_key_id.spec_code(),
        ver_key_id.spec_code(),
        lorawan_version.spec_code(),
    ]
}

/// Decrypts a join accept message on data and header, then verifies the
/// MIC.  Returns the decrypted data if the MIC verification succeeds.
pub fn crypto_process_join_accept_req(dec_key_id: KeyId, ver_key_id: KeyId, lorawan_version: LorawanVersion) -> (r: [u8; 5])
    ensures
        r@ == spec_crypto_process_join_accept_req(dec_key_id, ver_key_id, lorawan_version),
{
    [
        0x05,
        0x04,
        dec_key_id.code(),
        ver_key_id.code(),
        lorawan_version.code(),
    ]
}

/// Bytes of the CryptoComputeAesCmac request.
pub open spec fn spec_crypto_compute_aes_cmac_req(key_id: KeyId) -> Seq<u8> {
    seq![
        0x05u8,
        0x05u8,
        key_id.spec_code(),
    ]
}

/// Computes the AES CMAC of the provided data using the specified key and
/// returns the MIC (first 4 bytes of the CMAC).  Maximum data size 256
/// bytes.
pub fn crypto_compute_aes_cmac_req(key_id: KeyId) -> (r: [u8; 3])
    ensures
        r@ == spec_crypto_compute_aes_cmac_req(key_id),
{
    [
        0x05,
        0x05,
        key_id.code(),
    ]
}

/// Bytes of the CryptoVerifyAesCmac request.
pub open spec fn spec_crypto_verify_aes_cmac_req(key_id: KeyId, expected_mic: u32) -> Seq<u8> {
    seq![
        0x05u8,
        0x06u8,
        key_id.spec_code(),
        spec_u32_b3(expected_mic),
        spec_u32_b2(expected_mic),
        spec_u32_b1(expected_mic),
        spec_u32_b0(expected_mic),
    ]
}

/// Computes the AES CMAC of the provided data using the specified key and
/// compares it with the provided MIC.  Maximum data size 256 bytes.
pub fn crypto_verify_aes_cmac_req(key_id: KeyId, expected_mic: u32) -> (r: [u8; 7])
    ensures
        r@ == spec_crypto_verify_aes_cmac_req(key_id, expected_mic),
{
    [
        0x05,
        0x06,
        key_id.code(),
        u32_b3(expected_mic),
        u32_b2(expected_mic),
        u32_b1(expected_mic),
        u32_b0(expected_mic),
    ]
}

/// Bytes of the CryptoAesEncrypt01 request.
pub open spec fn spec_crypto_aes_encrypt01_req(key_id: KeyId) -> Seq<u8> {
    seq![
        0x05u8,
        0x07u8,
        key_id.spec_code(),
    ]
}

/// Encrypts the provided data using the specified key.  Can not be used on
/// the session key indexes, which prevents re-calculating session keys.
/// For LoRaWAN encryption operations.
pub fn crypto_aes_encrypt01_req(key_id: KeyId) -> (r: [u8; 3])
    ensures
        r@ == spec_crypto_aes_encrypt01_req(key_id),
{
    [
        0x05,
        0x07,
        key_id.code(),
    ]
}

/// Bytes of the CryptoAesEncrypt request.
pub open spec fn spec_crypto_aes_encrypt_req(key_id: KeyId) -> Seq<u8> {
    seq![
        0x05u8,
        0x08u8,
        key_id.spec_code(),
    ]
}

/// Encrypts the provided data using the specified key, for generic
/// non-LoRaWAN operations with the crypto engine as a hardware
/// accelerator.  Only for the general purpose keys.
pub fn crypto_aes_encrypt_req(key_id: KeyId) -> (r: [u8; 3])
    ensures
        r@ == spec_crypto_aes_encrypt_req(key_id),
{
    [
        0x05,
        0x08,
        key_id.code(),
    ]
}

/// Bytes of the CryptoAesDecrypt request.
pub open spec fn spec_crypto_aes_decrypt_req(key_id: KeyId) -> Seq<u8> {
    seq![
        0x05u8,
        0x09u8,
        key_id.spec_code(),
    ]
}

/// Decrypts the provided data using the specified key, for non-LoRaWAN
/// security tasks with the crypto engine as a standalone accelerator.
pub fn crypto_aes_decrypt_req(key_id: KeyId) -> (r: [u8; 3])
    ensures
        r@ == spec_crypto_aes_decrypt_req(key_id),
{
    [
        0x05,
        0x09,
        key_id.code(),
    ]
}

/// Bytes of the CryptoStoreToFlash request.
pub open spec fn spec_crypto_store_to_flash_req() -> Seq<u8> {
    seq![
        0x05u8,
        0x0Au8,
    ]
}

/// Stores all keys and parameters from crypto engine RAM into flash memory
/// for persistence.
pub fn crypto_store_to_flash_req() -> (r: [u8; 2])
    ensures
        r@ == spec_crypto_store_to_flash_req(),
{
    [
        0x05,
        0x0A,
    ]
}

/// Bytes of the CryptoRestoreFromFlash request.
pub open spec fn spec_crypto_restore_from_flash_req() -> Seq<u8> {
    seq![
        0x05u8,
        0x0Bu8,
    ]
}

/// Restores all keys and parameters from flash memory into crypto engine
/// RAM.
pub fn crypto_restore_from_flash_req() -> (r: [u8; 2])
    ensures
        r@ == spec_crypto_restore_from_flash_req(),
{
    [
        0x05,
        0x0B,
    ]
}

/// Bytes of the CryptoSetParam request.
pub open spec fn spec_crypto_set_param_req(param_id: u8, data: u32) -> Seq<u8> {
    seq![
        0x05u8,
        0x0Du8,
        param_id,
        spec_u32_b3(data),
        spec_u32_b2(data),
        spec_u32_b1(data),
        spec_u32_b0(data),
    ]
}

/// Sets a specific parameter in crypto engine RAM.
pub fn crypto_set_param_req(param_id: u8, data: u32) -> (r: [u8; 7])
    ensures
        r@ == spec_crypto_set_param_req(param_id, data),
{
    [
        0x05,
        0x0D,
        param_id,
        u32_b3(data),
        u32_b2(data),
        u32_b1(data),
        u32_b0(data),
    ]
}

/// Bytes of the CryptoGetParam request.
pub open spec fn spec_crypto_get_param_req(param_id: u8) -> Seq<u8> {
    seq![
        0x05u8,
        0x0Eu8,
        param_id,
    ]
}

/// Gets a specific parameter from crypto engine RAM.
pub fn crypto_get_param_req(param_id: u8) -> (r: [u8; 3])
    ensures
        r@ == spec_crypto_get_param_req(param_id),
{
    [
        0x05,
        0x0E,
        param_id,
    ]
}

/// Bytes of the CryptoCheckEncryptedFirmwareImage request.
pub open spec fn spec_crypto_check_encrypted_firmware_image_cmd(offset: u32) -> Seq<u8> {
    seq![
        0x05u8,
        0x0Fu8,
        spec_u32_b3(offset),
        spec_u32_b2(offset),
        spec_u32_b1(offset),
        spec_u32_b0(offset),
    ]
}

/// Adds a chunk of the encrypted firmware image to be checked; the chunk
/// bytes follow as a trailing payload.  Call repeatedly until the complete
/// image is sent, at most 256 bytes per call.  BUSY is released when the
/// engine is ready for the next chunk.
pub fn crypto_check_encrypted_firmware_image_cmd(offset: u32) -> (r: [u8; 6])
    ensures
        r@ == spec_crypto_check_encrypted_firmware_image_cmd(offset),
{
    [
        0x05,
        0x0F,
        u32_b3(offset),
        u32_b2(offset),
        u32_b1(offset),
        u32_b0(offset),
    ]
}

/// Bytes of the CryptoCheckEncryptedFirmwareImageResult request.
pub open spec fn spec_crypto_check_encrypted_firmware_image_result_req() -> Seq<u8> {
    seq![
        0x05u8,
        0x10u8,
    ]
}

/// Gets the result of the encrypted firmware image check after all chunks
/// were sent.
pub fn crypto_check_encrypted_firmware_image_result_req() -> (r: [u8; 2])
    ensures
        r@ == spec_crypto_check_encrypted_firmware_image_result_req(),
{
    [
        0x05,
        0x10,
    ]
}

// Response structs

/// Response for the CryptoSetKey command.
pub struct CryptoSetKeyRsp([u8; 2]);

impl CryptoSetKeyRsp {
    /// The raw response bytes.
    pub closed spec fn bytes(&self) -> Seq<u8> {
        self.0@
    }

    /// Create a zero-filled response buffer.
    pub fn new() -> (r: Self)
        ensures
            r.bytes() == zero_bytes(2),
    {
        let r = CryptoSetKeyRsp([0u8; 2]);
        proof {
            assert(r.bytes() =~= zero_bytes(2));
        }
        r
    }

    /// Wrap the raw bytes returned by a read transaction.
    pub fn from_bytes(bytes: &[u8]) -> (r: Self)
        requires
            bytes@.len() == 2,
        ensures
            r.bytes() == bytes@,
    {
        CryptoSetKeyRsp(to_array(bytes))
    }

    /// Return the status header (short form, from byte 0).
    pub fn status(&self) -> (r: Status)
        ensures
            r@ == ((self.bytes()[0] as u16) << 8),
    {
        Status::from_byte(self.0[0])
    }

    /// Crypto engine status.
    pub fn ce_status(&self) -> (r: CeStatus)
        ensures
            r == CeStatus::spec_from_code(self.bytes()[1]),
    {
        CeStatus::from_code(self.0[1])
    }
}

/// Response for the CryptoDeriveKey command.
pub struct CryptoDeriveKeyRsp([u8; 2]);

impl CryptoDeriveKeyRsp {
    /// The raw response bytes.
    pub closed spec fn bytes(&self) -> Seq<u8> {
        self.0@
    }

    /// Create a zero-filled response buffer.
    pub fn new() -> (r: Self)
        ensures
            r.bytes() == zero_bytes(2),
    {
        let r = CryptoDeriveKeyRsp([0u8; 2]);
        proof {
            assert(r.bytes() =~= zero_bytes(2));
        }
        r
    }

    /// Wrap the raw bytes returned by a read transaction.
    pub fn from_bytes(bytes: &[u8]) -> (r: Self)
        requires
            bytes@.len() == 2,
        ensures
            r.bytes() == bytes@,
    {
        CryptoDeriveKeyRsp(to_array(bytes))
    }

    /// Return the status header (short form, from byte 0).
    pub fn status(&self) -> (r: Status)
        ensures
            r@ == ((self.bytes()[0] as u16) << 8),
    {
        Status::from_byte(self.0[0])
    }

    /// Crypto engine status.
    pub fn ce_status(&self) -> (r: CeStatus)
        ensures
            r == CeStatus::spec_from_code(self.bytes()[1]),
    {
        CeStatus::from_code(self.0[1])
    }
}

/// Response for the CryptoProcessJoinAccept command.
pub struct CryptoProcessJoinAcceptRsp([u8; 2]);

impl CryptoProcessJoinAcceptRsp {
    /// The raw response bytes.
    pub closed spec fn bytes(&self) -> Seq<u8> {
        self.0@
    }

    /// Create a zero-filled response buffer.
    pub fn new() -> (r: Self)
        ensures
            r.bytes() == zero_bytes(2),
    {
        let r = CryptoProcessJoinAcceptRsp([0u8; 2]);
        proof {
            assert(r.bytes() =~= zero_bytes(2));
        }
        r
    }

    /// Wrap the raw bytes returned by a read transaction.
    pub fn from_bytes(bytes: &[u8]) -> (r: Self)
        requires
            bytes@.len() == 2,
        ensures
            r.bytes() == bytes@,
    {
        CryptoProcessJoinAcceptRsp(to_array(bytes))
    }

    /// Return the status header (short form, from byte 0).
    pub fn status(&self) -> (r: Status)
        ensures
            r@ == ((self.bytes()[0] as u16) << 8),
    {
        Status::from_byte(self.0[0])
    }

    /// Crypto engine status.
    pub fn ce_status(&self) -> (r: CeStatus)
        ensures
            r == CeStatus::spec_from_code(self.bytes()[1]),
    {
        CeStatus::from_code(self.0[1])
    }
}

/// Response for the CryptoComputeAesCmac command.
pub struct CryptoComputeAesCmacRsp([u8; 6]);

impl CryptoComputeAesCmacRsp {
    /// The raw response bytes.
    pub closed spec fn bytes(&self) -> Seq<u8> {
        self.0@
    }

    /// Create a zero-filled response buffer.
    pub fn new() -> (r: Self)
        ensures
            r.bytes() == zero_bytes(6),
    {
        let r = CryptoComputeAesCmacRsp([0u8; 6]);
        proof {
            assert(r.bytes() =~= zero_bytes(6));
        }
        r
    }

    /// Wrap the raw bytes returned by a read transaction.
    pub fn from_bytes(bytes: &[u8]) -> (r: Self)
        requires
            bytes@.len() == 6,
        ensures
            r.bytes() == bytes@,
    {
        CryptoComputeAesCmacRsp(to_array(bytes))
    }

    /// Return the status header (short form, from byte 0).
    pub fn status(&self) -> (r: Status)
        ensures
            r@ == ((self.bytes()[0] as u16) << 8),
    {
        Status::from_byte(self.0[0])
    }

    /// Crypto engine status.
    pub fn ce_status(&self) -> (r: CeStatus)
        ensures
            r == CeStatus::spec_from_code(self.bytes()[1]),
    {
        CeStatus::from_code(self.0[1])
    }

    /// Message integrity check (first 4 bytes of the CMAC).
    pub fn mic(&self) -> (r: u32)
        ensures
            r == spec_be32(self.bytes()[2], self.bytes()[3], self.bytes()[4], self.bytes()[5]),
    {
        be32(self.0[2], self.0[3], self.0[4], self.0[5])
    }
}

/// Response for the CryptoVerifyAesCmac command.
pub struct CryptoVerifyAesCmacRsp([u8; 2]);

impl CryptoVerifyAesCmacRsp {
    /// The raw response bytes.
    pub closed spec fn bytes(&self) -> Seq<u8> {
        self.0@
    }

    /// Create a zero-filled response buffer.
    pub fn new() -> (r: Self)
        ensures
            r.bytes() == zero_bytes(2),
    {
        let r = CryptoVerifyAesCmacRsp([0u8; 2]);
        proof {
            assert(r.bytes() =~= zero_bytes(2));
        }
        r
    }

    /// Wrap the raw bytes returned by a read transaction.
    pub fn from_bytes(bytes: &[u8]) -> (r: Self)
        requires
            bytes@.len() == 2,
        ensures
            r.bytes() == bytes@,
    {
        CryptoVerifyAesCmacRsp(to_array(bytes))
    }

    /// Return the status header (short form, from byte 0).
    pub fn status(&self) -> (r: Status)
        ensures
            r@ == ((self.bytes()[0] as u16) << 8),
    {
        Status::from_byte(self.0[0])
    }

    /// Crypto engine status.
    pub fn ce_status(&self) -> (r: CeStatus)
        ensures
            r == CeStatus::spec_from_code(self.bytes()[1]),
    {
        CeStatus::from_code(self.0[1])
    }
}

/// Response for the CryptoAesEncrypt01 command.
pub struct CryptoAesEncrypt01Rsp([u8; 2]);

impl CryptoAesEncrypt01Rsp {
    /// The raw response bytes.
    pub closed spec fn bytes(&self) -> Seq<u8> {
        self.0@
    }

    /// Create a zero-filled response buffer.
    pub fn new() -> (r: Self)
        ensures
            r.bytes() == zero_bytes(2),
    {
        let r = CryptoAesEncrypt01Rsp([0u8; 2]);
        proof {
            assert(r.bytes() =~= zero_bytes(2));
        }
        r
    }

    /// Wrap the raw bytes returned by a read transaction.
    pub fn from_bytes(bytes: &[u8]) -> (r: Self)
        requires
            bytes@.len() == 2,
        ensures
            r.bytes() == bytes@,
    {
        CryptoAesEncrypt01Rsp(to_array(bytes))
    }

    /// Return the status header (short form, from byte 0).
    pub fn status(&self) -> (r: Status)
        ensures
            r@ == ((self.bytes()[0] as u16) << 8),
    {
        Status::from_byte(self.0[0])
    }

    /// Crypto engine status.
    pub fn ce_status(&self) -> (r: CeStatus)
        ensures
            r == CeStatus::spec_from_code(self.bytes()[1]),
    {
        CeStatus::from_code(self.0[1])
    }
}

/// Response for the CryptoAesEncrypt command.
pub struct CryptoAesEncryptRsp([u8; 2]);

impl CryptoAesEncryptRsp {
    /// The raw response bytes.
    pub closed spec fn bytes(&self) -> Seq<u8> {
        self.0@
    }

    /// Create a zero-filled response buffer.
    pub fn new() -> (r: Self)
        ensures
            r.bytes() == zero_bytes(2),
    {
        let r = CryptoAesEncryptRsp([0u8; 2]);
        proof {
            assert(r.bytes() =~= zero_bytes(2));
        }
        r
    }

    /// Wrap the raw bytes returned by a read transaction.
    pub fn from_bytes(bytes: &[u8]) -> (r: Self)
        requires
            bytes@.len() == 2,
        ensures
            r.bytes() == bytes@,
    {
        CryptoAesEncryptRsp(to_array(bytes))
    }

    /// Return the status header (short form, from byte 0).
    pub fn status(&self) -> (r: Status)
        ensures
            r@ == ((self.bytes()[0] as u16) << 8),
    {
        Status::from_byte(self.0[0])
    }

    /// Crypto engine status.
    pub fn ce_status(&self) -> (r: CeStatus)
        ensures
            r == CeStatus::spec_from_code(self.bytes()[1]),
    {
        CeStatus::from_code(self.0[1])
    }
}

/// Response for the CryptoAesDecrypt command.
pub struct CryptoAesDecryptRsp([u8; 2]);

impl CryptoAesDecryptRsp {
    /// The raw response bytes.
    pub closed spec fn bytes(&self) -> Seq<u8> {
        self.0@
    }

    /// Create a zero-filled response buffer.
    pub fn new() -> (r: Self)
        ensures
            r.bytes() == zero_bytes(2),
    {
        let r = CryptoAesDecryptRsp([0u8; 2]);
        proof {
            assert(r.bytes() =~= zero_bytes(2));
        }
        r
    }

    /// Wrap the raw bytes returned by a read transaction.
    pub fn from_bytes(bytes: &[u8]) -> (r: Self)
        requires
            bytes@.len() == 2,
        ensures
            r.bytes() == bytes@,
    {
        CryptoAesDecryptRsp(to_array(bytes))
    }

    /// Return the status header (short form, from byte 0).
    pub fn status(&self) -> (r: Status)
        ensures
            r@ == ((self.bytes()[0] as u16) << 8),
    {
        Status::from_byte(self.0[0])
    }

    /// Crypto engine status.
    pub fn ce_status(&self) -> (r: CeStatus)
        ensures
            r == CeStatus::spec_from_code(self.bytes()[1]),
    {
        CeStatus::from_code(self.0[1])
    }
}

/// Response for the CryptoStoreToFlash command.
pub struct CryptoStoreToFlashRsp([u8; 2]);

impl CryptoStoreToFlashRsp {
    /// The raw response bytes.
    pub closed spec fn bytes(&self) -> Seq<u8> {
        self.0@
    }

    /// Create a zero-filled response buffer.
    pub fn new() -> (r: Self)
        ensures
            r.bytes() == zero_bytes(2),
    {
        let r = CryptoStoreToFlashRsp([0u8; 2]);
        proof {
            assert(r.bytes() =~= zero_bytes(2));
        }
        r
    }

    /// Wrap the raw bytes returned by a read transaction.
    pub fn from_bytes(bytes: &[u8]) -> (r: Self)
        requires
            bytes@.len() == 2,
        ensures
            r.bytes() == bytes@,
    {
        CryptoStoreToFlashRsp(to_array(bytes))
    }

    /// Return the status header (short form, from byte 0).
    pub fn status(&self) -> (r: Status)
        ensures
            r@ == ((self.bytes()[0] as u16) << 8),
    {
        Status::from_byte(self.0[0])
    }

    /// Crypto engine status.
    pub fn ce_status(&self) -> (r: CeStatus)
        ensures
            r == CeStatus::spec_from_code(self.bytes()[1]),
    {
        CeStatus::from_code(self.0[1])
    }
}

/// Response for the CryptoRestoreFromFlash command.
pub struct CryptoRestoreFromFlashRsp([u8; 2]);

impl CryptoRestoreFromFlashRsp {
    /// The raw response bytes.
    pub closed spec fn bytes(&self) -> Seq<u8> {
        self.0@
    }

    /// Create a zero-filled response buffer.
    pub fn new() -> (r: Self)
        ensures
            r.bytes() == zero_bytes(2),
    {
        let r = CryptoRestoreFromFlashRsp([0u8; 2]);
        proof {
            assert(r.bytes() =~= zero_bytes(2));
        }
        r
    }

    /// Wrap the raw bytes returned by a read transaction.
    pub fn from_bytes(bytes: &[u8]) -> (r: Self)
        requires
            bytes@.len() == 2,
        ensures
            r.bytes() == bytes@,
    {
        CryptoRestoreFromFlashRsp(to_array(bytes))
    }

    /// Return the status header (short form, from byte 0).
    pub fn status(&self) -> (r: Status)
        ensures
            r@ == ((self.bytes()[0] as u16) << 8),
    {
        Status::from_byte(self.0[0])
    }

    /// Crypto engine status.
    pub fn ce_status(&self) -> (r: CeStatus)
        ensures
            r == CeStatus::spec_from_code(self.bytes()[1]),
    {
        CeStatus::from_code(self.0[1])
    }
}

/// Response for the CryptoSetParam command.
pub struct CryptoSetParamRsp([u8; 2]);

impl CryptoSetParamRsp {
    /// The raw response bytes.
    pub closed spec fn bytes(&self) -> Seq<u8> {
        self.0@
    }

    /// Create a zero-filled response buffer.
    pub fn new() -> (r: Self)
        ensures
            r.bytes() == zero_bytes(2),
    {
        let r = CryptoSetParamRsp([0u8; 2]);
        proof {
            assert(r.bytes() =~= zero_bytes(2));
        }
        r
    }

    /// Wrap the raw bytes returned by a read transaction.
    pub fn from_bytes(bytes: &[u8]) -> (r: Self)
        requires
            bytes@.len() == 2,
        ensures
            r.bytes() == bytes@,
    {
        CryptoSetParamRsp(to_array(bytes))
    }

    /// Return the status header (short form, from byte 0).
    pub fn status(&self) -> (r: Status)
        ensures
            r@ == ((self.bytes()[0] as u16) << 8),
    {
        Status::from_byte(self.0[0])
    }

    /// Crypto engine status.
    pub fn ce_status(&self) -> (r: CeStatus)
        ensures
            r == CeStatus::spec_from_code(self.bytes()[1]),
    {
        CeStatus::from_code(self.0[1])
    }
}

/// Response for the CryptoGetParam command.
pub struct CryptoGetParamRsp([u8; 6]);

impl CryptoGetParamRsp {
    /// The raw response bytes.
    pub closed spec fn bytes(&self) -> Seq<u8> {
        self.0@
    }

    /// Create a zero-filled response buffer.
    pub fn new() -> (r: Self)
        ensures
            r.bytes() == zero_bytes(6),
    {
        let r = CryptoGetParamRsp([0u8; 6]);
        proof {
            assert(r.bytes() =~= zero_bytes(6));
        }
        r
    }

    /// Wrap the raw bytes returned by a read transaction.
    pub fn from_bytes(bytes: &[u8]) -> (r: Self)
        requires
            bytes@.len() == 6,
        ensures
            r.bytes() == bytes@,
    {
        CryptoGetParamRsp(to_array(bytes))
    }

    /// Return the status header (short form, from byte 0).
    pub fn status(&self) -> (r: Status)
        ensures
            r@ == ((self.bytes()[0] as u16) << 8),
    {
        Status::from_byte(self.0[0])
    }

    /// Crypto engine status.
    pub fn ce_status(&self) -> (r: CeStatus)
        ensures
            r == CeStatus::spec_from_code(self.bytes()[1]),
    {
        CeStatus::from_code(self.0[1])
    }

    /// Parameter data (32 bits).
    pub fn data(&self) -> (r: u32)
        ensures
            r == spec_be32(self.bytes()[2], self.bytes()[3], self.bytes()[4], self.bytes()[5]),
    {
        be32(self.0[2], self.0[3], self.0[4], self.0[5])
    }
}

/// Response for the CryptoCheckEncryptedFirmwareImageResult command.
pub struct CryptoCheckEncryptedFirmwareImageResultRsp([u8; 2]);

impl CryptoCheckEncryptedFirmwareImageResultRsp {
    /// The raw response bytes.
    pub closed spec fn bytes(&self) -> Seq<u8> {
        self.0@
    }

    /// Create a zero-filled response buffer.
    pub fn new() -> (r: Self)
        ensures
            r.bytes() == zero_bytes(2),
    {
        let r = CryptoCheckEncryptedFirmwareImageResultRsp([0u8; 2]);
        proof {
            assert(r.bytes() =~= zero_bytes(2));
        }
        r
    }

    /// Wrap the raw bytes returned by a read transaction.
    pub fn from_bytes(bytes: &[u8]) -> (r: Self)
        requires
            bytes@.len() == 2,
        ensures
            r.bytes() == bytes@,
    {
        CryptoCheckEncryptedFirmwareImageResultRsp(to_array(bytes))
    }

    /// Return the status header (short form, from byte 0).
    pub fn status(&self) -> (r: Status)
        ensures
            r@ == ((self.bytes()[0] as u16) << 8),
    {
        Status::from_byte(self.0[0])
    }

    /// Firmware verification result: true on success.
    pub fn success(&self) -> (r: bool)
        ensures
            r == ((self.bytes()[1] & 0x1) != 0),
    {
        (self.0[1] & 0x1) != 0
    }
}

} // verus!
