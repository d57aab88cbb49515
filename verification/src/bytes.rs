//! Big-endian byte packing and unpacking helpers shared by the per-opcode
//! request builders and response accessors.

use vstd::prelude::*;

verus! {

/// Bits 31:24 of a 32-bit value.
pub open spec fn spec_u32_b3(x: u32) -> u8 {
    ((x >> 24) & 0xFF) as u8
}

/// Bits 23:16 of a 32-bit value.
pub open spec fn spec_u32_b2(x: u32) -> u8 {
    ((x >> 16) & 0xFF) as u8
}

/// Bits 15:8 of a 32-bit value.
pub open spec fn spec_u32_b1(x: u32) -> u8 {
    ((x >> 8) & 0xFF) as u8
}

/// Bits 7:0 of a 32-bit value.
pub open spec fn spec_u32_b0(x: u32) -> u8 {
    (x & 0xFF) as u8
}

/// Bits 15:8 of a 16-bit value.
pub open spec fn spec_u16_hi(x: u16) -> u8 {
    ((x >> 8) & 0xFF) as u8
}

/// Bits 7:0 of a 16-bit value.
pub open spec fn spec_u16_lo(x: u16) -> u8 {
    (x & 0xFF) as u8
}

/// Extract bits 31:24 of a 32-bit value.
#[verifier::when_used_as_spec(spec_u32_b3)]
pub fn u32_b3(x: u32) -> (r: u8)
    ensures
        r == spec_u32_b3(x),
{
    ((x >> 24) & 0xFF) as u8
}

/// Extract bits 23:16 of a 32-bit value.
#[verifier::when_used_as_spec(spec_u32_b2)]
pub fn u32_b2(x: u32) -> (r: u8)
    ensures
        r == spec_u32_b2(x),
{
    ((x >> 16) & 0xFF) as u8
}

/// Extract bits 15:8 of a 32-bit value.
#[verifier::when_used_as_spec(spec_u32_b1)]
pub fn u32_b1(x: u32) -> (r: u8)
    ensures
        r == spec_u32_b1(x),
{
    ((x >> 8) & 0xFF) as u8
}

/// Extract bits 7:0 of a 32-bit value.
#[verifier::when_used_as_spec(spec_u32_b0)]
pub fn u32_b0(x: u32) -> (r: u8)
    ensures
        r == spec_u32_b0(x),
{
    (x & 0xFF) as u8
}

/// Extract bits 15:8 of a 16-bit value.
#[verifier::when_used_as_spec(spec_u16_hi)]
pub fn u16_hi(x: u16) -> (r: u8)
    ensures
        r == spec_u16_hi(x),
{
    ((x >> 8) & 0xFF) as u8
}

/// Extract bits 7:0 of a 16-bit value.
#[verifier::when_used_as_spec(spec_u16_lo)]
pub fn u16_lo(x: u16) -> (r: u8)
    ensures
        r == spec_u16_lo(x),
{
    (x & 0xFF) as u8
}

/// Bits 7:0 of a 64-bit value.
pub open spec fn spec_u64_b0(x: u64) -> u8 {
    (x & 0xFF) as u8
}

/// Extract bits 7:0 of a 64-bit value.
#[verifier::when_used_as_spec(spec_u64_b0)]
pub fn u64_b0(x: u64) -> (r: u8)
    ensures
        r == spec_u64_b0(x),
{
    (x & 0xFF) as u8
}

/// Bits 15:8 of a 64-bit value.
pub open spec fn spec_u64_b1(x: u64) -> u8 {
    ((x >> 8) & 0xFF) as u8
}

/// Extract bits 15:8 of a 64-bit value.
#[verifier::when_used_as_spec(spec_u64_b1)]
pub fn u64_b1(x: u64) -> (r: u8)
    ensures
        r == spec_u64_b1(x),
{
    ((x >> 8) & 0xFF) as u8
}

/// Bits 23:16 of a 64-bit value.
pub open spec fn spec_u64_b2(x: u64) -> u8 {
    ((x >> 16) & 0xFF) as u8
}

/// Extract bits 23:16 of a 64-bit value.
#[verifier::when_used_as_spec(spec_u64_b2)]
pub fn u64_b2(x: u64) -> (r: u8)
    ensures
        r == spec_u64_b2(x),
{
    ((x >> 16) & 0xFF) as u8
}

/// Bits 31:24 of a 64-bit value.
pub open spec fn spec_u64_b3(x: u64) -> u8 {
    ((x >> 24) & 0xFF) as u8
}

/// Extract bits 31:24 of a 64-bit value.
#[verifier::when_used_as_spec(spec_u64_b3)]
pub fn u64_b3(x: u64) -> (r: u8)
    ensures
        r == spec_u64_b3(x),
{
    ((x >> 24) & 0xFF) as u8
}

/// Bits 39:32 of a 64-bit value.
pub open spec fn spec_u64_b4(x: u64) -> u8 {
    ((x >> 32) & 0xFF) as u8
}

/// Extract bits 39:32 of a 64-bit value.
#[verifier::when_used_as_spec(spec_u64_b4)]
pub fn u64_b4(x: u64) -> (r: u8)
    ensures
        r == spec_u64_b4(x),
{
    ((x >> 32) & 0xFF) as u8
}

/// Bits 47:40 of a 64-bit value.
pub open spec fn spec_u64_b5(x: u64) -> u8 {
    ((x >> 40) & 0xFF) as u8
}

/// Extract bits 47:40 of a 64-bit value.
#[verifier::when_used_as_spec(spec_u64_b5)]
pub fn u64_b5(x: u64) -> (r: u8)
    ensures
        r == spec_u64_b5(x),
{
    ((x >> 40) & 0xFF) as u8
}

/// Bits 55:48 of a 64-bit value.
pub open spec fn spec_u64_b6(x: u64) -> u8 {
    ((x >> 48) & 0xFF) as u8
}

/// Extract bits 55:48 of a 64-bit value.
#[verifier::when_used_as_spec(spec_u64_b6)]
pub fn u64_b6(x: u64) -> (r: u8)
    ensures
        r == spec_u64_b6(x),
{
    ((x >> 48) & 0xFF) as u8
}

/// Bits 63:56 of a 64-bit value.
pub open spec fn spec_u64_b7(x: u64) -> u8 {
    ((x >> 56) & 0xFF) as u8
}

/// Extract bits 63:56 of a 64-bit value.
#[verifier::when_used_as_spec(spec_u64_b7)]
pub fn u64_b7(x: u64) -> (r: u8)
    ensures
        r == spec_u64_b7(x),
{
    ((x >> 56) & 0xFF) as u8
}

/// A 16-bit value assembled from two big-endian bytes.
pub open spec fn spec_be16(b1: u8, b0: u8) -> u16 {
    (((b1 as u16) << 8) | (b0 as u16))
}

/// Assemble a 16-bit value from two big-endian bytes.
#[verifier::when_used_as_spec(spec_be16)]
pub fn be16(b1: u8, b0: u8) -> (r: u16)
    ensures
        r == spec_be16(b1, b0),
{
    ((b1 as u16) << 8) | (b0 as u16)
}

/// A 32-bit value assembled from four big-endian bytes.
pub open spec fn spec_be32(b3: u8, b2: u8, b1: u8, b0: u8) -> u32 {
    (((b3 as u32) << 24) | ((b2 as u32) << 16) | ((b1 as u32) << 8) | (b0 as u32))
}

/// Assemble a 32-bit value from four big-endian bytes.
#[verifier::when_used_as_spec(spec_be32)]
pub fn be32(b3: u8, b2: u8, b1: u8, b0: u8) -> (r: u32)
    ensures
        r == spec_be32(b3, b2, b1, b0),
{
    ((b3 as u32) << 24) | ((b2 as u32) << 16) | ((b1 as u32) << 8) | (b0 as u32)
}

/// A 48-bit value assembled from six big-endian bytes.
pub open spec fn spec_be48(b5: u8, b4: u8, b3: u8, b2: u8, b1: u8, b0: u8) -> u64 {
    (((b5 as u64) << 40) | ((b4 as u64) << 32) | ((b3 as u64) << 24) | ((b2 as u64) << 16) | ((
    b1 as u64) << 8) | (b0 as u64))
}

/// Assemble a 48-bit value from six big-endian bytes.
#[verifier::when_used_as_spec(spec_be48)]
pub fn be48(b5: u8, b4: u8, b3: u8, b2: u8, b1: u8, b0: u8) -> (r: u64)
    ensures
        r == spec_be48(b5, b4, b3, b2, b1, b0),
{
    ((b5 as u64) << 40) | ((b4 as u64) << 32) | ((b3 as u64) << 24) | ((b2 as u64) << 16) | ((
    b1 as u64) << 8) | (b0 as u64)
}

/// A 64-bit value assembled from eight big-endian bytes.
pub open spec fn spec_be64(
    b7: u8,
    b6: u8,
    b5: u8,
    b4: u8,
    b3: u8,
    b2: u8,
    b1: u8,
    b0: u8,
) -> u64 {
    (((b7 as u64) << 56) | ((b6 as u64) << 48) | ((b5 as u64) << 40) | ((b4 as u64) << 32) | ((
    b3 as u64) << 24) | ((b2 as u64) << 16) | ((b1 as u64) << 8) | (b0 as u64))
}

/// Assemble a 64-bit value from eight big-endian bytes.
#[verifier::when_used_as_spec(spec_be64)]
pub fn be64(b7: u8, b6: u8, b5: u8, b4: u8, b3: u8, b2: u8, b1: u8, b0: u8) -> (r: u64)
    ensures
        r == spec_be64(b7, b6, b5, b4, b3, b2, b1, b0),
{
    ((b7 as u64) << 56) | ((b6 as u64) << 48) | ((b5 as u64) << 40) | ((b4 as u64) << 32) | ((
    b3 as u64) << 24) | ((b2 as u64) << 16) | ((b1 as u64) << 8) | (b0 as u64)
}

/// Copy a slice of known length into a fixed-size array.
pub fn to_array<const N: usize>(bytes: &[u8]) -> (r: [u8; N])
    requires
        bytes@.len() == N,
    ensures
        r@ == bytes@,
{
    let mut a = [0u8; N];
    let mut i: usize = 0;
    while i < N
        invariant
            i <= N,
            bytes@.len() == N,
            forall|k: int| 0 <= k < i ==> a@[k] == bytes@[k],
        decreases N - i,
    {
        a[i] = bytes[i];
        i += 1;
    }
    proof {
        assert(a@ =~= bytes@);
    }
    a
}

} // verus!
