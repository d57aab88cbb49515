//! Register and memory access commands.

use vstd::prelude::*;

use crate::bytes::{be32, spec_u32_b0, spec_u32_b1, spec_u32_b2, spec_u32_b3, to_array, u32_b0,
    u32_b1, u32_b2, u32_b3};
use crate::port::zero_bytes;
use crate::status::Status;

verus! {

/// Bytes of the WriteRegMem32 request.  Byte 5 carries the low address
/// byte OR'ed with the high data byte, as the hardware table lays it out.
pub open spec fn spec_write_reg_mem32_cmd(addr: u32, data: u32) -> Seq<u8> {
    seq![
        0x01u8,
        0x05u8,
        spec_u32_b3(addr),
        spec_u32_b2(addr),
        spec_u32_b1(addr),
        (spec_u32_b0(addr) | spec_u32_b3(data)),
        spec_u32_b2(data),
        spec_u32_b1(data),
        spec_u32_b0(data),
    ]
}

/// Writes one 32-bit word in register/memory space at a specific address.
/// The address must be 32-bit aligned.
pub fn write_reg_mem32_cmd(addr: u32, data: u32) -> (r: [u8; 9])
    ensures
        r@ == spec_write_reg_mem32_cmd(addr, data),
{
    [
        0x01,
        0x05,
        u32_b3(addr),
        u32_b2(addr),
        u32_b1(addr),
        u32_b0(addr) | u32_b3(data),
        u32_b2(data),
        u32_b1(data),
        u32_b0(data),
    ]
}

/// Bytes of the ReadRegMem32 request.
pub open spec fn spec_read_reg_mem32_req(addr: u32, len: u8) -> Seq<u8> {
    seq![
        0x01u8,
        0x06u8,
        spec_u32_b3(addr),
        spec_u32_b2(addr),
        spec_u32_b1(addr),
        spec_u32_b0(addr),
        len,
    ]
}

/// Reads blocks of 32-bit words in register/memory space starting at a
/// specific address.  The address must be 32-bit aligned; at most 64 words.
pub fn read_reg_mem32_req(addr: u32, len: u8) -> (r: [u8; 7])
    ensures
        r@ == spec_read_reg_mem32_req(addr, len),
{
    [0x01, 0x06, u32_b3(addr), u32_b2(addr), u32_b1(addr), u32_b0(addr), len]
}

/// Bytes of the WriteRegMemMask32 request.
pub open spec fn spec_write_reg_mem_mask32_cmd(addr: u32, mask: u32, data: u32) -> Seq<u8> {
    seq![
        0x01u8,
        0x0Cu8,
        spec_u32_b3(addr),
        spec_u32_b2(addr),
        spec_u32_b1(addr),
        spec_u32_b0(addr),
        spec_u32_b3(mask),
        spec_u32_b2(mask),
        spec_u32_b1(mask),
        spec_u32_b0(mask),
        spec_u32_b3(data),
        spec_u32_b2(data),
        spec_u32_b1(data),
        spec_u32_b0(data),
    ]
}

/// Reads, modifies and writes back the masked bits (mask bits = 1) of a
/// single 32-bit word in register/memory space at the specified address.
/// The address must be 32-bit aligned.
pub fn write_reg_mem_mask32_cmd(addr: u32, mask: u32, data: u32) -> (r: [u8; 14])
    ensures
        r@ == spec_write_reg_mem_mask32_cmd(addr, mask, data),
{
    [
        0x01,
        0x0C,
        u32_b3(addr),
        u32_b2(addr),
        u32_b1(addr),
        u32_b0(addr),
        u32_b3(mask),
        u32_b2(mask),
        u32_b1(mask),
        u32_b0(mask),
        u32_b3(data),
        u32_b2(data),
        u32_b1(data),
        u32_b0(data),
    ]
}

/// Response for the ReadRegMem32 command, reading a single word.
pub struct ReadRegMem32Rsp([u8; 6]);

impl ReadRegMem32Rsp {
    /// The raw response bytes.
    pub closed spec fn bytes(&self) -> Seq<u8> {
        self.0@
    }

    /// Create a zero-filled response buffer.
    pub fn new() -> (r: Self)
        ensures
            r.bytes() == zero_bytes(6),
    {
        let r = ReadRegMem32Rsp([0u8; 6]);
        proof {
            assert(r.bytes() =~= zero_bytes(6));
        }
        r
    }

    /// Wrap the raw bytes returned by a read transaction.
    pub fn from_bytes(bytes: &[u8]) -> (r: Self)
        requires
            bytes@.len() == 6,
        ensures
            r.bytes() == bytes@,
    {
        ReadRegMem32Rsp(to_array(bytes))
    }

    /// Return the status header (short form, from byte 0).
    pub fn status(&self) -> (r: Status)
        ensures
            r@ == ((self.bytes()[0] as u16) << 8),
    {
        Status::from_byte(self.0[0])
    }

    /// The 32-bit word read from register/memory space.
    pub fn value(&self) -> (r: u32)
        ensures
            r == crate::bytes::spec_be32(
                self.bytes()[2],
                self.bytes()[3],
                self.bytes()[4],
                self.bytes()[5],
            ),
    {
        be32(self.0[2], self.0[3], self.0[4], self.0[5])
    }
}

} // verus!
