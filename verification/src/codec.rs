//! Little-endian decoding of the raw byte buffers copied out of the
//! foreign process.

use vstd::prelude::*;

verus! {

/// The unsigned value of four little-endian bytes.
pub open spec fn le32(b: Seq<u8>) -> int
    recommends
        b.len() == 4,
{
    b[0] + 0x100 * b[1] + 0x1_0000 * b[2] + 0x100_0000 * b[3]
}

/// The unsigned value of two little-endian bytes.
pub open spec fn le16(b: Seq<u8>) -> int
    recommends
        b.len() == 2,
{
    b[0] + 0x100 * b[1]
}

/// Decodes a one-byte buffer as a boolean: any nonzero byte is true.
pub fn decode_bool(b: &Vec<u8>) -> (r: bool)
    requires
        b@.len() == 1,
    ensures
        r == (b@[0] != 0),
{
    b[0] != 0
}

/// Decodes a four-byte buffer as a little-endian 32-bit integer.
pub fn decode_u32_le(b: &Vec<u8>) -> (r: u32)
    requires
        b@.len() == 4,
    ensures
        r == le32(b@),
{
    let b0 = b[0] as u32;
    let b1 = b[1] as u32;
    let b2 = b[2] as u32;
    let b3 = b[3] as u32;
    b0 + 0x100 * b1 + 0x1_0000 * b2 + 0x100_0000 * b3
}

/// Decodes a two-byte buffer as a little-endian 16-bit integer,
/// zero-extended to 32 bits.
pub fn decode_u16_le(b: &Vec<u8>) -> (r: u32)
    requires
        b@.len() == 2,
    ensures
        r == le16(b@),
        r <= 0xFFFF,
{
    let b0 = b[0] as u32;
    let b1 = b[1] as u32;
    b0 + 0x100 * b1
}

} // verus!
