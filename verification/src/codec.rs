//! Big-endian encoding of the register values: the sensor stores a value of
//! several bytes most significant byte first.
use vstd::prelude::*;

verus! {

/// The unsigned 16-bit value of the big-endian byte pair `hi`, `lo`.
pub open spec fn be_u16(hi: u8, lo: u8) -> u16 {
    (hi as int * 256 + lo as int) as u16
}

/// The signed 16-bit (two's complement) value of the big-endian byte pair.
pub open spec fn be_i16(hi: u8, lo: u8) -> i16 {
    if hi < 128 {
        (hi as int * 256 + lo as int) as i16
    } else {
        (hi as int * 256 + lo as int - 65536) as i16
    }
}

/// The unsigned 32-bit value of four big-endian bytes.
pub open spec fn be_u32(b0: u8, b1: u8, b2: u8, b3: u8) -> u32 {
    (b0 as int * 16777216 + b1 as int * 65536 + b2 as int * 256 + b3 as int) as u32
}

/// The most significant byte of a 16-bit value.
pub open spec fn high_byte(v: u16) -> u8 {
    (v / 256) as u8
}

/// The least significant byte of a 16-bit value.
pub open spec fn low_byte(v: u16) -> u8 {
    (v % 256) as u8
}

/// The big-endian bytes of a 16-bit value.
pub open spec fn be_bytes(v: u16) -> Seq<u8> {
    seq![high_byte(v), low_byte(v)]
}

/// `u16::from_be_bytes([hi, lo])`.
pub fn u16_from_be(hi: u8, lo: u8) -> (v: u16)
    ensures
        v == be_u16(hi, lo),
{
    (hi as u16) * 256 + (lo as u16)
}

/// `i16::from_be_bytes([hi, lo])`.
pub fn i16_from_be(hi: u8, lo: u8) -> (v: i16)
    ensures
        v == be_i16(hi, lo),
{
    if hi < 128 {
        (hi as i16) * 256 + (lo as i16)
    } else {
        ((hi - 128) as i16) * 256 + (lo as i16) - 32767 - 1
    }
}

/// `u32::from_be_bytes([b0, b1, b2, b3])`.
pub fn u32_from_be(b0: u8, b1: u8, b2: u8, b3: u8) -> (v: u32)
    ensures
        v == be_u32(b0, b1, b2, b3),
{
    (b0 as u32) * 16777216 + (b1 as u32) * 65536 + (b2 as u32) * 256 + (b3 as u32)
}

/// `v.to_be_bytes()`.
pub fn u16_to_be(v: u16) -> (b: [u8; 2])
    ensures
        b@ == be_bytes(v),
{
    [(v / 256) as u8, (v % 256) as u8]
}

/// Reading back the big-endian bytes of a 16-bit value gives the value.
pub proof fn lemma_be_u16_roundtrip(v: u16)
    ensures
        be_u16(high_byte(v), low_byte(v)) == v,
{
}

/// The big-endian bytes of a decoded pair are the pair.
pub proof fn lemma_be_bytes_of_decoded(hi: u8, lo: u8)
    ensures
        high_byte(be_u16(hi, lo)) == hi,
        low_byte(be_u16(hi, lo)) == lo,
{
}

/// A signed reading is the two's complement of the unsigned reading of the
/// same bytes.
pub proof fn lemma_be_i16_twos_complement(hi: u8, lo: u8)
    ensures
        be_i16(hi, lo) == (if be_u16(hi, lo) < 32768 {
            be_u16(hi, lo) as int
        } else {
            be_u16(hi, lo) as int - 65536
        }),
{
}

} // verus!
