//! Little-endian integers, read from byte slices.

use vstd::prelude::*;
use byteorder::ByteOrder;
use byteorder::LittleEndian;

verus! {

/// The 16-bit value that two bytes hold, least significant byte first.
pub open spec fn le_u16_of(b: Seq<u8>) -> int
    recommends
        b.len() >= 2,
{
    b[0] as int + 256 * (b[1] as int)
}

/// The 32-bit value that four bytes hold, least significant byte first.
pub open spec fn le_u32_of(b: Seq<u8>) -> int
    recommends
        b.len() >= 4,
{
    b[0] as int + 256 * (b[1] as int) + 65536 * (b[2] as int) + 16777216 * (b[3] as int)
}

/// The 16-bit field that starts `at` bytes into `s`.
pub open spec fn half_at(s: Seq<u8>, at: int) -> u16 {
    le_u16_of(s.skip(at)) as u16
}

/// The 32-bit field that starts `at` bytes into `s`.
pub open spec fn field_at(s: Seq<u8>, at: int) -> u32 {
    le_u32_of(s.skip(at)) as u32
}

/// `byteorder::LittleEndian::read_u16`: the first two bytes of `buf`, read
/// least significant byte first. The outside function panics on a shorter
/// slice, which `requires` leaves out.
#[verifier::external_body]
pub(crate) fn le_u16(buf: &[u8]) -> (value: u16)
    requires
        buf@.len() >= 2,
    ensures
        value as int == le_u16_of(buf@),
{
    LittleEndian::read_u16(buf)
}

/// `byteorder::LittleEndian::read_u32`: the first four bytes of `buf`, read
/// least significant byte first. The outside function panics on a shorter
/// slice, which `requires` leaves out.
#[verifier::external_body]
pub(crate) fn le_u32(buf: &[u8]) -> (value: u32)
    requires
        buf@.len() >= 4,
    ensures
        value as int == le_u32_of(buf@),
{
    LittleEndian::read_u32(buf)
}

} // verus!
