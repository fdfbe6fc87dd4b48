//! Little-endian integers as they lie on the wire.

use byteorder::{ByteOrder, LittleEndian};
use vstd::prelude::*;
use vstd::slice::slice_subrange;

verus! {

/// The unsigned integer that the first four bytes of `bytes` hold, least
/// significant byte first.
pub open spec fn le_u32(bytes: Seq<u8>) -> int
    recommends
        bytes.len() >= 4,
{
    bytes[0] + 0x100 * bytes[1] + 0x1_0000 * bytes[2] + 0x100_0000 * bytes[3]
}

/// The two's complement integer that the first four bytes of `bytes` hold,
/// least significant byte first.
pub open spec fn le_i32(bytes: Seq<u8>) -> int
    recommends
        bytes.len() >= 4,
{
    if le_u32(bytes) >= 0x8000_0000 {
        le_u32(bytes) - 0x1_0000_0000
    } else {
        le_u32(bytes)
    }
}

/// The unsigned 64-bit integer with the same bits as the two's complement
/// integer `value`.
pub open spec fn twos_complement_64(value: int) -> int
    recommends
        i64::MIN <= value <= i64::MAX,
{
    if value < 0 {
        value + 0x1_0000_0000_0000_0000
    } else {
        value
    }
}

/// The byte of `value` at position `index`, counted from the least
/// significant one.
pub open spec fn byte_at(value: int, index: nat) -> u8
    recommends
        value >= 0,
    decreases index,
{
    if index == 0 {
        (value % 0x100) as u8
    } else {
        byte_at(value / 0x100, (index - 1) as nat)
    }
}

/// The eight bytes of the two's complement integer `value`, least significant
/// byte first.
pub open spec fn le_bytes_i64(value: int) -> Seq<u8>
    recommends
        i64::MIN <= value <= i64::MAX,
{
    Seq::new(8, |i: int| byte_at(twos_complement_64(value), i as nat))
}

/// Reads an unsigned 32-bit integer with `byteorder`'s
/// `LittleEndian::read_u32`: the first four bytes of `buf`, least significant
/// byte first. The call panics on a shorter buffer, which `requires` rules out.
#[verifier::external_body]
fn read_u32_le(buf: &[u8]) -> (value: u32)
    requires
        buf@.len() >= 4,
    ensures
        value == le_u32(buf@),
{
    LittleEndian::read_u32(buf)
}

/// Reads a signed 32-bit integer with `byteorder`'s `LittleEndian::read_i32`:
/// the first four bytes of `buf`, least significant byte first, taken as two's
/// complement. The call panics on a shorter buffer, which `requires` rules out.
#[verifier::external_body]
fn read_i32_le(buf: &[u8]) -> (value: i32)
    requires
        buf@.len() >= 4,
    ensures
        value == le_i32(buf@),
{
    LittleEndian::read_i32(buf)
}

/// The signed day count of an inbound date and time: bytes 0 to 3.
pub open spec fn wire_days(payload: Seq<u8>) -> int
    recommends
        payload.len() == 8,
{
    le_i32(payload.subrange(0, 4))
}

/// The unsigned tick count of an inbound date and time: bytes 4 to 7.
pub open spec fn wire_ticks(payload: Seq<u8>) -> int
    recommends
        payload.len() == 8,
{
    le_u32(payload.subrange(4, 8))
}

/// Reads the day count from an eight-byte date and time payload.
pub(crate) fn read_days(payload: &[u8]) -> (days: i32)
    requires
        payload@.len() == 8,
    ensures
        days == wire_days(payload@),
{
    read_i32_le(slice_subrange(payload, 0, 4))
}

/// Reads the tick count from an eight-byte date and time payload.
pub(crate) fn read_ticks(payload: &[u8]) -> (ticks: u32)
    requires
        payload@.len() == 8,
    ensures
        ticks == wire_ticks(payload@),
{
    read_u32_le(slice_subrange(payload, 4, 8))
}

/// Appends the eight little-endian bytes of `value` to `buf`.
pub fn put_i64_le(buf: &mut Vec<u8>, value: i64)
    ensures
        final(buf)@ == old(buf)@ + le_bytes_i64(value as int),
{
    let mut rest: u64 = if value < 0 {
        let low: u64 = (value - i64::MIN) as u64;
        low + 0x8000_0000_0000_0000u64
    } else {
        value as u64
    };
    let ghost start = buf@;
    let ghost whole = rest as int;
    let mut i: usize = 0;
    while i < 8
        invariant
            i <= 8,
            whole == twos_complement_64(value as int),
            buf@ =~= start + Seq::new(i as nat, |j: int| byte_at(whole, j as nat)),
            forall|k: nat| #[trigger] byte_at(rest as int, k) == byte_at(whole, k + i as nat),
        decreases 8 - i,
    {
        let low: u8 = (rest % 0x100) as u8;
        proof {
            assert(byte_at(rest as int, 0) == low);
            assert forall|k: nat| #[trigger]
                byte_at((rest / 0x100) as int, k) == byte_at(whole, k + (i + 1) as nat) by {
                assert(byte_at(rest as int, k + 1) == byte_at(rest as int / 0x100, k));
            }
        }
        buf.push(low);
        rest = rest / 0x100;
        i += 1;
    }
    assert(buf@ =~= start + le_bytes_i64(value as int));
}

} // verus!
