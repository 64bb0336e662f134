//! Big-endian scalar encoding: the correspondence between fixed-width
//! integers and the byte sequences that carry them on the wire.

use vstd::prelude::*;

verus! {

/// The unsigned 16-bit value that two bytes denote in big-endian order.
pub open spec fn be_u16_value(b0: u8, b1: u8) -> u16 {
    (b0 * 0x100 + b1) as u16
}

/// The unsigned 32-bit value that four bytes denote in big-endian order.
pub open spec fn be_u32_value(b0: u8, b1: u8, b2: u8, b3: u8) -> u32 {
    (be_u16_value(b0, b1) * 0x10000 + be_u16_value(b2, b3)) as u32
}

/// The signed 16-bit value that two bytes denote in big-endian order,
/// read as two's complement.
pub open spec fn be_i16_value(b0: u8, b1: u8) -> i16 {
    if be_u16_value(b0, b1) < 0x8000 {
        be_u16_value(b0, b1) as i16
    } else {
        (be_u16_value(b0, b1) - 0x10000) as i16
    }
}

/// The signed 32-bit value that four bytes denote in big-endian order,
/// read as two's complement.
pub open spec fn be_i32_value(b0: u8, b1: u8, b2: u8, b3: u8) -> i32 {
    if be_u32_value(b0, b1, b2, b3) < 0x8000_0000 {
        be_u32_value(b0, b1, b2, b3) as i32
    } else {
        (be_u32_value(b0, b1, b2, b3) - 0x1_0000_0000) as i32
    }
}

/// The two-byte big-endian form of an unsigned 16-bit value.
pub open spec fn u16_be_bytes(v: u16) -> Seq<u8> {
    seq![(v / 0x100) as u8, (v % 0x100) as u8]
}

/// The four-byte big-endian form of an unsigned 32-bit value.
pub open spec fn u32_be_bytes(v: u32) -> Seq<u8> {
    u16_be_bytes((v / 0x10000) as u16) + u16_be_bytes((v % 0x10000) as u16)
}

/// Reading two bytes big-endian inverts `u16_be_bytes`.
pub proof fn lemma_u16_be_roundtrip(v: u16)
    ensures
        u16_be_bytes(v).len() == 2,
        be_u16_value(u16_be_bytes(v)[0], u16_be_bytes(v)[1]) == v,
{
}

/// Reading four bytes big-endian inverts `u32_be_bytes`.
pub proof fn lemma_u32_be_roundtrip(v: u32)
    ensures
        u32_be_bytes(v).len() == 4,
        be_u32_value(
            u32_be_bytes(v)[0],
            u32_be_bytes(v)[1],
            u32_be_bytes(v)[2],
            u32_be_bytes(v)[3],
        ) == v,
{
    let hi = (v / 0x10000) as u16;
    let lo = (v % 0x10000) as u16;
    lemma_u16_be_roundtrip(hi);
    lemma_u16_be_roundtrip(lo);
    assert(u32_be_bytes(v)[0] == u16_be_bytes(hi)[0]);
    assert(u32_be_bytes(v)[1] == u16_be_bytes(hi)[1]);
    assert(u32_be_bytes(v)[2] == u16_be_bytes(lo)[0]);
    assert(u32_be_bytes(v)[3] == u16_be_bytes(lo)[1]);
}

pub fn read_u16_be(b0: u8, b1: u8) -> (r: u16)
    ensures
        r == be_u16_value(b0, b1),
{
    (b0 as u16) * 0x100 + (b1 as u16)
}

pub fn read_u32_be(b0: u8, b1: u8, b2: u8, b3: u8) -> (r: u32)
    ensures
        r == be_u32_value(b0, b1, b2, b3),
{
    (read_u16_be(b0, b1) as u32) * 0x10000 + (read_u16_be(b2, b3) as u32)
}

pub fn read_i16_be(b0: u8, b1: u8) -> (r: i16)
    ensures
        r == be_i16_value(b0, b1),
{
    let u = read_u16_be(b0, b1);
    if u < 0x8000 {
        u as i16
    } else {
        let d: u32 = 0x10000 - (u as u32);
        let n: i32 = -(d as i32);
        n as i16
    }
}

pub fn read_i32_be(b0: u8, b1: u8, b2: u8, b3: u8) -> (r: i32)
    ensures
        r == be_i32_value(b0, b1, b2, b3),
{
    let u = read_u32_be(b0, b1, b2, b3);
    if u < 0x8000_0000 {
        u as i32
    } else {
        let d: u64 = 0x1_0000_0000 - (u as u64);
        let n: i64 = -(d as i64);
        n as i32
    }
}

/// Appends the two-byte big-endian form of `v` to `out`.
pub fn push_u16_be(out: &mut Vec<u8>, v: u16)
    ensures
        final(out)@ == old(out)@ + u16_be_bytes(v),
{
    out.push((v / 0x100) as u8);
    out.push((v % 0x100) as u8);
    assert(out@ =~= old(out)@ + u16_be_bytes(v));
}

/// Appends the four-byte big-endian form of `v` to `out`.
pub fn push_u32_be(out: &mut Vec<u8>, v: u32)
    ensures
        final(out)@ == old(out)@ + u32_be_bytes(v),
{
    push_u16_be(out, (v / 0x10000) as u16);
    push_u16_be(out, (v % 0x10000) as u16);
    assert(out@ =~= old(out)@ + u32_be_bytes(v));
}

} // verus!
