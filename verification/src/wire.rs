//! Big-endian integer layouts used by the wire protocol.
//!
//! Every multi-byte field on the wire is big-endian, two's-complement
//! for the signed ones. The spec functions here give each layout its
//! mathematical value; the executable functions convert between bytes
//! and integers and are proved against those spec functions.

use byteorder::ByteOrder;
use vstd::prelude::*;

verus! {

use vstd::arithmetic::div_mod::{
    lemma_fundamental_div_mod,
    lemma_div_denominator,
    lemma_mod_division_less_than_divisor,
    lemma_div_pos_is_pos,
};

/// Value of two bytes read as a big-endian unsigned 16-bit integer.
pub open spec fn be_u16(b0: u8, b1: u8) -> int {
    b0 * 0x100 + b1
}

/// Value of two bytes read as a big-endian two's-complement 16-bit integer.
pub open spec fn be_i16(b0: u8, b1: u8) -> int {
    if be_u16(b0, b1) >= 0x8000 {
        be_u16(b0, b1) - 0x10000
    } else {
        be_u16(b0, b1)
    }
}

/// Value of four bytes read as a big-endian unsigned 32-bit integer.
pub open spec fn be_u32(b0: u8, b1: u8, b2: u8, b3: u8) -> int {
    b0 * 0x1000000 + b1 * 0x10000 + b2 * 0x100 + b3
}

/// Value of four bytes read as a big-endian two's-complement 32-bit integer.
pub open spec fn be_i32(b0: u8, b1: u8, b2: u8, b3: u8) -> int {
    if be_u32(b0, b1, b2, b3) >= 0x80000000 {
        be_u32(b0, b1, b2, b3) - 0x100000000
    } else {
        be_u32(b0, b1, b2, b3)
    }
}

/// The unsigned 32-bit value that shares a bit pattern with `x`.
pub open spec fn unsigned_of_i32(x: i32) -> int {
    if x < 0 {
        x + 0x100000000
    } else {
        x as int
    }
}

/// The four bytes of `x` in big-endian order.
pub open spec fn i32_be_bytes(x: i32) -> Seq<u8> {
    let u = unsigned_of_i32(x);
    seq![
        (u / 0x1000000) as u8,
        ((u / 0x10000) % 0x100) as u8,
        ((u / 0x100) % 0x100) as u8,
        (u % 0x100) as u8,
    ]
}

/// High byte of a 16-bit length field.
pub open spec fn u16_hi(len: u16) -> u8 {
    (len / 0x100) as u8
}

/// Low byte of a 16-bit length field.
pub open spec fn u16_lo(len: u16) -> u8 {
    (len % 0x100) as u8
}

/// A 16-bit length split into bytes reassembles to itself.
pub proof fn lemma_u16_round_trip(len: u16)
    ensures
        be_u16(u16_hi(len), u16_lo(len)) == len,
{
    lemma_fundamental_div_mod(len as int, 0x100);
}

/// The four big-endian bytes of an `i32` reassemble to the same value.
pub proof fn lemma_i32_round_trip(x: i32)
    ensures
        be_i32(i32_be_bytes(x)[0], i32_be_bytes(x)[1], i32_be_bytes(x)[2], i32_be_bytes(x)[3])
            == x,
{
    let u = unsigned_of_i32(x);
    lemma_u32_bytes(u);
}

/// Decomposing a 32-bit value into bytes by division and remainder
/// loses nothing.
proof fn lemma_u32_bytes(u: int)
    requires
        0 <= u < 0x100000000,
    ensures
        0 <= u / 0x1000000 < 0x100,
        0 <= (u / 0x10000) % 0x100 < 0x100,
        0 <= (u / 0x100) % 0x100 < 0x100,
        0 <= u % 0x100 < 0x100,
        be_u32(
            (u / 0x1000000) as u8,
            ((u / 0x10000) % 0x100) as u8,
            ((u / 0x100) % 0x100) as u8,
            (u % 0x100) as u8,
        ) == u,
{
    let q1 = u / 0x100;
    let q2 = u / 0x10000;
    let q3 = u / 0x1000000;
    lemma_div_denominator(u, 0x100, 0x100);
    lemma_div_denominator(u, 0x10000, 0x100);
    lemma_div_denominator(q1, 0x100, 0x100);
    assert(q2 == q1 / 0x100);
    assert(q3 == q2 / 0x100);
    lemma_fundamental_div_mod(u, 0x100);
    lemma_fundamental_div_mod(q1, 0x100);
    lemma_fundamental_div_mod(q2, 0x100);
    lemma_mod_division_less_than_divisor(u, 0x100);
    lemma_mod_division_less_than_divisor(q1, 0x100);
    lemma_mod_division_less_than_divisor(q2, 0x100);
    lemma_div_pos_is_pos(u, 0x100);
    lemma_div_pos_is_pos(q1, 0x100);
    lemma_div_pos_is_pos(q2, 0x100);
    assert(q1 < 0x1000000);
    assert(q2 < 0x10000);
    assert(q3 < 0x100);
}

/// Reads a big-endian unsigned 16-bit value out of two bytes.
pub fn u16_from_be(b0: u8, b1: u8) -> (r: u16)
    ensures
        r as int == be_u16(b0, b1),
{
    (b0 as u16) * 0x100 + (b1 as u16)
}

/// Relies on `byteorder::BigEndian::read_i16`: a big-endian
/// two's-complement 16-bit integer from the two bytes at `off`.
#[verifier::external_body]
pub(crate) fn read_be_i16(buf: &Vec<u8>, off: usize) -> (r: i16)
    requires
        off + 2 <= buf@.len(),
    ensures
        r as int == be_i16(buf@[off as int], buf@[off as int + 1]),
{
    byteorder::BigEndian::read_i16(&buf[off..off + 2])
}

/// Relies on `byteorder::BigEndian::read_i32`: a big-endian
/// two's-complement 32-bit integer from the four bytes at `off`.
#[verifier::external_body]
pub(crate) fn read_be_i32(buf: &Vec<u8>, off: usize) -> (r: i32)
    requires
        off + 4 <= buf@.len(),
    ensures
        r as int == be_i32(
            buf@[off as int],
            buf@[off as int + 1],
            buf@[off as int + 2],
            buf@[off as int + 3],
        ),
{
    byteorder::BigEndian::read_i32(&buf[off..off + 4])
}

/// Appends the four big-endian bytes of `x` to `out`.
pub fn push_i32_be(out: &mut Vec<u8>, x: i32)
    ensures
        final(out)@ == old(out)@ + i32_be_bytes(x),
{
    proof {
        lemma_u32_bytes(unsigned_of_i32(x));
    }
    let u: u32 = if x >= 0 {
        x as u32
    } else {
        let wide: i64 = (x as i64) + 0x100000000i64;
        wide as u32
    };
    assert(u == unsigned_of_i32(x));
    out.push((u / 0x1000000) as u8);
    out.push(((u / 0x10000) % 0x100) as u8);
    out.push(((u / 0x100) % 0x100) as u8);
    out.push((u % 0x100) as u8);
    assert(out@ =~= old(out)@ + i32_be_bytes(x));
}

} // verus!
