//! Numbers of two, four and eight bytes, in either byte order.

use vstd::prelude::*;
use vstd::slice::*;
use byteorder::{BigEndian, ByteOrder, LittleEndian};
use crate::sas::endianness::Endianness;

verus! {

/// The number that bytes stand for when the first byte is the most significant.
pub open spec fn be_value(s: Seq<u8>) -> nat
    decreases s.len(),
{
    if s.len() == 0 {
        0
    } else {
        be_value(s.drop_last()) * 256 + s.last() as nat
    }
}

/// The number that bytes stand for when the first byte is the least significant.
pub open spec fn le_value(s: Seq<u8>) -> nat
    decreases s.len(),
{
    if s.len() == 0 {
        0
    } else {
        s.first() as nat + 256 * le_value(s.drop_first())
    }
}

/// The number that bytes stand for in the given byte order.
pub open spec fn uint_value(endianness: Endianness, s: Seq<u8>) -> nat {
    match endianness {
        Endianness::Big => be_value(s),
        Endianness::Little => le_value(s),
    }
}

/// The number that the `width` bytes at `offset` stand for.
pub open spec fn uint_at(endianness: Endianness, s: Seq<u8>, offset: int, width: int) -> nat {
    uint_value(endianness, s.subrange(offset, offset + width))
}

/// 256 to the power `n`: how many numbers `n` bytes can stand for.
pub open spec fn radix_pow(n: nat) -> nat
    decreases n,
{
    if n == 0 {
        1
    } else {
        256 * radix_pow((n - 1) as nat)
    }
}

/// A big-endian number of `n` bytes is below 256 to the power `n`.
pub proof fn lemma_be_value_bound(s: Seq<u8>)
    ensures
        be_value(s) < radix_pow(s.len()),
    decreases s.len(),
{
    if s.len() > 0 {
        lemma_be_value_bound(s.drop_last());
    }
}

/// A little-endian number of `n` bytes is below 256 to the power `n`.
pub proof fn lemma_le_value_bound(s: Seq<u8>)
    ensures
        le_value(s) < radix_pow(s.len()),
    decreases s.len(),
{
    if s.len() > 0 {
        lemma_le_value_bound(s.drop_first());
    }
}

/// A number of two, four or eight bytes fits the integer type of that width.
pub proof fn lemma_uint_value_fits(endianness: Endianness, s: Seq<u8>)
    ensures
        s.len() == 2 ==> uint_value(endianness, s) <= u16::MAX,
        s.len() == 4 ==> uint_value(endianness, s) <= u32::MAX,
        s.len() == 8 ==> uint_value(endianness, s) <= u64::MAX,
{
    lemma_be_value_bound(s);
    lemma_le_value_bound(s);
    reveal_with_fuel(radix_pow, 9);
}

/// `BigEndian::read_u16` of byteorder: the first two bytes of the buffer, the
/// first one the most significant. It panics on a shorter buffer.
#[verifier::external_body]
fn be_u16(buf: &[u8]) -> (r: u16)
    requires
        buf@.len() >= 2,
    ensures
        r as nat == be_value(buf@.subrange(0, 2)),
{
    BigEndian::read_u16(buf)
}

/// `LittleEndian::read_u16` of byteorder: the first two bytes of the buffer,
/// the first one the least significant. It panics on a shorter buffer.
#[verifier::external_body]
fn le_u16(buf: &[u8]) -> (r: u16)
    requires
        buf@.len() >= 2,
    ensures
        r as nat == le_value(buf@.subrange(0, 2)),
{
    LittleEndian::read_u16(buf)
}

/// `BigEndian::read_u32` of byteorder: the first four bytes of the buffer, the
/// first one the most significant. It panics on a shorter buffer.
#[verifier::external_body]
fn be_u32(buf: &[u8]) -> (r: u32)
    requires
        buf@.len() >= 4,
    ensures
        r as nat == be_value(buf@.subrange(0, 4)),
{
    BigEndian::read_u32(buf)
}

/// `LittleEndian::read_u32` of byteorder: the first four bytes of the buffer,
/// the first one the least significant. It panics on a shorter buffer.
#[verifier::external_body]
fn le_u32(buf: &[u8]) -> (r: u32)
    requires
        buf@.len() >= 4,
    ensures
        r as nat == le_value(buf@.subrange(0, 4)),
{
    LittleEndian::read_u32(buf)
}

/// `BigEndian::read_u64` of byteorder: the first eight bytes of the buffer,
/// the first one the most significant. It panics on a shorter buffer.
#[verifier::external_body]
fn be_u64(buf: &[u8]) -> (r: u64)
    requires
        buf@.len() >= 8,
    ensures
        r as nat == be_value(buf@.subrange(0, 8)),
{
    BigEndian::read_u64(buf)
}

/// `LittleEndian::read_u64` of byteorder: the first eight bytes of the buffer,
/// the first one the least significant. It panics on a shorter buffer.
#[verifier::external_body]
fn le_u64(buf: &[u8]) -> (r: u64)
    requires
        buf@.len() >= 8,
    ensures
        r as nat == le_value(buf@.subrange(0, 8)),
{
    LittleEndian::read_u64(buf)
}

/// Reads the two-byte number at `offset`.
pub fn read_u16(bytes: &[u8], offset: usize, endianness: Endianness) -> (r: u16)
    requires
        offset + 2 <= bytes.len(),
    ensures
        r as nat == uint_at(endianness, bytes@, offset as int, 2),
{
    let field = slice_subrange(bytes, offset, offset + 2);
    assert(field@.subrange(0, 2) =~= field@);
    match endianness {
        Endianness::Big => be_u16(field),
        Endianness::Little => le_u16(field),
    }
}

/// Reads the four-byte number at `offset`.
pub fn read_u32(bytes: &[u8], offset: usize, endianness: Endianness) -> (r: u32)
    requires
        offset + 4 <= bytes.len(),
    ensures
        r as nat == uint_at(endianness, bytes@, offset as int, 4),
{
    let field = slice_subrange(bytes, offset, offset + 4);
    assert(field@.subrange(0, 4) =~= field@);
    match endianness {
        Endianness::Big => be_u32(field),
        Endianness::Little => le_u32(field),
    }
}

/// Reads the eight-byte number at `offset`.
pub fn read_u64(bytes: &[u8], offset: usize, endianness: Endianness) -> (r: u64)
    requires
        offset + 8 <= bytes.len(),
    ensures
        r as nat == uint_at(endianness, bytes@, offset as int, 8),
{
    let field = slice_subrange(bytes, offset, offset + 8);
    assert(field@.subrange(0, 8) =~= field@);
    match endianness {
        Endianness::Big => be_u64(field),
        Endianness::Little => le_u64(field),
    }
}

/// Reads a number that is four bytes wide, or eight where `wide` is set.
pub fn read_uint(bytes: &[u8], offset: usize, wide: bool, endianness: Endianness) -> (r: u64)
    requires
        offset + (if wide { 8int } else { 4int }) <= bytes.len(),
    ensures
        r as nat == uint_at(endianness, bytes@, offset as int, if wide { 8 } else { 4 }),
{
    if wide {
        read_u64(bytes, offset, endianness)
    } else {
        let narrow = read_u32(bytes, offset, endianness);
        narrow as u64
    }
}

} // verus!
