//! Facts about the machine that the library runs on.

pub mod time;

use vstd::prelude::*;

verus! {

/// `u16::to_le` of the standard library: the number as it is on a
/// little-endian machine, with its two bytes swapped on a big-endian one.
/// Which of the two it returns depends on the machine.
#[verifier::external_body]
fn to_little_endian(x: u16) -> (r: u16)
    ensures
        r == x || r == (x % 256) * 256 + x / 256,
{
    x.to_le()
}

/// Whether signed integers wrap to unsigned ones as two's complement does,
/// which they always do.
pub fn is_twos_complement() -> (r: bool)
    ensures
        r,
{
    let mut is_twos_complement = false;
    let x: i32 = -1i32;
    let y: u32 = #[verifier::truncate] (x as u32);
    assert(y == u32::MAX) by (bit_vector)
        requires
            x == -1i32,
            y == x as u32,
    ;
    if y == u32::MAX {
        is_twos_complement = true;
    }
    is_twos_complement
}

/// Whether the machine stores the least significant byte of a number first.
pub fn is_little_endian() -> (r: bool) {
    let x: u16 = 1u16;
    let y: u16 = to_little_endian(x);
    is_kept_as_little_endian(x, y)
}

/// Whether a number came out of the conversion to little-endian as it went
/// in. For the number 1 it does on a little-endian machine and on no other.
pub fn is_kept_as_little_endian(number: u16, as_little_endian: u16) -> (r: bool)
    ensures
        r == (number == as_little_endian),
{
    let mut is_kept = false;
    if number == as_little_endian {
        is_kept = true;
    }
    is_kept
}

} // verus!
