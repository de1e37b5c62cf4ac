//! Bit-range extraction and power-of-two testing over unsigned integers.
//!
//! These helpers underlie the random-number state machine: the transition
//! function reads the upper and lower 16-bit halves of a 32-bit word, and
//! the multinomial draw validates its mask argument with `is_powerof2`.

use vstd::prelude::*;

verus! {

/// The `size` lowest bits set; all 32 bits when `size` is the bit width or more.
pub open spec fn spec_mask(size: usize) -> u32 {
    if size >= 32 {
        0xffff_ffffu32
    } else {
        ((1u32 << size) - 1) as u32
    }
}

/// A word with exactly the `size` lowest bits set.
pub fn mask(size: usize) -> (r: u32)
    ensures
        r == spec_mask(size),
{
    if size >= 32 {
        u32::MAX
    } else {
        let shifted: u32 = 1u32 << size;
        proof {
            assert(size < 32 ==> (1u32 << size) >= 1) by (bit_vector);
        }
        shifted - 1
    }
}

/// The bits of `v` in the half-open position range `[begin, end)`, in place;
/// zero elsewhere.
pub fn extract(v: u32, begin: usize, end: usize) -> (r: u32)
    ensures
        r == v & (spec_mask(end) ^ spec_mask(begin)),
{
    let m = mask(end) ^ mask(begin);
    v & m
}

/// The bits of `v` in `[begin, end)`, shifted down to start at bit 0.
pub fn range(v: u32, begin: usize, end: usize) -> (r: u32)
    requires
        begin < 32,
    ensures
        r == (v & (spec_mask(end) ^ spec_mask(begin))) >> begin,
{
    extract(v, begin, end) >> begin
}

/// Whether `v` is a power of two: nonzero with a single bit set.
pub open spec fn spec_is_powerof2(v: u16) -> bool {
    v != 0 && (v & ((v - 1) as u16)) == 0
}

/// True iff `v != 0` and `v & (v - 1) == 0`; validates masks of the form
/// `2^k - 1` once incremented by one.
pub fn is_powerof2(v: u16) -> (r: bool)
    ensures
        r == spec_is_powerof2(v),
{
    if v == 0 {
        return false;
    }
    (v & (v - 1)) == 0
}

} // verus!
