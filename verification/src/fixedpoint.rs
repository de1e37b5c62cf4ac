//! Unsigned fixed-point quantities with saturating and truncating arithmetic.
//!
//! Three formats appear in the growth arithmetic:
//! - 8.8 (`AttrValue`): attribute values, accumulated with saturating adds;
//! - 4.4 (`AttrIncrementValue`): per-level growth increments, loaded verbatim
//!   as bit patterns from the growth tables;
//! - 1.7 (`GrowthFactor`): per-personality growth multipliers, also loaded
//!   verbatim as bit patterns.
//!
//! Widening a 4.4 or 1.7 value into the 8.8 domain preserves the numeric
//! value, not the bit pattern. Truncation to an integer rounds toward zero.

use vstd::prelude::*;

verus! {

/// Saturating sum of two 8.8 bit patterns.
pub open spec fn sat_add_bits(a: int, b: int) -> int {
    if a + b > 0xffff {
        0xffff
    } else {
        a + b
    }
}

/// Saturating difference of two 8.8 bit patterns.
pub open spec fn sat_sub_bits(a: int, b: int) -> int {
    if a - b < 0 {
        0
    } else {
        a - b
    }
}

/// Product of two 8.8 bit patterns, fractional excess truncated.
pub open spec fn mul_bits(a: int, b: int) -> int {
    (a * b) / 256
}

/// Quotient of two 8.8 bit patterns, truncated toward zero.
pub open spec fn div_bits(a: int, b: int) -> int {
    (a * 256) / b
}

/// An 8.8 fixed-point attribute value: 8 integer bits, 8 fractional bits.
#[derive(Clone, Copy, Debug, PartialEq, Eq, Structural)]
pub struct AttrValue {
    pub bits: u16,
}

impl AttrValue {
    /// The value with exactly this bit pattern.
    pub fn from_bits(bits: u16) -> (r: AttrValue)
        ensures
            r.bits == bits,
    {
        AttrValue { bits }
    }

    /// The raw bit pattern.
    pub fn to_bits(self) -> (r: u16)
        ensures
            r == self.bits,
    {
        self.bits
    }

    /// The integer `v`, widened so that the numeric value is preserved.
    pub fn from_int(v: u8) -> (r: AttrValue)
        ensures
            r.bits == v as int * 256,
    {
        AttrValue { bits: (v as u16) * 256 }
    }

    /// The integer part: truncation toward zero.
    pub fn floor(self) -> (r: u8)
        ensures
            r == self.bits as int / 256,
    {
        (self.bits / 256) as u8
    }

    /// Addition that clamps at the representable maximum instead of wrapping.
    pub fn saturating_add(self, other: AttrValue) -> (r: AttrValue)
        ensures
            r.bits == sat_add_bits(self.bits as int, other.bits as int),
    {
        if self.bits > u16::MAX - other.bits {
            AttrValue { bits: u16::MAX }
        } else {
            AttrValue { bits: self.bits + other.bits }
        }
    }

    /// Subtraction that clamps at zero instead of wrapping.
    pub fn saturating_sub(self, other: AttrValue) -> (r: AttrValue)
        ensures
            r.bits == sat_sub_bits(self.bits as int, other.bits as int),
    {
        if self.bits < other.bits {
            AttrValue { bits: 0 }
        } else {
            AttrValue { bits: self.bits - other.bits }
        }
    }

    /// Product in the 8.8 domain, truncating the excess fractional bits.
    pub fn mul_truncating(self, other: AttrValue) -> (r: AttrValue)
        requires
            mul_bits(self.bits as int, other.bits as int) <= 0xffff,
        ensures
            r.bits == mul_bits(self.bits as int, other.bits as int),
    {
        proof {
            assert((self.bits as int) * (other.bits as int) <= 0xffff * 0xffff)
                by (nonlinear_arith)
                requires
                    self.bits <= 0xffff,
                    other.bits <= 0xffff,
            ;
        }
        let p: u32 = (self.bits as u32) * (other.bits as u32);
        (AttrValue { bits: (p / 256) as u16 })
    }

    /// Quotient in the 8.8 domain, truncated toward zero.
    pub fn div_truncating(self, other: AttrValue) -> (r: AttrValue)
        requires
            other.bits > 0,
            div_bits(self.bits as int, other.bits as int) <= 0xffff,
        ensures
            r.bits == div_bits(self.bits as int, other.bits as int),
    {
        let n: u32 = (self.bits as u32) * 256;
        (AttrValue { bits: (n / (other.bits as u32)) as u16 })
    }
}

/// A 4.4 fixed-point growth increment: 4 integer bits, 4 fractional bits.
#[derive(Clone, Copy, Debug, PartialEq, Eq, Structural, Default)]
pub struct AttrIncrementValue {
    pub bits: u8,
}

impl AttrIncrementValue {
    /// The value with exactly this bit pattern, as the tables store it.
    pub fn from_bits(bits: u8) -> (r: AttrIncrementValue)
        ensures
            r.bits == bits,
    {
        AttrIncrementValue { bits }
    }

    /// The raw bit pattern.
    pub fn to_bits(self) -> (r: u8)
        ensures
            r == self.bits,
    {
        self.bits
    }

    /// The same numeric value in the 8.8 domain.
    pub fn to_attr_value(self) -> (r: AttrValue)
        ensures
            r.bits == self.bits as int * 16,
    {
        AttrValue { bits: (self.bits as u16) * 16 }
    }
}

/// A 1.7 fixed-point growth factor: 1 integer bit, 7 fractional bits,
/// so a multiplier in `[0, 2)`.
#[derive(Clone, Copy, Debug, PartialEq, Eq, Structural, Default)]
pub struct GrowthFactor {
    pub bits: u8,
}

impl GrowthFactor {
    /// The value with exactly this bit pattern, as the tables store it.
    pub fn from_bits(bits: u8) -> (r: GrowthFactor)
        ensures
            r.bits == bits,
    {
        GrowthFactor { bits }
    }

    /// The raw bit pattern.
    pub fn to_bits(self) -> (r: u8)
        ensures
            r == self.bits,
    {
        self.bits
    }

    /// The same numeric value in the 8.8 domain.
    pub fn to_attr_value(self) -> (r: AttrValue)
        ensures
            r.bits == self.bits as int * 2,
    {
        AttrValue { bits: (self.bits as u16) * 2 }
    }
}

} // verus!
