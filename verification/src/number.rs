//! Single-precision numbers held by their IEEE 754 bit pattern.
//!
//! Everything the readers of a genome dump need from such a number is decided
//! on the pattern alone: how two of them are ordered, whether one lies above
//! one half, and the whole number it truncates to.

use vstd::arithmetic::power2::{
    lemma2_to64, lemma_pow2_adds, lemma_pow2_pos, lemma_pow2_strictly_increases, pow2,
};
use vstd::bits::{lemma_u64_shl_is_mul, lemma_u64_shr_is_div};
use vstd::prelude::*;

verus! {

/// A single-precision number, kept as the 32 bits of its binary32 encoding:
/// one sign bit, eight exponent bits, twenty-three fraction bits.
#[derive(Clone, Copy, Debug, PartialEq, Eq, Structural)]
pub struct Single {
    pub bits: u32,
}

/// The pattern of the sign bit.
pub const SIGN_BIT: u32 = 0x8000_0000;

/// The pattern of positive infinity; larger magnitudes are not numbers.
pub const INFINITY_BITS: u32 = 0x7F80_0000;

/// The pattern of one half.
pub const HALF_BITS: u32 = 0x3F00_0000;

/// The weight of the lowest exponent bit.
pub const EXPONENT_UNIT: u32 = 0x80_0000;

impl Single {
    /// The pattern without its sign bit.
    pub open spec fn magnitude(self) -> u32 {
        if self.bits >= SIGN_BIT {
            (self.bits - SIGN_BIT) as u32
        } else {
            self.bits
        }
    }

    /// Whether the sign bit is set.
    pub open spec fn is_negative(self) -> bool {
        self.bits >= SIGN_BIT
    }

    /// Whether the pattern encodes no number at all.
    pub open spec fn is_nan(self) -> bool {
        self.magnitude() > INFINITY_BITS
    }

    /// The biased exponent, from 0 to 255.
    pub open spec fn exponent(self) -> u32 {
        self.magnitude() / EXPONENT_UNIT
    }

    /// The 24-bit significand of a normal number, hidden bit included.
    pub open spec fn significand(self) -> u64 {
        (self.magnitude() % EXPONENT_UNIT + EXPONENT_UNIT) as u64
    }

    /// An integer that grows exactly as the encoded number does. Both zeros
    /// share the rank 0.
    pub open spec fn rank(self) -> int {
        if self.is_negative() {
            -(self.magnitude() as int)
        } else {
            self.magnitude() as int
        }
    }

    /// The numeric order `self < other`; false as soon as either side is not
    /// a number.
    pub open spec fn spec_less_than(self, other: Single) -> bool {
        !self.is_nan() && !other.is_nan() && self.rank() < other.rank()
    }

    /// Whether the number is strictly greater than one half.
    pub open spec fn spec_exceeds_half(self) -> bool {
        Single { bits: HALF_BITS }.spec_less_than(self)
    }

    /// The number cut down to a whole one. A normal number is its significand
    /// times two to the power of its exponent less 150. What is not a number,
    /// and anything below one, gives 0; anything from 2^64 up gives the
    /// largest `u64`; else the fraction is dropped.
    pub open spec fn spec_truncate(self) -> u64 {
        if self.is_nan() || self.is_negative() || self.exponent() < 127 {
            0
        } else if self.exponent() >= 191 {
            u64::MAX
        } else if self.exponent() >= 150 {
            (self.significand() * pow2((self.exponent() - 150) as nat)) as u64
        } else {
            (self.significand() as nat / pow2((150 - self.exponent()) as nat)) as u64
        }
    }

    /// Wraps a bit pattern.
    pub fn from_bits(bits: u32) -> (r: Single)
        ensures
            r.bits == bits,
    {
        Single { bits }
    }

    /// The bit pattern.
    pub fn to_bits(self) -> (bits: u32)
        ensures
            bits == self.bits,
    {
        self.bits
    }

    /// Tells whether `self` is numerically below `other`.
    pub fn less_than(self, other: Single) -> (r: bool)
        ensures
            r == self.spec_less_than(other),
    {
        let a: u32 = if self.bits >= SIGN_BIT { self.bits - SIGN_BIT } else { self.bits };
        let b: u32 = if other.bits >= SIGN_BIT { other.bits - SIGN_BIT } else { other.bits };
        if a > INFINITY_BITS || b > INFINITY_BITS {
            false
        } else if self.bits >= SIGN_BIT {
            if other.bits >= SIGN_BIT {
                b < a
            } else {
                a > 0 || b > 0
            }
        } else {
            other.bits < SIGN_BIT && a < b
        }
    }

    /// Tells whether the number is strictly greater than one half.
    pub fn exceeds_half(self) -> (r: bool)
        ensures
            r == self.spec_exceeds_half(),
    {
        HALF_BITS < self.bits && self.bits <= INFINITY_BITS
    }

    /// Cuts the number down to a whole one, saturating at both ends.
    pub fn truncate(self) -> (r: u64)
        ensures
            r == self.spec_truncate(),
    {
        if self.bits >= SIGN_BIT || self.bits > INFINITY_BITS {
            return 0;
        }
        let exponent: u32 = self.bits / EXPONENT_UNIT;
        let significand: u64 = (self.bits % EXPONENT_UNIT + EXPONENT_UNIT) as u64;
        if exponent < 127 {
            0
        } else if exponent >= 191 {
            u64::MAX
        } else if exponent >= 150 {
            let shift: u64 = (exponent - 150) as u64;
            proof {
                lemma_scaled_significand_fits(significand, shift);
                lemma_u64_shl_is_mul(significand, shift);
            }
            significand << shift
        } else {
            let shift: u64 = (150 - exponent) as u64;
            proof {
                lemma_u64_shr_is_div(significand, shift);
            }
            significand >> shift
        }
    }
}

/// A significand of 24 bits, scaled by at most forty binary places, fits in
/// 64 bits.
pub proof fn lemma_scaled_significand_fits(significand: u64, shift: u64)
    requires
        significand < 0x100_0000,
        shift <= 40,
    ensures
        significand * pow2(shift as nat) <= u64::MAX,
{
    lemma2_to64();
    lemma_pow2_adds(24, shift as nat);
    if shift < 40 {
        lemma_pow2_strictly_increases((24 + shift) as nat, 64);
    }
    lemma_pow2_pos(shift as nat);
    let scale = pow2(shift as nat);
    assert(significand * scale < 0x100_0000 * scale) by (nonlinear_arith)
        requires
            significand < 0x100_0000,
            scale > 0,
    ;
}

/// The order is strict and, among numbers, total: nothing is below itself,
/// the relation is transitive and never holds both ways, and of two numbers
/// one is below the other unless they have one rank.
pub proof fn lemma_less_than_strict_order(a: Single, b: Single, c: Single)
    ensures
        !a.spec_less_than(a),
        a.spec_less_than(b) && b.spec_less_than(c) ==> a.spec_less_than(c),
        a.spec_less_than(b) ==> !b.spec_less_than(a),
        !a.is_nan() && !b.is_nan() ==> a.spec_less_than(b) || b.spec_less_than(a) || a.rank()
            == b.rank(),
{
}

} // verus!
