//! IEEE 754 numbers carried by their bit patterns.
//!
//! The library stores and compares coordinates but never does arithmetic on
//! them, so a number is kept as the integer that encodes it. A finite
//! binary32 number is `significand × 2^binary_exponent`, negated when the
//! sign bit is set; the functions below decide comparisons from that reading
//! with integer arithmetic alone.

use vstd::arithmetic::power2::{
    lemma2_to64, lemma_pow2_pos, lemma_pow2_strictly_increases, pow2,
};
use vstd::bits::{lemma_u64_pow2_no_overflow, lemma_u64_shl_is_mul};
use vstd::prelude::*;

verus! {

/// A binary32 number, held as its bit pattern.
///
/// The derived `==` compares bit patterns; [`Float32::ieee_eq`] compares the
/// numbers.
#[derive(Clone, Copy, Debug, PartialEq, Eq, Structural, Hash)]
pub struct Float32 {
    pub bits: u32,
}

/// A binary64 number, held as its bit pattern. The library only carries it.
#[derive(Clone, Copy, Debug, PartialEq, Eq, Structural, Hash)]
pub struct Float64 {
    pub bits: u64,
}

impl Float64 {
    pub fn from_bits(bits: u64) -> (r: Self)
        ensures
            r.bits == bits,
    {
        Float64 { bits }
    }

    pub fn to_bits(self) -> (r: u64)
        ensures
            r == self.bits,
    {
        self.bits
    }
}

impl Float32 {
    /// The sign bit.
    pub open spec fn is_sign_negative(self) -> bool {
        self.bits >= 0x8000_0000
    }

    /// The eight exponent bits.
    pub open spec fn exponent_field(self) -> int {
        (self.bits as int / 0x80_0000) % 0x100
    }

    /// The twenty-three fraction bits.
    pub open spec fn fraction_field(self) -> int {
        self.bits as int % 0x80_0000
    }

    pub open spec fn is_nan(self) -> bool {
        self.exponent_field() == 0xff && self.fraction_field() != 0
    }

    /// Neither an infinity nor a NaN.
    pub open spec fn is_finite(self) -> bool {
        self.exponent_field() != 0xff
    }

    /// The integer that is scaled by a power of two; it carries the implicit
    /// leading bit of a normal number.
    pub open spec fn significand(self) -> int {
        if self.exponent_field() == 0 {
            self.fraction_field()
        } else {
            0x80_0000 + self.fraction_field()
        }
    }

    /// The power of two that scales the significand.
    pub open spec fn binary_exponent(self) -> int {
        if self.exponent_field() == 0 {
            -149
        } else {
            self.exponent_field() - 150
        }
    }

    /// Positive zero or negative zero.
    pub open spec fn is_zero(self) -> bool {
        self.is_finite() && self.significand() == 0
    }

    /// Numerator of the magnitude of a finite number, over [`Self::denominator`].
    pub open spec fn numerator(self) -> int {
        if self.binary_exponent() >= 0 {
            self.significand() * pow2(self.binary_exponent() as nat)
        } else {
            self.significand()
        }
    }

    /// A positive power of two such that the magnitude of a finite number is
    /// `numerator / denominator`.
    pub open spec fn denominator(self) -> int {
        if self.binary_exponent() >= 0 {
            1
        } else {
            pow2((-self.binary_exponent()) as nat) as int
        }
    }

    /// The number lies in the closed interval from zero to `bound`.
    pub open spec fn is_within(self, bound: int) -> bool {
        &&& self.is_finite()
        &&& self.is_zero() || !self.is_sign_negative()
        &&& self.numerator() <= bound * self.denominator()
    }

    /// Equality of the two numbers as IEEE 754 defines it: a NaN equals
    /// nothing, the two zeros equal each other.
    pub open spec fn is_ieee_eq(self, other: Float32) -> bool {
        &&& !self.is_nan()
        &&& !other.is_nan()
        &&& self.bits == other.bits || (self.is_zero() && other.is_zero())
    }

    pub fn from_bits(bits: u32) -> (r: Self)
        ensures
            r.bits == bits,
    {
        Float32 { bits }
    }

    pub fn to_bits(self) -> (r: u32)
        ensures
            r == self.bits,
    {
        self.bits
    }

    fn exponent_bits(self) -> (r: u32)
        ensures
            r == self.exponent_field(),
            r < 0x100,
    {
        (self.bits / 0x80_0000) % 0x100
    }

    fn significand_bits(self) -> (r: u32)
        ensures
            r == self.significand(),
            r < 0x100_0000,
            self.exponent_field() != 0 ==> r >= 0x80_0000,
    {
        let fraction: u32 = self.bits % 0x80_0000;
        if self.exponent_bits() == 0 {
            fraction
        } else {
            0x80_0000 + fraction
        }
    }

    pub fn nan(self) -> (r: bool)
        ensures
            r == self.is_nan(),
    {
        self.exponent_bits() == 0xff && self.bits % 0x80_0000 != 0
    }

    pub fn ieee_eq(self, other: Float32) -> (r: bool)
        ensures
            r == self.is_ieee_eq(other),
    {
        if self.nan() || other.nan() {
            false
        } else if self.bits == other.bits {
            true
        } else {
            self.exponent_bits() != 0xff && self.significand_bits() == 0
                && other.exponent_bits() != 0xff && other.significand_bits() == 0
        }
    }

    /// Decides whether the number lies between zero and `bound`, both
    /// included.
    pub fn within(self, bound: u32) -> (r: bool)
        ensures
            r == self.is_within(bound as int),
    {
        let exponent: u32 = self.exponent_bits();
        let significand: u32 = self.significand_bits();
        if exponent == 0xff {
            return false;
        }
        if significand == 0 {
            proof {
                lemma_pow2_pos((-self.binary_exponent()) as nat);
                assert(0 <= bound * self.denominator()) by (nonlinear_arith)
                    requires
                        0 <= bound,
                        0 < self.denominator(),
                ;
            }
            return true;
        }
        if self.bits >= 0x8000_0000 {
            return false;
        }
        if exponent >= 150 {
            let shift: u32 = exponent - 150;
            if shift >= 9 {
                proof {
                    lemma2_to64();
                    if shift > 9 {
                        lemma_pow2_strictly_increases(9, shift as nat);
                    }
                    assert(significand * pow2(shift as nat) >= 0x80_0000 * 512)
                        by (nonlinear_arith)
                        requires
                            significand >= 0x80_0000,
                            pow2(shift as nat) >= 512,
                    ;
                }
                false
            } else {
                let scale: u64 = power_of_two(shift);
                proof {
                    lemma2_to64();
                    lemma_pow2_strictly_increases(shift as nat, 9);
                    assert(significand * scale < 0x100_0000 * 512) by (nonlinear_arith)
                        requires
                            significand < 0x100_0000,
                            0 < scale < 512,
                    ;
                }
                widen(significand) * scale <= widen(bound)
            }
        } else {
            let shift: u32 = if exponent == 0 {
                149
            } else {
                150 - exponent
            };
            if shift >= 24 {
                proof {
                    lemma2_to64();
                    if shift > 24 {
                        lemma_pow2_strictly_increases(24, shift as nat);
                    }
                    let d: int = pow2(shift as nat) as int;
                    if bound >= 1 {
                        assert(bound * d >= d) by (nonlinear_arith)
                            requires
                                bound >= 1,
                                d > 0,
                        ;
                    } else {
                        assert(bound * d == 0) by (nonlinear_arith)
                            requires
                                bound == 0,
                        ;
                    }
                }
                bound >= 1
            } else {
                let scale: u64 = power_of_two(shift);
                proof {
                    lemma2_to64();
                    lemma_pow2_strictly_increases(shift as nat, 24);
                    assert(bound * scale < 0x1_0000_0000 * 0x100_0000) by (nonlinear_arith)
                        requires
                            bound < 0x1_0000_0000,
                            0 < scale < 0x100_0000,
                    ;
                }
                widen(significand) <= widen(bound) * scale
            }
        }
    }
}

fn widen(n: u32) -> (r: u64)
    ensures
        r == n,
{
    n as u64
}

/// Two to the power `exponent`.
fn power_of_two(exponent: u32) -> (r: u64)
    requires
        exponent < 64,
    ensures
        r == pow2(exponent as nat),
{
    proof {
        lemma_u64_pow2_no_overflow(exponent as nat);
        lemma_u64_shl_is_mul(1, exponent as u64);
    }
    1u64 << (exponent as u64)
}

} // verus!
