//! Double-precision numbers, held as their IEEE 754 bits.
//!
//! Seconds, volumes and speeds are doubles. The library carries them, compares
//! them and bounds them; adding and multiplying them is the caller's. `Double`
//! holds the 64 bits of the `binary64` format, so a value passes through
//! unchanged, and its order is the order of integers.
use vstd::arithmetic::div_mod::lemma_div_denominator;
use vstd::arithmetic::div_mod::lemma_div_is_ordered_by_denominator;
use vstd::arithmetic::power2::lemma2_to64;
use vstd::arithmetic::power2::lemma_pow2_pos;
use vstd::arithmetic::power2::lemma_pow2_strictly_increases;
use vstd::arithmetic::power2::lemma_pow2_unfold;
use vstd::arithmetic::power2::pow2;
use vstd::prelude::*;

verus! {

/// The least bit pattern, sign bit aside, above which a double is no number.
pub const INFINITY_BITS: u64 = 0x7ff0_0000_0000_0000;

/// The sign bit.
pub const SIGN_BIT: u64 = 0x8000_0000_0000_0000;

/// A double-precision number.
///
/// `==` compares the bits: it tells `0.0` from `-0.0`, and a value that is not a
/// number equals itself.
#[derive(Debug, Clone, Copy, PartialEq, Eq, Structural)]
pub struct Double {
    pub bits: u64,
}

impl Double {
    /// The bits without the sign.
    pub open spec fn magnitude(self) -> int {
        if self.bits >= SIGN_BIT {
            self.bits - SIGN_BIT
        } else {
            self.bits as int
        }
    }

    /// The value is no number.
    pub open spec fn is_nan(self) -> bool {
        self.magnitude() > INFINITY_BITS
    }

    /// An integer that stands for the value in the order of numbers: `x < y`
    /// exactly if the rank of `x` is less than that of `y`. Both zeros have
    /// rank 0.
    pub open spec fn rank(self) -> int {
        if self.bits >= SIGN_BIT {
            -self.magnitude()
        } else {
            self.magnitude()
        }
    }

    /// `self >= other` on numbers; false where either is no number.
    pub open spec fn at_least(self, other: Double) -> bool {
        !self.is_nan() && !other.is_nan() && self.rank() >= other.rank()
    }

    /// `self > other` on numbers; false where either is no number.
    pub open spec fn above(self, other: Double) -> bool {
        !self.is_nan() && !other.is_nan() && self.rank() > other.rank()
    }

    /// The greater of two numbers; the other one where one is no number.
    pub open spec fn greater_of(self, other: Double) -> Double {
        if other.is_nan() || self.above(other) {
            self
        } else {
            other
        }
    }

    /// The lesser of two numbers; the other one where one is no number.
    pub open spec fn lesser_of(self, other: Double) -> Double {
        if other.is_nan() || other.above(self) {
            self
        } else {
            other
        }
    }

    /// `self` moved into `low ..= high`. What is no number stays so.
    pub open spec fn clamped(self, low: Double, high: Double) -> Double {
        if low.above(self) {
            low
        } else if self.above(high) {
            high
        } else {
            self
        }
    }

    /// Whether the value is no number.
    pub fn nan(self) -> (r: bool)
        ensures
            r == self.is_nan(),
    {
        if self.bits >= SIGN_BIT {
            self.bits - SIGN_BIT > INFINITY_BITS
        } else {
            self.bits > INFINITY_BITS
        }
    }

    /// `self > other`.
    pub fn gt(self, other: Double) -> (r: bool)
        ensures
            r == self.above(other),
    {
        if self.nan() || other.nan() {
            false
        } else if self.bits >= SIGN_BIT {
            other.bits >= SIGN_BIT && self.bits < other.bits
        } else if other.bits >= SIGN_BIT {
            self.bits > 0 || other.bits > SIGN_BIT
        } else {
            self.bits > other.bits
        }
    }

    /// `self >= other`.
    pub fn ge(self, other: Double) -> (r: bool)
        ensures
            r == self.at_least(other),
    {
        !self.nan() && !other.nan() && !other.gt(self)
    }

    /// The greater of two numbers; the other one where one is no number.
    pub fn max(self, other: Double) -> (r: Double)
        ensures
            r == self.greater_of(other),
    {
        if other.nan() || self.gt(other) {
            self
        } else {
            other
        }
    }

    /// The lesser of two numbers; the other one where one is no number.
    pub fn min(self, other: Double) -> (r: Double)
        ensures
            r == self.lesser_of(other),
    {
        if other.nan() || other.gt(self) {
            self
        } else {
            other
        }
    }

    /// `self` moved into `low ..= high`.
    pub fn clamp(self, low: Double, high: Double) -> (r: Double)
        ensures
            r == self.clamped(low, high),
    {
        if low.gt(self) {
            low
        } else if self.gt(high) {
            high
        } else {
            self
        }
    }

    /// `self`, or zero where it is negative or no number.
    pub open spec fn floored(self) -> Double {
        self.greater_of(Double { bits: 0 })
    }

    /// `self`, or zero where it is negative or no number.
    pub fn at_least_zero(self) -> (r: Double)
        ensures
            r == self.floored(),
    {
        self.max(Double { bits: 0 })
    }
}

/// The number of bits of the fraction.
pub const FRACTION_BITS: u64 = 52;

/// One more than the greatest fraction.
pub const FRACTION_SIZE: u64 = 0x10_0000_0000_0000;

/// The exponent field of a double whose fraction has no bits after the point.
pub const UNIT_EXPONENT: u64 = 1075;

impl Double {
    /// The exponent field.
    pub open spec fn exponent(self) -> nat {
        (self.magnitude() / (FRACTION_SIZE as int)) as nat
    }

    /// The digits before and after the point, as a whole number: the value is the
    /// significand times two to the power of the exponent less the exponent of
    /// the unit.
    pub open spec fn significand(self) -> nat {
        (self.magnitude() % (FRACTION_SIZE as int) + FRACTION_SIZE) as nat
    }

    /// The whole number of a value that is not negative, rounded down, and the
    /// greatest `i64` where it is greater.
    pub open spec fn whole(self) -> int {
        let exponent = self.exponent();
        if exponent == 0 {
            0
        } else if exponent <= UNIT_EXPONENT {
            self.significand() as int / pow2((UNIT_EXPONENT - exponent) as nat) as int
        } else if self.significand() * pow2((exponent - UNIT_EXPONENT) as nat) > i64::MAX {
            i64::MAX as int
        } else {
            (self.significand() * pow2((exponent - UNIT_EXPONENT) as nat)) as int
        }
    }

    /// The whole number of a value that is not negative, rounded down, and the
    /// greatest `i64` where it is greater.
    pub fn floor_to_i64(self) -> (r: i64)
        requires
            self.bits <= INFINITY_BITS,
        ensures
            r == self.whole(),
    {
        let exponent: u64 = self.bits / FRACTION_SIZE;
        let significand: u64 = self.bits % FRACTION_SIZE + FRACTION_SIZE;
        if exponent == 0 {
            return 0;
        }
        if exponent <= UNIT_EXPONENT {
            let shift: u64 = UNIT_EXPONENT - exponent;
            let mut n: u64 = significand;
            let mut k: u64 = 0;
            proof {
                lemma2_to64();
                assert(pow2(0) == 1);
                assert(significand as int / 1 == significand) by (nonlinear_arith);
            }
            while k < shift
                invariant
                    k <= shift <= UNIT_EXPONENT,
                    n as int == significand as int / pow2(k as nat) as int,
                decreases shift - k,
            {
                proof {
                    lemma_pow2_pos(k as nat);
                    lemma_pow2_unfold((k + 1) as nat);
                    lemma_div_denominator(significand as int, pow2(k as nat) as int, 2);
                    assert(pow2((k + 1) as nat) as int == pow2(k as nat) as int * 2);
                }
                n = n / 2;
                k += 1;
            }
            proof {
                lemma_pow2_pos(shift as nat);
                lemma_div_is_ordered_by_denominator(
                    significand as int,
                    1,
                    pow2(shift as nat) as int,
                );
            }
            n as i64
        } else {
            let shift: u64 = exponent - UNIT_EXPONENT;
            let mut n: u64 = significand;
            let mut k: u64 = 0;
            proof {
                lemma2_to64();
                assert(pow2(0) == 1);
            }
            while k < shift
                invariant
                    k <= shift,
                    shift == exponent - UNIT_EXPONENT,
                    exponent == self.exponent(),
                    exponent > UNIT_EXPONENT,
                    significand == self.significand(),
                    n as int == significand as int * pow2(k as nat) as int,
                    n <= i64::MAX,
                decreases shift - k,
            {
                proof {
                    lemma_pow2_unfold((k + 1) as nat);
                    assert(significand as int * (2 * pow2(k as nat)) as int == 2 * (
                    significand as int * pow2(k as nat) as int)) by (nonlinear_arith);
                }
                if n > 0x3fff_ffff_ffff_ffff {
                    proof {
                        if k + 1 < shift {
                            lemma_pow2_strictly_increases((k + 1) as nat, shift as nat);
                        }
                        assert(significand as int * pow2(shift as nat) as int >= significand as int
                            * pow2((k + 1) as nat) as int) by (nonlinear_arith)
                            requires
                                pow2(shift as nat) >= pow2((k + 1) as nat),
                        ;
                    }
                    return i64::MAX;
                }
                n = n * 2;
                k += 1;
            }
            n as i64
        }
    }
}

/// Flooring at zero always gives a number that is not negative.
pub proof fn law_floored_is_not_negative(x: Double)
    ensures
        x.floored().at_least(Double { bits: 0 }),
{
}

/// A number within bounds is clamped to itself; any number is clamped into the
/// bounds.
pub proof fn law_clamp_stays_within(x: Double, low: Double, high: Double)
    requires
        high.at_least(low),
    ensures
        !x.is_nan() ==> x.clamped(low, high).at_least(low) && high.at_least(x.clamped(low, high)),
        x.at_least(low) && high.at_least(x) ==> x.clamped(low, high) == x,
{
}

/// Numbers are ordered: of two each is at least the other or below it, and what is
/// between is transitive. What is no number is in no order.
pub proof fn law_numbers_are_ordered(x: Double, y: Double, z: Double)
    ensures
        !x.is_nan() && !y.is_nan() ==> x.at_least(y) || y.above(x),
        x.above(y) <==> x.at_least(y) && !y.at_least(x),
        x.at_least(y) && y.at_least(z) ==> x.at_least(z),
        x.is_nan() ==> !x.at_least(y) && !y.at_least(x) && !x.above(y) && !y.above(x),
{
}

/// The order of the bits: among those below the sign bit more is greater; a number
/// with the sign bit is not above one without it, and among those more is less; both
/// zeros are equal.
pub proof fn law_order_is_that_of_the_bits(x: Double, y: Double)
    requires
        !x.is_nan(),
        !y.is_nan(),
    ensures
        x.bits < 0x8000_0000_0000_0000 && y.bits < 0x8000_0000_0000_0000 ==> (x.above(y) <==> x.bits
            > y.bits),
        x.bits >= 0x8000_0000_0000_0000 && y.bits >= 0x8000_0000_0000_0000 ==> (x.above(y)
            <==> x.bits < y.bits),
        x.bits >= 0x8000_0000_0000_0000 && y.bits < 0x8000_0000_0000_0000 ==> y.at_least(x),
        x.bits == 0x8000_0000_0000_0000 && y.bits == 0 ==> x.at_least(y),
{
}

/// The greater of two is one of them and no less than either; the lesser is the same
/// the other way. What is no number loses against a number.
pub proof fn law_greater_and_lesser(x: Double, y: Double)
    ensures
        x.greater_of(y) == x || x.greater_of(y) == y,
        x.lesser_of(y) == x || x.lesser_of(y) == y,
        !x.is_nan() ==> x.greater_of(y).at_least(x) && x.at_least(x.lesser_of(y)),
        !y.is_nan() ==> x.greater_of(y).at_least(y) && y.at_least(x.lesser_of(y)),
{
}

/// A position that is positive is kept when it is bounded from below by the start, and
/// any other becomes the start.
pub proof fn law_floored_keeps_positive_numbers(x: Double)
    ensures
        x.above(Double { bits: 0 }) ==> x.floored() == x,
        !x.above(Double { bits: 0 }) ==> x.floored() == (Double { bits: 0 }),
{
}

/// A number that is clamped is the bound that it is beyond, or itself.
pub proof fn law_clamp_gives_the_bound_or_the_number(x: Double, low: Double, high: Double)
    requires
        high.at_least(low),
    ensures
        low.above(x) ==> x.clamped(low, high) == low,
        x.above(high) ==> x.clamped(low, high) == high,
        x.is_nan() ==> x.clamped(low, high) == x,
{
}

/// The whole part of a number below `2^53`: the number is its fraction of 53 bits times
/// a power of two, and lies between the whole part and the next.
pub proof fn law_whole_part_brackets(x: Double)
    requires
        x.bits <= INFINITY_BITS,
        0 < x.bits / 0x10_0000_0000_0000,
        x.bits / 0x10_0000_0000_0000 <= 1075,
    ensures
        ({
            let unit = pow2((1075 - x.bits / 0x10_0000_0000_0000) as nat) as int;
            let fraction = x.bits % 0x10_0000_0000_0000 + 0x10_0000_0000_0000;
            x.whole() * unit <= fraction < (x.whole() + 1) * unit
        }),
{
    let unit = pow2((1075 - x.bits / 0x10_0000_0000_0000) as nat) as int;
    let fraction = x.bits % 0x10_0000_0000_0000 + 0x10_0000_0000_0000;
    lemma_pow2_pos((1075 - x.bits / 0x10_0000_0000_0000) as nat);
    assert(x.whole() == fraction / unit);
    assert(fraction / unit * unit <= fraction < (fraction / unit + 1) * unit) by (nonlinear_arith)
        requires
            unit > 0,
    ;
}

/// The whole part of the other numbers: of one below the least normal number it is zero,
/// and of one from `2^53` on the number itself, or the greatest integer where that is
/// less.
pub proof fn law_whole_part_of_small_and_large(x: Double)
    requires
        x.bits <= INFINITY_BITS,
    ensures
        x.bits < 0x10_0000_0000_0000 ==> x.whole() == 0,
        x.bits / 0x10_0000_0000_0000 > 1075 ==> ({
            let number = (x.bits % 0x10_0000_0000_0000 + 0x10_0000_0000_0000) * pow2(
                (x.bits / 0x10_0000_0000_0000 - 1075) as nat,
            );
            x.whole() <= number && x.whole() <= i64::MAX && (x.whole() == number || x.whole()
                == i64::MAX)
        }),
{
}

/// The sign stands apart from the rest of the bits: whether a value is a number does not
/// depend on it, both zeros rank alike, and a negative number ranks as far below zero as
/// the positive one above it.
pub proof fn law_sign_stands_apart(positive: Double, negative: Double)
    requires
        negative.bits == positive.bits + 0x8000_0000_0000_0000,
    ensures
        positive.is_nan() <==> positive.bits > 0x7ff0_0000_0000_0000,
        negative.is_nan() <==> positive.is_nan(),
        positive.rank() == positive.bits,
        negative.rank() == -positive.bits,
{
}

}
