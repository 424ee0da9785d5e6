//! IEEE 754 double precision numbers, held by their bits.
//!
//! Timeouts and the backoff multiplier reach the controller as such numbers.
//! The controller only has to tell which of them it accepts, which it reads
//! off the bits; arithmetic on them is left to the caller.

use vstd::arithmetic::power2::lemma_pow2_adds;
use vstd::arithmetic::power2::lemma_pow2_pos;
use vstd::arithmetic::power2::lemma_pow2_strictly_increases;
use vstd::arithmetic::power2::pow2;
use vstd::prelude::*;

verus! {

/// A double precision number: one sign bit, eleven exponent bits and fifty-two
/// fraction bits, from the most significant bit down.
#[derive(Clone, Copy, Debug, PartialEq, Eq, Structural)]
pub struct Binary64 {
    pub bits: u64,
}

impl Binary64 {
    /// The sign bit.
    pub open spec fn sign(self) -> bool {
        self.bits >= 0x8000_0000_0000_0000
    }

    /// All bits but the sign bit.
    pub open spec fn magnitude(self) -> int {
        if self.sign() {
            self.bits - 0x8000_0000_0000_0000
        } else {
            self.bits as int
        }
    }

    /// The exponent field.
    pub open spec fn exponent(self) -> int {
        self.magnitude() / 0x10_0000_0000_0000
    }

    /// The fraction field.
    pub open spec fn fraction(self) -> int {
        self.magnitude() % 0x10_0000_0000_0000
    }

    /// Neither an infinity nor a NaN.
    pub open spec fn finite(self) -> bool {
        self.exponent() < 0x7ff
    }

    /// Not below zero; negative zero is not below zero.
    pub open spec fn non_negative(self) -> bool {
        !self.sign() || self.magnitude() == 0
    }

    /// A finite number, at least one.
    pub open spec fn finite_at_least_one(self) -> bool {
        self.finite() && !self.sign() && self.exponent() >= 1023
    }

    /// A finite number that is not below zero.
    pub open spec fn finite_non_negative(self) -> bool {
        self.finite() && self.non_negative()
    }

    /// Below two to the power of sixty-four.
    pub open spec fn below_two_pow_64(self) -> bool {
        self.sign() || self.exponent() < 1087
    }

    /// The value of a finite number, in units of two to the power of -1074,
    /// the smallest positive number there is.
    pub open spec fn units(self) -> int {
        let size = if self.exponent() == 0 {
            self.fraction()
        } else {
            (0x10_0000_0000_0000 + self.fraction()) * pow2((self.exponent() - 1) as nat)
        };
        if self.sign() {
            -size
        } else {
            size
        }
    }

    pub fn is_finite_at_least_one(&self) -> (yes: bool)
        ensures
            yes == self.finite_at_least_one(),
    {
        0x3ff0_0000_0000_0000 <= self.bits && self.bits < 0x7ff0_0000_0000_0000
    }

    pub fn is_finite_non_negative(&self) -> (yes: bool)
        ensures
            yes == self.finite_non_negative(),
    {
        self.bits < 0x7ff0_0000_0000_0000 || self.bits == 0x8000_0000_0000_0000
    }

    pub fn is_below_two_pow_64(&self) -> (yes: bool)
        ensures
            yes == self.below_two_pow_64(),
    {
        self.bits < 0x43f0_0000_0000_0000 || self.bits >= 0x8000_0000_0000_0000
    }
}

/// A number with a non-zero exponent field and no sign lies between the power
/// of two that the field stands for and the next one.
proof fn lemma_binade(number: Binary64)
    requires
        !number.sign(),
        number.exponent() >= 1,
    ensures
        pow2((number.exponent() + 51) as nat) <= number.units() < pow2(
            (number.exponent() + 52) as nat,
        ),
{
    let low = (number.exponent() - 1) as nat;
    let fraction = number.fraction();
    vstd::arithmetic::power2::lemma2_to64_rest();
    lemma_pow2_pos(low);
    lemma_pow2_adds(52, low);
    lemma_pow2_adds(53, low);
    assert(0x10_0000_0000_0000 == pow2(52));
    assert(0x20_0000_0000_0000 == pow2(53));
    assert(0 <= fraction < 0x10_0000_0000_0000);
    let unit = pow2(low) as int;
    assert(0x10_0000_0000_0000 * unit <= (0x10_0000_0000_0000 + fraction) * unit
        < 0x20_0000_0000_0000 * unit) by (nonlinear_arith)
        requires
            0 <= fraction < 0x10_0000_0000_0000,
            unit > 0,
    ;
}

/// Powers of two grow with their exponents.
proof fn lemma_pow2_grows(low: nat, high: nat)
    requires
        low <= high,
    ensures
        pow2(low) <= pow2(high),
{
    if low < high {
        lemma_pow2_strictly_increases(low, high);
    }
}

/// A number without a sign and with a zero exponent field is below every
/// power of two from two to the power of fifty-two up.
proof fn lemma_subnormal(number: Binary64, bound: nat)
    requires
        !number.sign(),
        number.exponent() == 0,
        bound >= 52,
    ensures
        0 <= number.units() < pow2(bound),
{
    vstd::arithmetic::power2::lemma2_to64_rest();
    lemma_pow2_grows(52, bound);
    assert(number.magnitude() == number.fraction());
}

/// The test for "finite and at least one" agrees with the value: among the
/// finite numbers, it accepts those of at least one and no others.
pub proof fn law_at_least_one_by_value(number: Binary64)
    requires
        number.finite(),
    ensures
        number.finite_at_least_one() <==> number.units() >= pow2(1074),
{
    lemma_pow2_pos(1074);
    if number.sign() {
        lemma_sign_flips_value(number);
    } else if number.exponent() == 0 {
        lemma_subnormal(number, 1074);
    } else {
        lemma_binade(number);
        if number.exponent() >= 1023 {
            lemma_pow2_grows(1074, (number.exponent() + 51) as nat);
        } else {
            lemma_pow2_grows((number.exponent() + 52) as nat, 1074);
        }
    }
}

/// A number with the sign bit is not above zero, and is zero only when nothing
/// but the sign bit is set.
proof fn lemma_sign_flips_value(number: Binary64)
    requires
        number.sign(),
    ensures
        number.units() <= 0,
        number.units() == 0 <==> number.magnitude() == 0,
{
    if number.exponent() == 0 {
        assert(number.magnitude() == number.fraction());
    } else {
        let low = (number.exponent() - 1) as nat;
        let fraction = number.fraction();
        let unit = pow2(low) as int;
        lemma_pow2_pos(low);
        assert((0x10_0000_0000_0000 + fraction) * unit > 0) by (nonlinear_arith)
            requires
                0 <= fraction,
                unit > 0,
        ;
    }
}

/// The test for "not below zero" agrees with the value.
pub proof fn law_non_negative_by_value(number: Binary64)
    requires
        number.finite(),
    ensures
        number.non_negative() <==> number.units() >= 0,
{
    if number.sign() {
        lemma_sign_flips_value(number);
    } else if number.exponent() == 0 {
        lemma_subnormal(number, 52);
    } else {
        lemma_binade(number);
        lemma_pow2_pos((number.exponent() + 51) as nat);
    }
}

/// The test for "below two to the power of sixty-four" agrees with the value.
pub proof fn law_below_two_pow_64_by_value(number: Binary64)
    requires
        number.finite(),
    ensures
        number.below_two_pow_64() <==> number.units() < pow2(1138),
{
    lemma_pow2_pos(1138);
    if number.sign() {
        lemma_sign_flips_value(number);
    } else if number.exponent() == 0 {
        lemma_subnormal(number, 1138);
    } else {
        lemma_binade(number);
        if number.exponent() >= 1087 {
            lemma_pow2_grows(1138, (number.exponent() + 51) as nat);
        } else {
            lemma_pow2_grows((number.exponent() + 52) as nat, 1138);
        }
    }
}

/// Which bits each of the tests accepts. Leaving the sign bit aside, the numbers
/// below the first infinity are finite; one, two to the power of sixty-four and
/// the first infinity stand where they do in the order of the bits.
pub proof fn law_accepted_bits(number: Binary64)
    ensures
        number.finite() <==> number.bits < 0x7ff0_0000_0000_0000 || 0x8000_0000_0000_0000
            <= number.bits < 0xfff0_0000_0000_0000,
        number.finite_at_least_one() <==> 0x3ff0_0000_0000_0000 <= number.bits
            < 0x7ff0_0000_0000_0000,
        number.finite_non_negative() <==> number.bits < 0x7ff0_0000_0000_0000 || number.bits
            == 0x8000_0000_0000_0000,
        number.non_negative() <==> number.bits <= 0x8000_0000_0000_0000,
        number.below_two_pow_64() <==> number.bits < 0x43f0_0000_0000_0000 || number.bits
            >= 0x8000_0000_0000_0000,
{
}

/// What values are: zero has none, each number without a sign lies above the one
/// before it by the spacing of the numbers there, and the sign bit negates.
pub proof fn law_values_step_by_step(low: Binary64, high: Binary64, negated: Binary64)
    requires
        low.bits < high.bits < 0x7ff0_0000_0000_0000,
        high.bits == low.bits + 1,
        negated.bits == low.bits + 0x8000_0000_0000_0000,
    ensures
        low.bits == 0 ==> low.units() == 0,
        high.units() - low.units() == pow2(
            if low.bits < 0x10_0000_0000_0000 {
                0
            } else {
                (low.bits / 0x10_0000_0000_0000 - 1) as nat
            },
        ),
        negated.units() == -low.units(),
{
    vstd::arithmetic::power2::lemma2_to64();
    vstd::arithmetic::power2::lemma2_to64_rest();
    let step = low.bits as int / 0x10_0000_0000_0000;
    let fraction = low.fraction();
    assert(low.exponent() == step);
    assert(negated.magnitude() == low.magnitude());
    if step == 0 {
        assert(low.units() == fraction);
        if fraction == 0xf_ffff_ffff_ffff {
            assert(high.exponent() == 1 && high.fraction() == 0);
            assert(high.units() == 0x10_0000_0000_0000 * pow2(0));
        } else {
            assert(high.exponent() == 0 && high.fraction() == fraction + 1);
        }
    } else {
        let unit = pow2((step - 1) as nat) as int;
        assert(low.units() == (0x10_0000_0000_0000 + fraction) * unit);
        if fraction == 0xf_ffff_ffff_ffff {
            assert(high.exponent() == step + 1 && high.fraction() == 0);
            lemma_pow2_adds(1, (step - 1) as nat);
            assert(pow2(step as nat) == 2 * unit);
            assert(high.units() == 0x10_0000_0000_0000 * (2 * unit));
            assert(0x10_0000_0000_0000 * (2 * unit) - (0x10_0000_0000_0000 + 0xf_ffff_ffff_ffff)
                * unit == unit) by (nonlinear_arith);
        } else {
            assert(high.exponent() == step && high.fraction() == fraction + 1);
            assert(high.units() == (0x10_0000_0000_0000 + (fraction + 1)) * unit);
            assert((0x10_0000_0000_0000 + (fraction + 1)) * unit - (0x10_0000_0000_0000 + fraction)
                * unit == unit) by (nonlinear_arith);
        }
        assert(low.bits / 0x10_0000_0000_0000 == step);
    }
}

} // verus!
