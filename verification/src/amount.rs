//! Exact decimal amounts.
//!
//! An [`Amount`] is a decimal number `mantissa / 10^scale` whose mantissa fits
//! in 96 bits and whose scale is at most 28. Its mathematical model is
//! [`Fixed`]; the number it denotes is `Fixed::units`, counted in units of
//! `10^-28` so that every amount is an integer.
use vstd::prelude::*;
use crate::decimal::{difference, less_than, rounded_difference, rounded_sum, same_value, sum};

verus! {

/// The largest scale of an amount.
pub const MAX_SCALE: u32 = 28;

/// The mantissa of an amount lies strictly between `-MANTISSA_LIMIT` and
/// `MANTISSA_LIMIT`, which is `2^96`.
pub const MANTISSA_LIMIT: i128 = 79_228_162_514_264_337_593_543_950_336;

/// Ten to the power `n`.
///
/// The powers that a scale can call for are written out, so that the value
/// of an amount at a given scale needs no unfolding.
pub open spec fn pow10(n: nat) -> int
    decreases n,
{
    if n == 0 {
        1
    } else if n == 1 {
        10
    } else if n == 2 {
        100
    } else if n == 3 {
        1_000
    } else if n == 4 {
        10_000
    } else if n == 5 {
        100_000
    } else if n == 6 {
        1_000_000
    } else if n == 7 {
        10_000_000
    } else if n == 8 {
        100_000_000
    } else if n == 9 {
        1_000_000_000
    } else if n == 10 {
        10_000_000_000
    } else if n == 11 {
        100_000_000_000
    } else if n == 12 {
        1_000_000_000_000
    } else if n == 13 {
        10_000_000_000_000
    } else if n == 14 {
        100_000_000_000_000
    } else if n == 15 {
        1_000_000_000_000_000
    } else if n == 16 {
        10_000_000_000_000_000
    } else if n == 17 {
        100_000_000_000_000_000
    } else if n == 18 {
        1_000_000_000_000_000_000
    } else if n == 19 {
        10_000_000_000_000_000_000
    } else if n == 20 {
        100_000_000_000_000_000_000
    } else if n == 21 {
        1_000_000_000_000_000_000_000
    } else if n == 22 {
        10_000_000_000_000_000_000_000
    } else if n == 23 {
        100_000_000_000_000_000_000_000
    } else if n == 24 {
        1_000_000_000_000_000_000_000_000
    } else if n == 25 {
        10_000_000_000_000_000_000_000_000
    } else if n == 26 {
        100_000_000_000_000_000_000_000_000
    } else if n == 27 {
        1_000_000_000_000_000_000_000_000_000
    } else if n == 28 {
        10_000_000_000_000_000_000_000_000_000
    } else {
        10 * pow10((n - 1) as nat)
    }
}

/// The decimal number `mantissa / 10^scale`.
pub struct Fixed {
    pub mantissa: int,
    pub scale: nat,
}

impl Fixed {
    /// The mantissa fits in 96 bits and the scale is at most 28.
    pub open spec fn wf(self) -> bool {
        &&& -MANTISSA_LIMIT < self.mantissa < MANTISSA_LIMIT
        &&& self.scale <= MAX_SCALE
    }

    /// The number itself, as a count of units of `10^-28`.
    pub open spec fn units(self) -> int {
        self.mantissa * pow10((MAX_SCALE - self.scale) as nat)
    }

    /// The mantissa that the same number has at the larger scale `scale`.
    pub open spec fn mantissa_at(self, scale: nat) -> int
        recommends
            self.scale <= scale,
    {
        self.mantissa * pow10((scale - self.scale) as nat)
    }

    /// The number with the opposite sign.
    pub open spec fn negated(self) -> Fixed {
        Fixed { mantissa: -self.mantissa, scale: self.scale }
    }

    /// The larger of the two scales.
    pub open spec fn common_scale(self, rhs: Fixed) -> nat {
        if self.scale >= rhs.scale {
            self.scale
        } else {
            rhs.scale
        }
    }

    /// This number is the smaller one: its mantissa is, at the larger of the
    /// two scales.
    pub open spec fn less_than(self, rhs: Fixed) -> bool {
        let scale = self.common_scale(rhs);
        self.mantissa_at(scale) < rhs.mantissa_at(scale)
    }

    /// The two are the same number: their mantissas are equal at the larger
    /// of the two scales.
    pub open spec fn same_number(self, rhs: Fixed) -> bool {
        let scale = self.common_scale(rhs);
        self.mantissa_at(scale) == rhs.mantissa_at(scale)
    }

    /// The sum is computed without rounding: one side is zero, or the sum of
    /// the two mantissas at the larger scale fits in 96 bits.
    pub open spec fn adds_exactly(self, rhs: Fixed) -> bool {
        let scale = self.common_scale(rhs);
        ||| self.mantissa == 0
        ||| rhs.mantissa == 0
        ||| -MANTISSA_LIMIT < self.mantissa_at(scale) + rhs.mantissa_at(scale) < MANTISSA_LIMIT
    }

    /// The difference is computed without rounding.
    pub open spec fn subtracts_exactly(self, rhs: Fixed) -> bool {
        self.adds_exactly(rhs.negated())
    }

    /// The decimal sum `self + rhs`; `None` where it overflows.
    ///
    /// Zero leaves the other side as it is. Otherwise, where the sum of the
    /// mantissas at the larger scale fits in 96 bits, that is the sum. Beyond
    /// that the sum is rounded to fewer decimal places, or overflows.
    pub open spec fn plus(self, rhs: Fixed) -> Option<Fixed> {
        let scale = self.common_scale(rhs);
        if self.mantissa == 0 {
            Some(rhs)
        } else if rhs.mantissa == 0 {
            Some(self)
        } else if self.adds_exactly(rhs) {
            Some(Fixed { mantissa: self.mantissa_at(scale) + rhs.mantissa_at(scale), scale })
        } else {
            match rounded_sum(self.mantissa, self.scale, rhs.mantissa, rhs.scale) {
                Some((mantissa, scale)) => Some(Fixed { mantissa, scale }),
                None => None,
            }
        }
    }

    /// The decimal difference `self - rhs`; `None` where it overflows.
    ///
    /// Exact where `self + (-rhs)` is; rounded to fewer decimal places, or
    /// overflowing, beyond that.
    pub open spec fn minus(self, rhs: Fixed) -> Option<Fixed> {
        let scale = self.common_scale(rhs);
        if self.mantissa == 0 {
            Some(rhs.negated())
        } else if rhs.mantissa == 0 {
            Some(self)
        } else if self.subtracts_exactly(rhs) {
            Some(Fixed { mantissa: self.mantissa_at(scale) - rhs.mantissa_at(scale), scale })
        } else {
            match rounded_difference(self.mantissa, self.scale, rhs.mantissa, rhs.scale) {
                Some((mantissa, scale)) => Some(Fixed { mantissa, scale }),
                None => None,
            }
        }
    }
}

/// Each power of ten is ten times the one before.
pub proof fn lemma_pow10_step(n: nat)
    requires
        n > 0,
    ensures
        pow10(n) == 10 * pow10((n - 1) as nat),
{
}

/// Every power of ten is positive.
pub proof fn lemma_pow10_positive(n: nat)
    ensures
        pow10(n) > 0,
    decreases n,
{
    if n > 0 {
        lemma_pow10_step(n);
        lemma_pow10_positive((n - 1) as nat);
    }
}

/// Exponents add up under multiplication.
pub proof fn lemma_pow10_adds(a: nat, b: nat)
    ensures
        pow10(a + b) == pow10(a) * pow10(b),
    decreases a,
{
    if a > 0 {
        lemma_pow10_adds((a - 1) as nat, b);
        lemma_pow10_step(a);
        lemma_pow10_step(a + b);
        assert(pow10(a + b) == 10 * pow10(((a - 1) as nat) + b));
        assert(10 * (pow10((a - 1) as nat) * pow10(b)) == (10 * pow10((a - 1) as nat)) * pow10(b))
            by (nonlinear_arith);
    }
}

/// Writing a number at a larger scale does not change it.
pub proof fn lemma_units_at_scale(x: Fixed, scale: nat)
    requires
        x.scale <= scale <= MAX_SCALE,
    ensures
        x.mantissa_at(scale) * pow10((MAX_SCALE - scale) as nat) == x.units(),
{
    let up = (scale - x.scale) as nat;
    let rest = (MAX_SCALE - scale) as nat;
    lemma_pow10_adds(up, rest);
    assert((x.mantissa * pow10(up)) * pow10(rest) == x.mantissa * (pow10(up) * pow10(rest)))
        by (nonlinear_arith);
}

/// Comparing mantissas at the larger scale compares the numbers.
pub proof fn lemma_order_is_by_units(a: Fixed, b: Fixed)
    requires
        a.scale <= MAX_SCALE,
        b.scale <= MAX_SCALE,
    ensures
        a.less_than(b) <==> a.units() < b.units(),
        a.same_number(b) <==> a.units() == b.units(),
{
    let scale = a.common_scale(b);
    let rest = pow10((MAX_SCALE - scale) as nat);
    lemma_units_at_scale(a, scale);
    lemma_units_at_scale(b, scale);
    lemma_pow10_positive((MAX_SCALE - scale) as nat);
    let x = a.mantissa_at(scale);
    let y = b.mantissa_at(scale);
    assert(x < y <==> x * rest < y * rest) by (nonlinear_arith)
        requires
            rest > 0,
    ;
    assert(x == y <==> x * rest == y * rest) by (nonlinear_arith)
        requires
            rest > 0,
    ;
}

/// Where a sum is computed without rounding, it is the sum of the two
/// numbers, a valid amount, at a scale no larger than theirs.
pub proof fn lemma_plus_exact(a: Fixed, b: Fixed)
    requires
        a.wf(),
        b.wf(),
        a.adds_exactly(b),
    ensures
        a.plus(b) matches Some(c) && c.wf() && c.units() == a.units() + b.units() && c.scale
            <= a.common_scale(b),
{
    let scale = a.common_scale(b);
    if a.mantissa != 0 && b.mantissa != 0 {
        lemma_units_at_scale(a, scale);
        lemma_units_at_scale(b, scale);
        let rest = pow10((MAX_SCALE - scale) as nat);
        assert((a.mantissa_at(scale) + b.mantissa_at(scale)) * rest == a.mantissa_at(scale) * rest
            + b.mantissa_at(scale) * rest) by (nonlinear_arith);
    }
}

/// Where a difference is computed without rounding, it is the difference of
/// the two numbers, a valid amount, at a scale no larger than theirs.
pub proof fn lemma_minus_exact(a: Fixed, b: Fixed)
    requires
        a.wf(),
        b.wf(),
        a.subtracts_exactly(b),
    ensures
        a.minus(b) matches Some(c) && c.wf() && c.units() == a.units() - b.units() && c.scale
            <= a.common_scale(b),
{
    let scale = a.common_scale(b);
    let rest = pow10((MAX_SCALE - scale) as nat);
    if a.mantissa == 0 {
        assert((-b.mantissa) * pow10((MAX_SCALE - b.scale) as nat) == -(b.mantissa * pow10(
            (MAX_SCALE - b.scale) as nat,
        ))) by (nonlinear_arith);
    } else if b.mantissa != 0 {
        lemma_units_at_scale(a, scale);
        lemma_units_at_scale(b, scale);
        assert(b.negated().mantissa_at(scale) == -b.mantissa_at(scale)) by (nonlinear_arith)
            requires
                b.negated().mantissa_at(scale) == (-b.mantissa) * pow10((scale - b.scale) as nat),
                b.mantissa_at(scale) == b.mantissa * pow10((scale - b.scale) as nat),
        ;
        assert((a.mantissa_at(scale) - b.mantissa_at(scale)) * rest == a.mantissa_at(scale) * rest
            - b.mantissa_at(scale) * rest) by (nonlinear_arith);
    }
}

/// An exact decimal amount of funds.
#[derive(Clone, Copy, Debug)]
pub struct Amount {
    pub(crate) mantissa: i128,
    pub(crate) scale: u32,
}

impl View for Amount {
    type V = Fixed;

    closed spec fn view(&self) -> Fixed {
        Fixed { mantissa: self.mantissa as int, scale: self.scale as nat }
    }
}

impl PartialEq for Amount {
    /// Two amounts are equal where they denote the same number, whatever
    /// their scales.
    fn eq(&self, other: &Amount) -> (r: bool) {
        proof {
            use_type_invariant(self);
            use_type_invariant(other);
        }
        same_value(*self, *other)
    }
}

impl vstd::std_specs::cmp::PartialEqSpecImpl for Amount {
    open spec fn obeys_eq_spec() -> bool {
        true
    }

    open spec fn eq_spec(&self, other: &Amount) -> bool {
        self@.same_number(other@)
    }
}

impl Amount {
    #[verifier::type_invariant]
    spec fn inv(self) -> bool {
        self@.wf()
    }

    /// The amount `mantissa / 10^scale`, if the mantissa fits in 96 bits and
    /// the scale is at most 28.
    pub fn new(mantissa: i128, scale: u32) -> (r: Option<Amount>)
        ensures
            r is Some <==> (Fixed { mantissa: mantissa as int, scale: scale as nat }).wf(),
            r matches Some(a) ==> a@ == (Fixed { mantissa: mantissa as int, scale: scale as nat }),
    {
        if -MANTISSA_LIMIT < mantissa && mantissa < MANTISSA_LIMIT && scale <= MAX_SCALE {
            Some(Amount { mantissa, scale })
        } else {
            None
        }
    }

    /// The amount zero, with scale 0.
    pub fn zero() -> (r: Amount)
        ensures
            r@ == (Fixed { mantissa: 0, scale: 0 }),
    {
        Amount { mantissa: 0, scale: 0 }
    }

    /// The decimal sum of two amounts, `None` where it overflows.
    pub fn checked_add(self, rhs: Amount) -> (r: Option<Amount>)
        ensures
            self@.plus(rhs@) == (match r {
                Some(c) => Some(c@),
                None => None,
            }),
    {
        proof {
            use_type_invariant(&self);
            use_type_invariant(&rhs);
        }
        sum(self, rhs)
    }

    /// The decimal difference of two amounts, `None` where it overflows.
    pub fn checked_sub(self, rhs: Amount) -> (r: Option<Amount>)
        ensures
            self@.minus(rhs@) == (match r {
                Some(c) => Some(c@),
                None => None,
            }),
    {
        proof {
            use_type_invariant(&self);
            use_type_invariant(&rhs);
        }
        difference(self, rhs)
    }

    /// Whether this amount is the smaller number.
    pub fn less_than(self, rhs: Amount) -> (r: bool)
        ensures
            r == self@.less_than(rhs@),
    {
        proof {
            use_type_invariant(&self);
            use_type_invariant(&rhs);
        }
        less_than(self, rhs)
    }

    /// The mantissa `m` of the amount `m / 10^e`.
    pub fn mantissa(&self) -> (r: i128)
        ensures
            r == self@.mantissa,
            self@.wf(),
    {
        proof {
            use_type_invariant(self);
        }
        self.mantissa
    }

    /// The scale `e` of the amount `m / 10^e`.
    pub fn scale(&self) -> (r: u32)
        ensures
            r == self@.scale,
            self@.wf(),
    {
        proof {
            use_type_invariant(self);
        }
        self.scale
    }
}

} // verus!
