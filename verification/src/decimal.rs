//! The decimal arithmetic of `rust_decimal`, as this crate relies on it.
//!
//! Nothing in this module is proved: each function states what the
//! `rust_decimal` operation it calls returns, and Verus takes its word.
use vstd::prelude::*;
use rust_decimal::Decimal;
use crate::amount::Amount;

verus! {

/// What `Decimal::checked_add` returns for `m1 / 10^s1 + m2 / 10^s2` where it
/// has to round: the mantissa and scale of the result, `None` on overflow.
pub uninterp spec fn rounded_sum(m1: int, s1: nat, m2: int, s2: nat) -> Option<(int, nat)>;

/// What `Decimal::checked_sub` returns for `m1 / 10^s1 - m2 / 10^s2` where it
/// has to round: the mantissa and scale of the result, `None` on overflow.
pub uninterp spec fn rounded_difference(m1: int, s1: nat, m2: int, s2: nat) -> Option<(int, nat)>;

/// `Decimal::checked_add`.
///
/// Claims that adding zero returns the other operand unchanged; that
/// otherwise the operands are brought to the larger of their scales and,
/// where the sum of the mantissas fits in 96 bits, that sum at that scale is
/// returned; and that any other result is a valid decimal that depends on
/// the operands alone.
#[verifier::external_body]
pub(crate) fn sum(a: Amount, b: Amount) -> (r: Option<Amount>)
    requires
        a@.wf(),
        b@.wf(),
    ensures
        r is Some ==> r.unwrap()@.wf(),
        a@.adds_exactly(b@) ==> r is Some && a@.plus(b@) == Some(r.unwrap()@),
        !a@.adds_exactly(b@) ==> rounded_sum(a@.mantissa, a@.scale, b@.mantissa, b@.scale) == (match r {
            Some(c) => Some((c@.mantissa, c@.scale)),
            None => None,
        }),
{
    let x = Decimal::from_i128_with_scale(a.mantissa, a.scale);
    let y = Decimal::from_i128_with_scale(b.mantissa, b.scale);
    match x.checked_add(y) {
        Some(z) => Some(Amount { mantissa: z.mantissa(), scale: z.scale() }),
        None => None,
    }
}

/// `Decimal::checked_sub`.
///
/// Claims that subtracting from zero returns the negated operand and
/// subtracting zero the other operand unchanged; that otherwise the operands
/// are brought to the larger of their scales and, where the difference of the
/// mantissas fits in 96 bits, that difference at that scale is returned; and
/// that any other result is a valid decimal that depends on the operands
/// alone.
#[verifier::external_body]
pub(crate) fn difference(a: Amount, b: Amount) -> (r: Option<Amount>)
    requires
        a@.wf(),
        b@.wf(),
    ensures
        r is Some ==> r.unwrap()@.wf(),
        a@.subtracts_exactly(b@) ==> r is Some && a@.minus(b@) == Some(r.unwrap()@),
        !a@.subtracts_exactly(b@) ==> rounded_difference(
            a@.mantissa,
            a@.scale,
            b@.mantissa,
            b@.scale,
        ) == (match r {
            Some(c) => Some((c@.mantissa, c@.scale)),
            None => None,
        }),
{
    let x = Decimal::from_i128_with_scale(a.mantissa, a.scale);
    let y = Decimal::from_i128_with_scale(b.mantissa, b.scale);
    match x.checked_sub(y) {
        Some(z) => Some(Amount { mantissa: z.mantissa(), scale: z.scale() }),
        None => None,
    }
}

/// `<` on `Decimal`.
///
/// Claims that it compares the two numbers, whatever their scales.
#[verifier::external_body]
pub(crate) fn less_than(a: Amount, b: Amount) -> (r: bool)
    requires
        a@.wf(),
        b@.wf(),
    ensures
        r == a@.less_than(b@),
{
    let x = Decimal::from_i128_with_scale(a.mantissa, a.scale);
    let y = Decimal::from_i128_with_scale(b.mantissa, b.scale);
    x < y
}

/// `==` on `Decimal`.
///
/// Claims that it compares the two numbers, whatever their scales.
#[verifier::external_body]
pub(crate) fn same_value(a: Amount, b: Amount) -> (r: bool)
    requires
        a@.wf(),
        b@.wf(),
    ensures
        r == a@.same_number(b@),
{
    let x = Decimal::from_i128_with_scale(a.mantissa, a.scale);
    let y = Decimal::from_i128_with_scale(b.mantissa, b.scale);
    x == y
}

} // verus!
