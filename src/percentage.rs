use vstd::prelude::*;
use vstd::arithmetic::div_mod::{lemma_div_denominator, lemma_div_multiples_vanish_quotient};

use crate::attributes::CharAttributeModifier;

verus! {

/// Scale of the fixed-point representation: one percent is this many raw units.
pub const PERCENTAGE_FACTOR: i32 = 1000;

/// Integer division rounding toward zero, as Rust's `/` does on signed integers.
pub open spec fn tdiv(a: int, b: int) -> int
    recommends
        b != 0,
{
    if a >= 0 {
        a / b
    } else {
        -((-a) / b)
    }
}

/// The change that a percentage of `value` raw units makes to `num`:
/// `num * value / 100_000`, rounded toward zero.
pub open spec fn of_spec(value: int, num: int) -> int {
    tdiv(num * value, 100_000)
}

/// `value` increased by the percentage `p`, both in raw units.
pub open spec fn increase_by_spec(value: int, p: int) -> int {
    value + tdiv(tdiv(value, 100) * p, 1000)
}

pub open spec fn fits_i32(x: int) -> bool {
    i32::MIN <= x <= i32::MAX
}

/// The 64-bit intermediate `num * 10 * value` of `of` and its relatives
/// stays in range, and so does the change it yields.
pub open spec fn of_fits(value: int, num: int) -> bool {
    &&& i64::MIN <= num * 10 * value <= i64::MAX
    &&& fits_i32(of_spec(value, num))
}

/// A percentage held as an integer number of thousandths of a percent.
#[derive(Copy, Clone, Debug, PartialEq, Eq, Structural)]
pub struct Percentage {
    value: i32,
}

/// The percentage `value`%.
pub fn percentage(value: i32) -> (r: Percentage)
    requires
        fits_i32(value * 1000),
    ensures
        r.value() == value * 1000,
{
    Percentage { value: value * PERCENTAGE_FACTOR }
}

impl Percentage {
    /// The raw value: `PERCENTAGE_FACTOR` units per percent.
    pub closed spec fn value(self) -> int {
        self.value as int
    }

    /// The percentage whose raw fixed-point value is `value`.
    pub fn from_raw(value: i32) -> (r: Percentage)
        ensures
            r.value() == value,
    {
        Percentage { value }
    }

    /// The raw fixed-point value.
    pub fn raw(&self) -> (r: i32)
        ensures
            r == self.value(),
    {
        self.value
    }

    pub fn is_not_zero(&self) -> (r: bool)
        ensures
            r == (self.value() != 0),
    {
        self.value != 0
    }

    /// Whole percents, rounded toward zero, as an `i16` (wrapping like `as`).
    pub fn as_i16(&self) -> (r: i16)
        ensures
            r == tdiv(self.value(), 1000) as i16,
    {
        (self.value / PERCENTAGE_FACTOR) as i16
    }
}

impl Percentage {
    /// Clamps the value into `[min, max]`: first down to `max`, then up to `min`.
    pub fn limit(&mut self, min: Percentage, max: Percentage)
        ensures
            final(self).value() == limit_spec(old(self).value(), min.value(), max.value()),
    {
        let mut v = self.value;
        if v > max.value {
            v = max.value;
        }
        if v < min.value {
            v = min.value;
        }
        self.value = v;
    }

    /// Applies one modifier. Adding a plain value to a percentage is a
    /// misconfiguration and is excluded by the precondition.
    pub fn apply(&mut self, modifier: &CharAttributeModifier)
        requires
            apply_fits(old(self).value(), *modifier),
        ensures
            final(self).value() == apply_spec(old(self).value(), *modifier),
    {
        match modifier {
            CharAttributeModifier::AddPercentage(p) => {
                self.value = self.value + p.value;
            },
            CharAttributeModifier::AddValue(_v) => {
                vstd::pervasive::unreached::<()>();
            },
            CharAttributeModifier::IncreaseByPercentage(p) => {
                self.value = self.increase_by(*p).value;
            },
        }
    }

    /// Multiplicative composition: `self * (1 + p)`, computed as
    /// `self + (self / 100 * p) / PERCENTAGE_FACTOR` with each division
    /// rounding toward zero.
    pub fn increase_by(&self, p: Percentage) -> (r: Percentage)
        requires
            fits_i32(tdiv(self.value(), 100) * p.value()),
            fits_i32(increase_by_spec(self.value(), p.value())),
        ensures
            r.value() == increase_by_spec(self.value(), p.value()),
    {
        let change = self.value / 100 * p.value;
        Percentage { value: self.value + change / PERCENTAGE_FACTOR }
    }

    /// This percentage of `num`, computed in 64 bits and rounded toward zero.
    pub fn of(&self, num: i32) -> (r: i32)
        requires
            of_fits(self.value(), num as int),
        ensures
            r == of_spec(self.value(), num as int),
    {
        self.change_of(num)
    }

    /// `num` increased by this percentage of it.
    pub fn add_me_to(&self, num: i32) -> (r: i32)
        requires
            of_fits(self.value(), num as int),
            fits_i32(add_me_to_spec(self.value(), num as int)),
        ensures
            r == add_me_to_spec(self.value(), num as int),
    {
        let change = self.change_of(num);
        num + change
    }

    /// `num` decreased by this percentage of it.
    pub fn subtract_me_from(&self, num: i32) -> (r: i32)
        requires
            of_fits(self.value(), num as int),
            fits_i32(subtract_me_from_spec(self.value(), num as int)),
        ensures
            r == subtract_me_from_spec(self.value(), num as int),
    {
        let change = self.change_of(num);
        num - change
    }

    fn change_of(&self, num: i32) -> (r: i32)
        requires
            of_fits(self.value(), num as int),
        ensures
            r == of_spec(self.value(), num as int),
    {
        let f = PERCENTAGE_FACTOR as i64;
        let n = num as i64;
        let v = self.value as i64;
        let change = n * 10 * v / f / f;
        proof {
            lemma_nested_tdiv(n * 10 * v, 1000, 1000);
            lemma_tdiv_scaled(n * v, 10, 100_000);
            assert(n * 10 * v == 10 * (n * v)) by (nonlinear_arith);
        }
        change as i32
    }

    /// The value divided by `other`, rounded toward zero.
    pub fn div(&self, other: i32) -> (r: Percentage)
        requires
            other != 0,
            fits_i32(tdiv(self.value(), other as int)),
        ensures
            r.value() == tdiv(self.value(), other as int),
    {
        Percentage { value: self.value / other }
    }

    /// The difference `self - other`.
    pub fn subtract(&self, other: Percentage) -> (r: Percentage)
        requires
            fits_i32(self.value() - other.value()),
        ensures
            r.value() == self.value() - other.value(),
    {
        Percentage { value: self.value - other.value }
    }
}

/// `num` increased by the percentage of raw value `value`.
pub open spec fn add_me_to_spec(value: int, num: int) -> int {
    num + tdiv(num * value, 100_000)
}

/// `num` decreased by the percentage of raw value `value`.
pub open spec fn subtract_me_from_spec(value: int, num: int) -> int {
    num - tdiv(num * value, 100_000)
}

/// For every percentage and number, `add_me_to` yields the number plus what
/// `of` yields, and `subtract_me_from` the number minus it.
pub proof fn lemma_add_subtract_consistent_with_of(p: Percentage, num: i32)
    ensures
        add_me_to_spec(p.value(), num as int) == num + of_spec(p.value(), num as int),
        subtract_me_from_spec(p.value(), num as int) == num - of_spec(p.value(), num as int),
{
}

/// `v` clamped first down to `max`, then up to `min`.
pub open spec fn limit_spec(v: int, min: int, max: int) -> int {
    let upper = if v > max { max } else { v };
    if upper < min { min } else { upper }
}

/// The modifier is valid for a percentage attribute and neither its result
/// nor the intermediate product of `increase_by` leaves the `i32` range.
pub open spec fn apply_fits(v: int, m: CharAttributeModifier) -> bool {
    &&& m.is_valid_for_percentage()
    &&& fits_i32(apply_spec(v, m))
    &&& (m matches CharAttributeModifier::IncreaseByPercentage(p) ==> fits_i32(
        tdiv(v, 100) * p.value(),
    ))
}

/// The raw value of a percentage after one modifier is applied to it.
pub open spec fn apply_spec(v: int, m: CharAttributeModifier) -> int {
    match m {
        CharAttributeModifier::AddPercentage(p) => v + p.value(),
        CharAttributeModifier::AddValue(_) => v,
        CharAttributeModifier::IncreaseByPercentage(p) => increase_by_spec(v, p.value()),
    }
}

/// Dividing toward zero by `a` and then by `b` is dividing by `a * b`.
proof fn lemma_nested_tdiv(x: int, a: int, b: int)
    requires
        0 < a,
        0 < b,
    ensures
        tdiv(tdiv(x, a), b) == tdiv(x, a * b),
{
    lemma_div_denominator(if x >= 0 { x } else { -x }, a, b);
    vstd::arithmetic::mul::lemma_mul_strictly_positive(a, b);
    if x >= 0 {
        vstd::arithmetic::div_mod::lemma_div_pos_is_pos(x, a);
    } else {
        vstd::arithmetic::div_mod::lemma_div_pos_is_pos(-x, a);
        if (-x) / a == 0 {
            assert(0int / b == 0);
            vstd::arithmetic::div_mod::lemma_div_pos_is_pos(-x, a * b);
        }
    }
}

/// Scaling both sides of a division toward zero by `k` leaves the quotient.
pub proof fn lemma_tdiv_scaled(y: int, k: int, d: int)
    requires
        0 < k,
        0 < d,
    ensures
        tdiv(k * y, k * d) == tdiv(y, d),
{
    if y >= 0 {
        lemma_div_multiples_vanish_quotient(k, y, d);
        assert(k * y >= 0) by (nonlinear_arith)
            requires
                0 < k,
                y >= 0,
        ;
    } else {
        lemma_div_multiples_vanish_quotient(k, -y, d);
        assert(k * (-y) == -(k * y)) by (nonlinear_arith);
        assert(k * y < 0) by (nonlinear_arith)
            requires
                0 < k,
                y < 0,
        ;
    }
    assert(k * d > 0) by (nonlinear_arith)
        requires
            0 < k,
            0 < d,
    ;
}

} // verus!
