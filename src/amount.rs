//! Fixed-point decimal amounts.
//!
//! An `Amount` holds a signed mantissa and a decimal scale: its value is
//! `mantissa / 10^scale`. Arithmetic is carried out by `rust_decimal`.

use rust_decimal::Decimal;
use vstd::prelude::*;

verus! {

/// The largest number of decimal places an amount may carry.
pub const MAX_SCALE: u32 = 28;

/// The largest magnitude of a mantissa (96 bits).
pub const MAX_MANTISSA: i128 = 0xFFFF_FFFF_FFFF_FFFF_FFFF_FFFF;

#[derive(Clone, Copy, Debug)]
pub struct Amount {
    pub mantissa: i128,
    pub scale: u32,
}

/// `10^n`.
pub open spec fn pow10(n: nat) -> int
    decreases n,
{
    if n == 0 {
        1
    } else {
        10 * pow10((n - 1) as nat)
    }
}

/// The value of `a` is at least the value of `b`.
pub open spec fn value_ge(a: Amount, b: Amount) -> bool {
    a.mantissa * pow10(b.scale as nat) >= b.mantissa * pow10(a.scale as nat)
}

/// `a` and `b` denote the same value, whatever their scales.
pub open spec fn value_eq(a: Amount, b: Amount) -> bool {
    a.mantissa * pow10(b.scale as nat) == b.mantissa * pow10(a.scale as nat)
}

/// What `rust_decimal` computes for `a + b`: `None` on overflow.
pub uninterp spec fn decimal_sum(a: Amount, b: Amount) -> Option<Amount>;

/// What `rust_decimal` computes for `a - b`: `None` on overflow.
pub uninterp spec fn decimal_difference(a: Amount, b: Amount) -> Option<Amount>;

/// Adds `val` to `x` when `up`, subtracts it otherwise.
pub open spec fn shifted(x: Amount, val: Amount, up: bool) -> Option<Amount> {
    if up {
        decimal_sum(x, val)
    } else {
        decimal_difference(x, val)
    }
}

impl Amount {
    /// The amount lies in the range that a decimal can represent.
    pub open spec fn wf(self) -> bool {
        &&& self.scale <= MAX_SCALE
        &&& -MAX_MANTISSA <= self.mantissa <= MAX_MANTISSA
    }

    pub open spec fn zero_spec() -> Amount {
        Amount { mantissa: 0, scale: 0 }
    }

    /// The amount zero.
    pub fn zero() -> (r: Amount)
        ensures
            r == Amount::zero_spec(),
            r.wf(),
    {
        Amount { mantissa: 0, scale: 0 }
    }

    /// The amount `mantissa / 10^scale`.
    pub fn new(mantissa: i64, scale: u32) -> (r: Amount)
        requires
            scale <= MAX_SCALE,
        ensures
            r.mantissa == mantissa,
            r.scale == scale,
            r.wf(),
    {
        Amount { mantissa: mantissa as i128, scale }
    }

    /// The amount `mantissa / 10^scale`, or `None` where that lies outside
    /// the representable range.
    pub fn from_parts(mantissa: i128, scale: u32) -> (r: Option<Amount>)
        ensures
            r == (if scale <= MAX_SCALE && -MAX_MANTISSA <= mantissa <= MAX_MANTISSA {
                Some(Amount { mantissa, scale })
            } else {
                None::<Amount>
            }),
    {
        if scale <= MAX_SCALE && -MAX_MANTISSA <= mantissa && mantissa <= MAX_MANTISSA {
            Some(Amount { mantissa, scale })
        } else {
            None
        }
    }

    /// Whether the amount lies in the representable range.
    pub fn in_range(&self) -> (r: bool)
        ensures
            r == self.wf(),
    {
        self.scale <= MAX_SCALE && -MAX_MANTISSA <= self.mantissa && self.mantissa <= MAX_MANTISSA
    }

    /// `self + other`, or `None` on overflow.
    pub fn checked_add(self, other: Amount) -> (r: Option<Amount>)
        requires
            self.wf(),
            other.wf(),
        ensures
            r == decimal_sum(self, other),
            r matches Some(s) ==> s.wf(),
    {
        decimal_add(self, other)
    }

    /// `self - other`, or `None` on overflow.
    pub fn checked_sub(self, other: Amount) -> (r: Option<Amount>)
        requires
            self.wf(),
            other.wf(),
        ensures
            r == decimal_difference(self, other),
            r matches Some(s) ==> s.wf(),
    {
        decimal_sub(self, other)
    }

    /// Whether the value of `self` is at least that of `other`.
    pub fn ge(&self, other: &Amount) -> (r: bool)
        requires
            self.wf(),
            other.wf(),
        ensures
            r == value_ge(*self, *other),
    {
        decimal_ge(*self, *other)
    }

    /// Whether `self` and `other` denote the same value.
    pub fn same_value(&self, other: &Amount) -> (r: bool)
        requires
            self.wf(),
            other.wf(),
        ensures
            r == value_eq(*self, *other),
    {
        decimal_eq(*self, *other)
    }
}

impl PartialEq for Amount {
    /// Amounts in range compare by value (`1.5 == 1.50`); others by their
    /// fields.
    fn eq(&self, other: &Amount) -> (r: bool) {
        if self.in_range() && other.in_range() {
            self.same_value(other)
        } else {
            self.mantissa == other.mantissa && self.scale == other.scale
        }
    }
}

impl vstd::std_specs::cmp::PartialEqSpecImpl for Amount {
    open spec fn obeys_eq_spec() -> bool {
        true
    }

    open spec fn eq_spec(&self, other: &Amount) -> bool {
        if self.wf() && other.wf() {
            value_eq(*self, *other)
        } else {
            self.mantissa == other.mantissa && self.scale == other.scale
        }
    }
}

/// Relies on `Decimal::from_i128_with_scale` (exact for a mantissa of at
/// most 96 bits and a scale of at most 28), `Decimal::checked_add` (the
/// result, `None` on overflow, depends on the operands alone), and
/// `Decimal::mantissa` / `Decimal::scale`, which stay in that range.
#[verifier::external_body]
fn decimal_add(a: Amount, b: Amount) -> (r: Option<Amount>)
    requires
        a.wf(),
        b.wf(),
    ensures
        r == decimal_sum(a, b),
        r matches Some(s) ==> s.wf(),
{
    let x = Decimal::from_i128_with_scale(a.mantissa, a.scale);
    let y = Decimal::from_i128_with_scale(b.mantissa, b.scale);
    match x.checked_add(y) {
        Some(d) => Some(Amount { mantissa: d.mantissa(), scale: d.scale() }),
        None => None,
    }
}

/// Relies on `Decimal::checked_sub` as `decimal_add` relies on
/// `Decimal::checked_add`.
#[verifier::external_body]
fn decimal_sub(a: Amount, b: Amount) -> (r: Option<Amount>)
    requires
        a.wf(),
        b.wf(),
    ensures
        r == decimal_difference(a, b),
        r matches Some(s) ==> s.wf(),
{
    let x = Decimal::from_i128_with_scale(a.mantissa, a.scale);
    let y = Decimal::from_i128_with_scale(b.mantissa, b.scale);
    match x.checked_sub(y) {
        Some(d) => Some(Amount { mantissa: d.mantissa(), scale: d.scale() }),
        None => None,
    }
}

/// Relies on `Decimal`'s `>=`, which compares the exact values.
#[verifier::external_body]
fn decimal_ge(a: Amount, b: Amount) -> (r: bool)
    requires
        a.wf(),
        b.wf(),
    ensures
        r == value_ge(a, b),
{
    Decimal::from_i128_with_scale(a.mantissa, a.scale) >= Decimal::from_i128_with_scale(
        b.mantissa,
        b.scale,
    )
}

/// Relies on `Decimal`'s `==`, which compares the exact values.
#[verifier::external_body]
fn decimal_eq(a: Amount, b: Amount) -> (r: bool)
    requires
        a.wf(),
        b.wf(),
    ensures
        r == value_eq(a, b),
{
    Decimal::from_i128_with_scale(a.mantissa, a.scale) == Decimal::from_i128_with_scale(
        b.mantissa,
        b.scale,
    )
}

} // verus!
