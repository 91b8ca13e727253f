//! Exact decimal quantities: a 96-bit signed mantissa over a power of ten.

use vstd::arithmetic::power::pow;
use vstd::prelude::*;
use vstd::std_specs::cmp::PartialEqSpecImpl;

verus! {

/// Largest magnitude a mantissa can have: 2^96 - 1.
pub const MAX_MANTISSA: i128 = 0xFFFF_FFFF_FFFF_FFFF_FFFF_FFFF;

/// Largest number of digits after the decimal point.
pub const MAX_SCALE: u32 = 28;

/// The number `mantissa / 10^scale`.
pub struct DecimalView {
    pub mantissa: int,
    pub scale: nat,
}

impl DecimalView {
    /// The number is zero.
    pub open spec fn is_zero(self) -> bool {
        self.mantissa == 0
    }

    /// Both stand for the same number, whatever their scales:
    /// `1.0` and `1.00` do, `1.0` and `1.01` do not.
    pub open spec fn same_value(self, other: DecimalView) -> bool {
        self.mantissa * pow(10, other.scale) == other.mantissa * pow(10, self.scale)
    }

    /// The mantissa fits 96 bits and the scale is at most `MAX_SCALE`.
    pub open spec fn in_range(self) -> bool {
        &&& -MAX_MANTISSA <= self.mantissa <= MAX_MANTISSA
        &&& self.scale <= MAX_SCALE
    }
}

/// What `rust_decimal` computes for `a - b`: `None` where the subtraction
/// overflows, else the difference, rounded where 96 bits cannot hold it exactly.
pub uninterp spec fn difference(a: DecimalView, b: DecimalView) -> Option<DecimalView>;

/// A decimal number held as `rust_decimal` holds it: `mantissa / 10^scale`
/// with `|mantissa| < 2^96` and `scale <= 28`.
#[derive(Clone, Copy, Debug)]
pub struct Decimal {
    mantissa: i128,
    scale: u32,
}

impl View for Decimal {
    type V = DecimalView;

    closed spec fn view(&self) -> DecimalView {
        DecimalView { mantissa: self.mantissa as int, scale: self.scale as nat }
    }
}

impl DeepView for Decimal {
    type V = DecimalView;

    open spec fn deep_view(&self) -> DecimalView {
        self@
    }
}

impl Decimal {
    #[verifier::type_invariant]
    spec fn well_formed(self) -> bool {
        self@.in_range()
    }

    /// The decimal `mantissa / 10^scale`, if it is one: `None` where the
    /// mantissa needs more than 96 bits or the scale is over `MAX_SCALE`.
    pub fn new(mantissa: i128, scale: u32) -> (r: Option<Decimal>)
        ensures
            r is Some <==> (DecimalView { mantissa: mantissa as int, scale: scale as nat }).in_range(),
            r matches Some(d) ==> d@ == (DecimalView {
                mantissa: mantissa as int,
                scale: scale as nat,
            }),
    {
        if scale > MAX_SCALE || mantissa > MAX_MANTISSA || mantissa < -MAX_MANTISSA {
            None
        } else {
            Some(Decimal { mantissa, scale })
        }
    }

    /// Zero, with scale 0.
    pub fn zero() -> (r: Decimal)
        ensures
            r@ == (DecimalView { mantissa: 0, scale: 0 }),
    {
        Decimal { mantissa: 0, scale: 0 }
    }

    /// The digits of the number, as a signed integer.
    pub fn mantissa(&self) -> (r: i128)
        ensures
            r == self@.mantissa,
            self@.in_range(),
    {
        proof {
            use_type_invariant(self);
        }
        self.mantissa
    }

    /// How many of the digits stand after the decimal point.
    pub fn scale(&self) -> (r: u32)
        ensures
            r == self@.scale,
            self@.in_range(),
    {
        proof {
            use_type_invariant(self);
        }
        self.scale
    }

    /// Whether the number is zero, at whatever scale.
    pub fn is_zero(&self) -> (r: bool)
        ensures
            r == self@.is_zero(),
    {
        self.mantissa == 0
    }

    /// Whether the number is less than zero.
    pub fn is_negative(&self) -> (r: bool)
        ensures
            r == (self@.mantissa < 0),
    {
        self.mantissa < 0
    }

    /// `self - other` as `rust_decimal` computes it, or `None` where that
    /// subtraction overflows.
    pub fn checked_sub(self, other: Decimal) -> (r: Option<Decimal>)
        ensures
            r.deep_view() == difference(self@, other@),
    {
        proof {
            use_type_invariant(self);
            use_type_invariant(other);
        }
        subtract(self, other)
    }
}

impl PartialEq for Decimal {
    /// Equality of the numbers, not of their digits: `1.0 == 1.00`.
    fn eq(&self, other: &Decimal) -> (r: bool) {
        proof {
            use_type_invariant(self);
            use_type_invariant(other);
        }
        numerically_equal(*self, *other)
    }
}

impl PartialEqSpecImpl for Decimal {
    open spec fn obeys_eq_spec() -> bool {
        true
    }

    open spec fn eq_spec(&self, other: &Decimal) -> bool {
        self@.same_value(other@)
    }
}

/// Compares through `rust_decimal::Decimal`'s `==`. That comparison tells
/// zero from the rest and one sign from the other, then brings both
/// mantissas to the larger scale and compares them as integers; a mantissa
/// that outgrows 96 bits on the way is the larger. So it holds exactly when
/// both stand for the same number. `from_i128_with_scale` panics on a
/// mantissa or a scale out of range: `requires` leaves those out.
#[verifier::external_body]
fn numerically_equal(a: Decimal, b: Decimal) -> (r: bool)
    requires
        a@.in_range(),
        b@.in_range(),
    ensures
        r == a@.same_value(b@),
{
    let x = rust_decimal::Decimal::from_i128_with_scale(a.mantissa, a.scale);
    let y = rust_decimal::Decimal::from_i128_with_scale(b.mantissa, b.scale);
    x == y
}

/// Subtracts through `rust_decimal::Decimal::checked_sub`. The result is
/// named, not described: the crate aligns the scales, and rounds where the
/// exact difference does not fit. What comes back was a
/// `rust_decimal::Decimal`, so its mantissa fits 96 bits and its scale is at
/// most 28. `from_i128_with_scale` panics on a mantissa or a scale out of
/// range: `requires` leaves those out.
#[verifier::external_body]
fn subtract(a: Decimal, b: Decimal) -> (r: Option<Decimal>)
    requires
        a@.in_range(),
        b@.in_range(),
    ensures
        r.deep_view() == difference(a@, b@),
{
    let x = rust_decimal::Decimal::from_i128_with_scale(a.mantissa, a.scale);
    let y = rust_decimal::Decimal::from_i128_with_scale(b.mantissa, b.scale);
    match x.checked_sub(y) {
        Some(d) => Some(Decimal { mantissa: d.mantissa(), scale: d.scale() }),
        None => None,
    }
}

} // verus!
