//! Decimal numbers: a 96-bit signed mantissa and a power-of-ten scale.
//!
//! The arithmetic is that of the `rust_decimal` crate. A [`Decimal`] holds the
//! two integers that denote the number, `mantissa / 10^scale`, and each
//! operation hands them to `rust_decimal` and takes the result back.

use vstd::prelude::*;

verus! {

/// The largest magnitude of a mantissa: `2^96 - 1`.
pub const MAX_MANTISSA: i128 = 0xFFFF_FFFF_FFFF_FFFF_FFFF_FFFFi128;

/// The largest scale.
pub const MAX_SCALE: u32 = 28u32;

/// The number `mantissa / 10^scale`.
#[derive(Clone, Copy, Debug, PartialEq, Eq, Structural)]
pub struct Decimal {
    pub mantissa: i128,
    pub scale: u32,
}

/// What `rust_decimal` reads from a decimal literal: mantissa and scale, or
/// `None` where it rejects the text.
pub uninterp spec fn literal_value(text: Seq<char>) -> Option<(i128, u32)>;

/// What `rust_decimal` gives for the checked sum of two decimals, each given
/// by mantissa and scale.
pub uninterp spec fn sum_value(a_mantissa: i128, a_scale: u32, b_mantissa: i128, b_scale: u32) -> Option<(i128, u32)>;

/// What `rust_decimal` gives for the checked difference of two decimals.
pub uninterp spec fn difference_value(a_mantissa: i128, a_scale: u32, b_mantissa: i128, b_scale: u32) -> Option<(i128, u32)>;

/// What `rust_decimal` gives for the checked product of two decimals.
pub uninterp spec fn product_value(a_mantissa: i128, a_scale: u32, b_mantissa: i128, b_scale: u32) -> Option<(i128, u32)>;

/// What `rust_decimal` gives for the checked quotient of two decimals.
pub uninterp spec fn quotient_value(a_mantissa: i128, a_scale: u32, b_mantissa: i128, b_scale: u32) -> Option<(i128, u32)>;

/// A pair of mantissa and scale as a decimal.
pub open spec fn lift(v: Option<(i128, u32)>) -> Option<Decimal> {
    match v {
        Some((mantissa, scale)) => Some(Decimal { mantissa, scale }),
        None => None,
    }
}

impl Decimal {
    /// The mantissa fits 96 bits and the scale is at most 28.
    pub open spec fn is_valid(self) -> bool {
        &&& -MAX_MANTISSA <= self.mantissa <= MAX_MANTISSA
        &&& self.scale <= MAX_SCALE
    }

    /// The value of the literal `text`.
    pub open spec fn spec_parse(text: Seq<char>) -> Option<Decimal> {
        lift(literal_value(text))
    }

    /// The checked sum.
    pub open spec fn spec_add(self, rhs: Decimal) -> Option<Decimal> {
        lift(sum_value(self.mantissa, self.scale, rhs.mantissa, rhs.scale))
    }

    /// The checked difference.
    pub open spec fn spec_sub(self, rhs: Decimal) -> Option<Decimal> {
        lift(difference_value(self.mantissa, self.scale, rhs.mantissa, rhs.scale))
    }

    /// The checked product.
    pub open spec fn spec_mul(self, rhs: Decimal) -> Option<Decimal> {
        lift(product_value(self.mantissa, self.scale, rhs.mantissa, rhs.scale))
    }

    /// The checked quotient.
    pub open spec fn spec_div(self, rhs: Decimal) -> Option<Decimal> {
        lift(quotient_value(self.mantissa, self.scale, rhs.mantissa, rhs.scale))
    }

    /// The negated number: the same scale, the mantissa with the other sign.
    pub open spec fn spec_neg(self) -> Option<Decimal> {
        if self.mantissa == i128::MIN {
            None
        } else {
            Some(Decimal { mantissa: (-self.mantissa) as i128, scale: self.scale })
        }
    }

    /// Negates the number; `None` only for a mantissa that has no negation
    /// in 128 bits.
    pub fn checked_neg(self) -> (out: Option<Decimal>)
        ensures
            out == self.spec_neg(),
    {
        if self.mantissa == i128::MIN {
            None
        } else {
            Some(Decimal { mantissa: -self.mantissa, scale: self.scale })
        }
    }

    /// Reads a decimal literal.
    ///
    /// Trusted: calls `<rust_decimal::Decimal as FromStr>::from_str` and
    /// takes the mantissa and the scale of what it returns. The result
    /// depends on the text alone; a value that it returns always fits 96 bits
    /// with a scale of at most 28.
    #[verifier::external_body]
    pub(crate) fn parse_literal(text: &str) -> (out: Option<Decimal>)
        ensures
            out == lift(literal_value(text@)),
            out matches Some(d) ==> d.is_valid(),
    {
        match <rust_decimal::Decimal as core::str::FromStr>::from_str(text) {
            Ok(d) => Some(Decimal { mantissa: d.mantissa(), scale: d.scale() }),
            Err(_) => None,
        }
    }

    /// Adds, with `None` on overflow or where an operand is not valid.
    ///
    /// Trusted: builds both operands with
    /// `rust_decimal::Decimal::try_from_i128_with_scale` and calls
    /// `rust_decimal::Decimal::checked_add`.
    #[verifier::external_body]
    pub(crate) fn add_outside(self, rhs: Decimal) -> (out: Option<Decimal>)
        ensures
            out == lift(sum_value(self.mantissa, self.scale, rhs.mantissa, rhs.scale)),
            out matches Some(d) ==> d.is_valid(),
    {
        let a = rust_decimal::Decimal::try_from_i128_with_scale(self.mantissa, self.scale);
        let b = rust_decimal::Decimal::try_from_i128_with_scale(rhs.mantissa, rhs.scale);
        match (a, b) {
            (Ok(a), Ok(b)) => a.checked_add(b).map(|d| Decimal { mantissa: d.mantissa(), scale: d.scale() }),
            _ => None,
        }
    }

    /// Subtracts, with `None` on overflow or where an operand is not valid.
    ///
    /// Trusted: builds both operands with
    /// `rust_decimal::Decimal::try_from_i128_with_scale` and calls
    /// `rust_decimal::Decimal::checked_sub`.
    #[verifier::external_body]
    pub(crate) fn sub_outside(self, rhs: Decimal) -> (out: Option<Decimal>)
        ensures
            out == lift(difference_value(self.mantissa, self.scale, rhs.mantissa, rhs.scale)),
            out matches Some(d) ==> d.is_valid(),
    {
        let a = rust_decimal::Decimal::try_from_i128_with_scale(self.mantissa, self.scale);
        let b = rust_decimal::Decimal::try_from_i128_with_scale(rhs.mantissa, rhs.scale);
        match (a, b) {
            (Ok(a), Ok(b)) => a.checked_sub(b).map(|d| Decimal { mantissa: d.mantissa(), scale: d.scale() }),
            _ => None,
        }
    }

    /// Multiplies, with `None` on overflow or where an operand is not valid.
    ///
    /// Trusted: builds both operands with
    /// `rust_decimal::Decimal::try_from_i128_with_scale` and calls
    /// `rust_decimal::Decimal::checked_mul`.
    #[verifier::external_body]
    pub(crate) fn mul_outside(self, rhs: Decimal) -> (out: Option<Decimal>)
        ensures
            out == lift(product_value(self.mantissa, self.scale, rhs.mantissa, rhs.scale)),
            out matches Some(d) ==> d.is_valid(),
    {
        let a = rust_decimal::Decimal::try_from_i128_with_scale(self.mantissa, self.scale);
        let b = rust_decimal::Decimal::try_from_i128_with_scale(rhs.mantissa, rhs.scale);
        match (a, b) {
            (Ok(a), Ok(b)) => a.checked_mul(b).map(|d| Decimal { mantissa: d.mantissa(), scale: d.scale() }),
            _ => None,
        }
    }

    /// Divides, with `None` on overflow, for a divisor of zero, or where an
    /// operand is not valid.
    ///
    /// Trusted: builds both operands with
    /// `rust_decimal::Decimal::try_from_i128_with_scale` and calls
    /// `rust_decimal::Decimal::checked_div`, which returns `None` for a
    /// divisor of zero.
    #[verifier::external_body]
    pub(crate) fn div_outside(self, rhs: Decimal) -> (out: Option<Decimal>)
        ensures
            out == lift(quotient_value(self.mantissa, self.scale, rhs.mantissa, rhs.scale)),
            out matches Some(d) ==> d.is_valid(),
            rhs.mantissa == 0 ==> out is None,
    {
        let a = rust_decimal::Decimal::try_from_i128_with_scale(self.mantissa, self.scale);
        let b = rust_decimal::Decimal::try_from_i128_with_scale(rhs.mantissa, rhs.scale);
        match (a, b) {
            (Ok(a), Ok(b)) => a.checked_div(b).map(|d| Decimal { mantissa: d.mantissa(), scale: d.scale() }),
            _ => None,
        }
    }
}

} // verus!
