//! The cost and the price of a posting, resolved from what its line declares.

use vstd::prelude::*;
use crate::data::{
    valid_amount, valid_date, valid_number, Amount, AmountView, CostSpec, CostSpecView,
};
use crate::date::Date;
use crate::decimal::Decimal;
use crate::error::ErrorKind;

verus! {

/// A result as the value that the contracts speak of.
pub open spec fn outcome<T: DeepView>(out: Result<T, ErrorKind>) -> Result<T::V, ErrorKind> {
    match out {
        Ok(v) => Ok(v.deep_view()),
        Err(e) => Err(e),
    }
}

/// The per-unit price of an annotation with the number `price_number`:
/// that number for a unit price; for a total price the quotient of it by the
/// number of units, and the invalid-decimal failure where there is none.
pub open spec fn spec_unit_price(total: bool, price_number: Decimal, quotient: Option<Decimal>) -> Result<Decimal, ErrorKind> {
    if total {
        match quotient {
            Some(q) => Ok(q),
            None => Err(ErrorKind::InvalidDecimal),
        }
    } else {
        Ok(price_number)
    }
}

/// The per-unit price, given the quotient of the price number by the number
/// of units.
pub fn unit_price(total: bool, price_number: Decimal, quotient: Option<Decimal>) -> (out: Result<Decimal, ErrorKind>)
    ensures
        out == spec_unit_price(total, price_number, quotient),
        price_number.is_valid() && valid_number(quotient) ==> (out matches Ok(d) ==> d.is_valid()),
{
    if total {
        match quotient {
            Some(q) => Ok(q),
            None => Err(ErrorKind::InvalidDecimal),
        }
    } else {
        Ok(price_number)
    }
}

/// The price of a posting with the given units and price annotation (`true`
/// for the total form `@@`).
///
/// Where both are there and both carry a number, the price is in the
/// annotation's currency: the annotation's number for the unit form, that
/// number divided by the number of units for the total form. Where either
/// is missing or lacks its number, there is no price.
pub open spec fn spec_resolve_price(units: Option<AmountView>, annotation: Option<(bool, AmountView)>) -> Result<Option<AmountView>, ErrorKind> {
    match (annotation, units) {
        (Some((total, price)), Some(unit)) => match (price.number, unit.number) {
            (Some(price_number), Some(unit_number)) => match spec_unit_price(total, price_number, price_number.spec_div(unit_number)) {
                Ok(number) => Ok(Some(AmountView { number: Some(number), currency: price.currency })),
                Err(e) => Err(e),
            },
            _ => Ok(None),
        },
        _ => Ok(None),
    }
}

/// Resolves the price of a posting.
pub fn resolve_price(units: &Option<Amount>, annotation: Option<(bool, Amount)>) -> (out: Result<Option<Amount>, ErrorKind>)
    ensures
        outcome(out) == spec_resolve_price(units.deep_view(), annotation.deep_view()),
        (annotation matches Some(a) ==> a.1.deep_view().is_valid()) ==> (out matches Ok(price) ==> valid_amount(
            price.deep_view(),
        )),
{
    match (annotation, units) {
        (Some((total, price)), Some(unit)) => match (price.number, unit.number) {
            (Some(price_number), Some(unit_number)) => {
                let quotient = if total {
                    price_number.div_outside(unit_number)
                } else {
                    None
                };
                match unit_price(total, price_number, quotient) {
                    Ok(number) => Ok(Some(Amount { number: Some(number), currency: price.currency })),
                    Err(e) => Err(e),
                }
            },
            _ => Ok(None),
        },
        _ => Ok(None),
    }
}

/// The cost that a cost syntax declares.
///
/// In per-unit form the two numbers stand as written. In total form the
/// first number is the total and there is no per-unit number; a second
/// number there is the cost-spec conflict.
pub open spec fn spec_resolve_cost(
    total: bool,
    first: Option<Decimal>,
    second: Option<Decimal>,
    currency: Option<Seq<char>>,
    date: Option<Date>,
    label: Option<Seq<char>>,
    merge: Option<bool>,
) -> Result<CostSpecView, ErrorKind> {
    if total {
        if second is Some {
            Err(ErrorKind::CostSpecConflict)
        } else {
            Ok(CostSpecView { number_per: None, number_total: first, currency, date, label, merge })
        }
    } else {
        Ok(CostSpecView { number_per: first, number_total: second, currency, date, label, merge })
    }
}

/// Resolves the cost syntax of a posting.
pub fn resolve_cost(
    total: bool,
    first: Option<Decimal>,
    second: Option<Decimal>,
    currency: Option<String>,
    date: Option<Date>,
    label: Option<String>,
    merge: Option<bool>,
) -> (out: Result<CostSpec, ErrorKind>)
    ensures
        outcome(out) == spec_resolve_cost(total, first, second, currency.deep_view(), date, label.deep_view(), merge),
        valid_number(first) && valid_number(second) && valid_date(date) ==> (out matches Ok(cost)
            ==> cost.deep_view().is_valid()),
{
    if total {
        if second.is_some() {
            Err(ErrorKind::CostSpecConflict)
        } else {
            Ok(CostSpec { number_per: None, number_total: first, currency, date, label, merge })
        }
    } else {
        Ok(CostSpec { number_per: first, number_total: second, currency, date, label, merge })
    }
}

/// A cost in total form never carries a per-unit number, and it fails exactly
/// where one was written.
pub proof fn lemma_total_cost_has_no_unit_number(
    first: Option<Decimal>,
    second: Option<Decimal>,
    currency: Option<Seq<char>>,
    date: Option<Date>,
    label: Option<Seq<char>>,
    merge: Option<bool>,
)
    ensures
        spec_resolve_cost(true, first, second, currency, date, label, merge) matches Ok(c) ==> c.number_per is None && c.number_total == first,
        spec_resolve_cost(true, first, second, currency, date, label, merge) is Err <==> second is Some,
{
}

} // verus!
