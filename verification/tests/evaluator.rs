use beancount_parser::decimal::Decimal;
use beancount_parser::expr::evaluate;
use beancount_parser::text::chars_of;
use std::str::FromStr;

fn eval(text: &str) -> Option<Decimal> {
    evaluate(&chars_of(text))
}

fn same(ours: Decimal, theirs: rust_decimal::Decimal) -> bool {
    ours.mantissa == theirs.mantissa() && ours.scale == theirs.scale()
}

#[test]
fn two_plus_two_is_four() {
    assert_eq!(eval("2+2"), Some(Decimal { mantissa: 4, scale: 0 }));
}

#[test]
fn division_keeps_decimal_precision() {
    let forty = rust_decimal::Decimal::from_str("40.00").unwrap();
    let three = rust_decimal::Decimal::from_str("3").unwrap();
    let five = rust_decimal::Decimal::from_str("5").unwrap();
    let expected = forty / three + five;
    let got = eval("(40.00/3) + 5").unwrap();
    assert!(same(got, expected));
    assert_eq!(got.scale, expected.scale());
    assert_ne!(expected.scale(), 0);
}

#[test]
fn dangling_operator_has_no_value() {
    assert_eq!(eval("1+"), None);
    assert_eq!(eval(""), None);
    assert_eq!(eval("(1"), None);
    assert_eq!(eval("1 2"), None);
    assert_eq!(eval("*3"), None);
}

#[test]
fn literal_keeps_its_scale() {
    assert_eq!(eval("1.50"), Some(Decimal { mantissa: 150, scale: 2 }));
    assert_eq!(eval("1,234.5"), Some(Decimal { mantissa: 12345, scale: 1 }));
    assert_eq!(eval("  7  "), Some(Decimal { mantissa: 7, scale: 0 }));
}

#[test]
fn each_operator_computes() {
    assert_eq!(eval("1+2"), Some(Decimal { mantissa: 3, scale: 0 }));
    assert_eq!(eval("5-3"), Some(Decimal { mantissa: 2, scale: 0 }));
    assert_eq!(eval("2*3"), Some(Decimal { mantissa: 6, scale: 0 }));
    let quotient = rust_decimal::Decimal::from_str("7").unwrap() / rust_decimal::Decimal::from_str("2").unwrap();
    assert!(same(eval("7/2").unwrap(), quotient));
    assert_eq!(quotient, rust_decimal::Decimal::from_str("3.5").unwrap());
}

#[test]
fn precedence_and_association() {
    assert_eq!(eval("2+3*4"), Some(Decimal { mantissa: 14, scale: 0 }));
    assert_eq!(eval("(2+3)*4"), Some(Decimal { mantissa: 20, scale: 0 }));
    assert_eq!(eval("10-4-3"), Some(Decimal { mantissa: 3, scale: 0 }));
    assert_eq!(eval("8/4/2"), Some(Decimal { mantissa: 1, scale: 0 }));
    assert_eq!(eval("-3+5"), Some(Decimal { mantissa: 2, scale: 0 }));
    assert_eq!(eval("-(1+2)"), Some(Decimal { mantissa: -3, scale: 0 }));
    assert_eq!(eval("2--3"), Some(Decimal { mantissa: 5, scale: 0 }));
}

#[test]
fn division_by_zero_has_no_value() {
    assert_eq!(eval("1/0"), None);
    assert_eq!(eval("1/(2-2)"), None);
}

#[test]
fn negation_keeps_scale() {
    let d = Decimal { mantissa: 1250, scale: 2 };
    assert_eq!(d.checked_neg(), Some(Decimal { mantissa: -1250, scale: 2 }));
    assert_eq!(Decimal { mantissa: i128::MIN, scale: 0 }.checked_neg(), None);
}
