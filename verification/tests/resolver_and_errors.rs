use beancount_parser::collections::{Metadata, StrSet};
use beancount_parser::cost::{resolve_cost, resolve_price, unit_price};
use beancount_parser::data::Amount;
use beancount_parser::date::Date;
use beancount_parser::decimal::Decimal;
use beancount_parser::error::{ErrorKind, ParseError};
use beancount_parser::parse;
use beancount_parser::text::{chars_of, numeral_string, same_text};

fn dec(mantissa: i128, scale: u32) -> Decimal {
    Decimal { mantissa, scale }
}

fn amount(number: Option<Decimal>, currency: &str) -> Amount {
    Amount { number, currency: currency.to_string() }
}

fn failure(source: &str) -> ParseError {
    parse(source).expect_err("the parse fails")
}

#[test]
fn unit_price_of_each_form() {
    assert_eq!(unit_price(false, dec(125, 2), None), Ok(dec(125, 2)));
    assert_eq!(unit_price(false, dec(125, 2), Some(dec(1, 0))), Ok(dec(125, 2)));
    assert_eq!(unit_price(true, dec(125, 2), Some(dec(5, 0))), Ok(dec(5, 0)));
    assert_eq!(unit_price(true, dec(125, 2), None), Err(ErrorKind::InvalidDecimal));
}

#[test]
fn price_resolution_cases() {
    let units = Some(amount(Some(dec(4, 0)), "IVV"));
    let total = resolve_price(&units, Some((true, amount(Some(dec(10, 0)), "USD")))).unwrap().unwrap();
    let quotient = rust_decimal::Decimal::new(10, 0) / rust_decimal::Decimal::new(4, 0);
    assert_eq!(total.number, Some(dec(quotient.mantissa(), quotient.scale())));
    assert_eq!(quotient, rust_decimal::Decimal::new(25, 1));
    assert_eq!(total.currency, "USD");

    let unit = resolve_price(&units, Some((false, amount(Some(dec(10, 0)), "USD")))).unwrap();
    assert_eq!(unit, Some(amount(Some(dec(10, 0)), "USD")));

    assert_eq!(resolve_price(&units, None), Ok(None));
    assert_eq!(resolve_price(&None, Some((true, amount(Some(dec(10, 0)), "USD")))), Ok(None));
    assert_eq!(resolve_price(&units, Some((true, amount(None, "USD")))), Ok(None));
    let bare = Some(amount(None, "IVV"));
    assert_eq!(resolve_price(&bare, Some((false, amount(Some(dec(10, 0)), "USD")))), Ok(None));

    let none = Some(amount(Some(dec(0, 0)), "IVV"));
    assert_eq!(
        resolve_price(&none, Some((true, amount(Some(dec(10, 0)), "USD")))),
        Err(ErrorKind::InvalidDecimal)
    );
}

#[test]
fn cost_resolution_cases() {
    let date = Some(Date { year: 2020, month: 1, day: 2 });
    let per_unit = resolve_cost(
        false,
        Some(dec(1, 0)),
        Some(dec(2, 0)),
        Some("USD".to_string()),
        date,
        Some("lot".to_string()),
        Some(true),
    )
    .unwrap();
    assert_eq!(per_unit.number_per, Some(dec(1, 0)));
    assert_eq!(per_unit.number_total, Some(dec(2, 0)));
    assert_eq!(per_unit.currency.as_deref(), Some("USD"));
    assert_eq!(per_unit.date, date);
    assert_eq!(per_unit.label.as_deref(), Some("lot"));
    assert_eq!(per_unit.merge, Some(true));

    let total = resolve_cost(true, Some(dec(1, 0)), None, None, None, None, None).unwrap();
    assert_eq!(total.number_per, None);
    assert_eq!(total.number_total, Some(dec(1, 0)));

    let conflict = resolve_cost(true, Some(dec(1, 0)), Some(dec(2, 0)), None, None, None, None);
    assert_eq!(conflict.err(), Some(ErrorKind::CostSpecConflict));
    let conflict = resolve_cost(true, None, Some(dec(2, 0)), None, None, None, None);
    assert_eq!(conflict.err(), Some(ErrorKind::CostSpecConflict));
}

#[test]
fn failure_carries_line_and_column() {
    let e = failure("2022-01-01 close Assets:Cash\n2022-01-02 close  assets\n");
    assert_eq!((e.kind, e.line, e.column), (ErrorKind::Syntax, 2, 19));
    let e = failure("2022-02-30 close Assets:Cash\n");
    assert_eq!((e.kind, e.line, e.column), (ErrorKind::InvalidDate, 1, 1));
    let e = failure("\n\n  2022-01-01 close Assets:Cash\n");
    assert_eq!((e.kind, e.line, e.column), (ErrorKind::Syntax, 3, 3));
}

#[test]
fn messages_name_the_tags() {
    let e = failure("poptag #trip\n");
    assert_eq!(e.message(), "Attempting to pop absent tag: 'trip'");
    let e = failure("pushtag #a\npushtag #b\n");
    assert_eq!(e.message(), "Unbalanced pushed tag(s): 'a', 'b'");
    let e = failure("2022-02-30 close Assets:Cash\n");
    assert_eq!(e.message(), "Invalid date");
    let e = failure("2022-01-01 balance Assets:Cash\n");
    assert_eq!(e.message(), "Missing required field");
    let e = failure("2022-01-01 open Assets:Cash \"BOGUS\"\n");
    assert_eq!(e.message(), "Invalid booking method");
    let e = failure("2022-01-01 price USD (1 CAD\n");
    assert_eq!(e.message(), "Invalid decimal");
    let e = failure("2022-01-01 * \"x\"\n  Assets:A 1 X {{1 # 2 USD}}\n");
    assert_eq!(e.message(), "Per-unit cost may not be specified using total cost");
    let e = failure("nonsense\n");
    assert_eq!(e.message(), "Syntax error");
}

#[test]
fn first_failure_ends_the_parse() {
    let e = failure("2022-02-30 close Assets:Cash\npoptag #absent\n");
    assert_eq!((e.kind, e.line), (ErrorKind::InvalidDate, 1));
    let e = failure("pushtag #open\n2022-01-01 frobnicate\n");
    assert_eq!((e.kind, e.line), (ErrorKind::Syntax, 2));
}

#[test]
fn string_set_holds_each_string_once() {
    let mut set = StrSet::new();
    assert_eq!(set.len(), 0);
    set.insert("a".to_string());
    set.insert("b".to_string());
    set.insert("a".to_string());
    assert_eq!(set.len(), 2);
    assert!(set.contains("a") && set.contains("b") && !set.contains("c"));
    let mut other = StrSet::new();
    other.insert("b".to_string());
    other.insert("c".to_string());
    set.insert_all(&other);
    assert_eq!(set.clone().into_vec(), vec!["a".to_string(), "b".to_string(), "c".to_string()]);
    assert_eq!(other.len(), 2);
}

#[test]
fn metadata_keeps_the_last_value() {
    let mut meta = Metadata::new();
    assert_eq!(meta.get("k"), None);
    meta.insert("k".to_string(), "1".to_string());
    meta.insert("j".to_string(), "2".to_string());
    meta.insert("k".to_string(), "3".to_string());
    assert_eq!(meta.get("k").map(|s| s.as_str()), Some("3"));
    assert_eq!(meta.get("j").map(|s| s.as_str()), Some("2"));
    assert_eq!(meta.get(""), None);
}

#[test]
fn numerals() {
    assert_eq!(numeral_string(0), "0");
    assert_eq!(numeral_string(7), "7");
    assert_eq!(numeral_string(10), "10");
    assert_eq!(numeral_string(1234567890), "1234567890");
}

#[test]
fn text_helpers() {
    assert_eq!(chars_of("aé你"), vec!['a', 'é', '你']);
    let chars = chars_of("open Assets");
    assert!(same_text(&chars, 0, 4, "open"));
    assert!(!same_text(&chars, 0, 4, "close"));
    assert!(!same_text(&chars, 0, 3, "open"));
    assert!(same_text(&chars, 4, 4, ""));
}

#[test]
fn dates_with_slashes_and_comments_after_postings() {
    let file = parse("2014/01/02 * \"x\" ; head\n  Assets:Cash  1 USD ; tail\n  ; only a comment\n").unwrap();
    match &file.directives[0] {
        beancount_parser::data::Directive::Transaction(t) => {
            assert_eq!(t.date, Date { year: 2014, month: 1, day: 2 });
            assert_eq!(t.postings.len(), 1);
        },
        other => panic!("{:?}", other),
    }
    assert_eq!(failure("2014/01-02 close Assets:Cash\n").kind, ErrorKind::Syntax);
}

#[test]
fn windows_line_ends() {
    let file = parse("2014-01-02 close Assets:Cash\r\n2014-01-03 close Assets:Bank\r\n").unwrap();
    assert_eq!(file.directives.len(), 2);
    match &file.directives[1] {
        beancount_parser::data::Directive::Close(c) => {
            assert_eq!(c.account, "Assets:Bank");
            assert_eq!(c.meta.get("lineno").map(|s| s.as_str()), Some("2"));
        },
        other => panic!("{:?}", other),
    }
}
