use beancount_parser::booking::Booking;
use beancount_parser::data::{Directive, File, PostingCost, Transaction};
use beancount_parser::date::Date;
use beancount_parser::decimal::Decimal;
use beancount_parser::error::{ErrorKind, ParseError};
use beancount_parser::parse;
use std::str::FromStr;

fn ok(source: &str) -> File {
    match parse(source) {
        Ok(file) => file,
        Err(e) => panic!("parse failed: {:?}", e),
    }
}

fn err(source: &str) -> ParseError {
    match parse(source) {
        Ok(file) => panic!("parse succeeded: {:?}", file),
        Err(e) => e,
    }
}

fn only_transaction(file: &File) -> &Transaction {
    assert_eq!(file.directives.len(), 1);
    match &file.directives[0] {
        Directive::Transaction(t) => t,
        other => panic!("not a transaction: {:?}", other),
    }
}

fn dec(mantissa: i128, scale: u32) -> Decimal {
    Decimal { mantissa, scale }
}

#[test]
fn pushed_tag_is_attached_to_transaction() {
    let source = "pushtag #trip\n2014-01-01 * \"Coffee\"\n  Expenses:Coffee   2.00 USD\n  Assets:Cash      -2.00 USD\npoptag #trip\n";
    let file = ok(source);
    let t = only_transaction(&file);
    assert_eq!(t.tags.len(), 1);
    assert!(t.tags.contains("trip"));
    assert_eq!(t.links.len(), 0);
    assert_eq!(t.narration, "Coffee");
    assert_eq!(t.payee, None);
    assert_eq!(t.flag, '*');
    assert_eq!(t.date, Date { year: 2014, month: 1, day: 1 });
    assert_eq!(t.postings.len(), 2);
    assert_eq!(t.postings[0].account, "Expenses:Coffee");
    let units = t.postings[0].units.as_ref().unwrap();
    assert_eq!(units.number, Some(dec(200, 2)));
    assert_eq!(units.currency, "USD");
    let units = t.postings[1].units.as_ref().unwrap();
    assert_eq!(units.number, Some(dec(-200, 2)));
    assert_eq!(t.meta.get("lineno").map(|s| s.as_str()), Some("2"));
}

#[test]
fn transaction_after_poptag_has_no_pushed_tag() {
    let source = "pushtag #trip\npoptag #trip\n2014-01-01 * \"Coffee\" #own\n  Assets:Cash -2.00 USD\n";
    let file = ok(source);
    let t = only_transaction(&file);
    assert_eq!(t.tags.len(), 1);
    assert!(t.tags.contains("own"));
}

#[test]
fn total_price_is_divided_by_units() {
    let source = "2014-01-01 * \"Sell\"\n  Assets:ETrade:IVV  -10 IVV {183.07 USD} @@ 1979.00 USD\n";
    let file = ok(source);
    let t = only_transaction(&file);
    let p = &t.postings[0];
    let expected = rust_decimal::Decimal::from_str("1979.00").unwrap() / rust_decimal::Decimal::from_str("-10").unwrap();
    let price = p.price.as_ref().unwrap();
    assert_eq!(price.currency, "USD");
    assert_eq!(price.number, Some(dec(expected.mantissa(), expected.scale())));
    assert_eq!(expected.abs(), rust_decimal::Decimal::from_str("197.9").unwrap());
    match p.cost.as_ref().unwrap() {
        PostingCost::CostSpec(c) => {
            assert_eq!(c.number_per, Some(dec(18307, 2)));
            assert_eq!(c.number_total, None);
            assert_eq!(c.currency.as_deref(), Some("USD"));
            assert_eq!(c.date, None);
            assert_eq!(c.label, None);
            assert_eq!(c.merge, None);
        },
        other => panic!("not a cost spec: {:?}", other),
    }
}

#[test]
fn unit_price_stands_as_written() {
    let source = "2014-01-01 * \"Sell\"\n  Assets:ETrade:IVV  -10 IVV {183.07 USD} @ 197.90 USD\n";
    let file = ok(source);
    let t = only_transaction(&file);
    let price = t.postings[0].price.as_ref().unwrap();
    assert_eq!(price.number, Some(dec(19790, 2)));
    assert_eq!(price.currency, "USD");
}

#[test]
fn price_without_numbers_is_not_resolved() {
    let source = "2014-01-01 * \"Buy\"\n  Assets:Account  CAD @ 1.25 USD\n  Assets:Other  10 CAD @ USD\n  Assets:Third  10 CAD\n";
    let file = ok(source);
    let t = only_transaction(&file);
    assert_eq!(t.postings.len(), 3);
    assert!(t.postings[0].price.is_none());
    assert_eq!(t.postings[0].units.as_ref().unwrap().number, None);
    assert!(t.postings[1].price.is_none());
    assert!(t.postings[2].price.is_none());
}

#[test]
fn total_price_of_zero_units_is_invalid_decimal() {
    let e = err("2014-01-01 * \"Sell\"\n  Assets:ETrade:IVV  0 IVV @@ 1979.00 USD\n");
    assert_eq!(e.kind, ErrorKind::InvalidDecimal);
    assert_eq!(e.line, 2);
}

#[test]
fn total_cost_goes_to_number_total() {
    let source = "2014-01-01 * \"Buy\"\n  Assets:ETrade:IVV  10 IVV {{1830.70 USD}}\n";
    let file = ok(source);
    let t = only_transaction(&file);
    match t.postings[0].cost.as_ref().unwrap() {
        PostingCost::CostSpec(c) => {
            assert_eq!(c.number_per, None);
            assert_eq!(c.number_total, Some(dec(183070, 2)));
            assert_eq!(c.currency.as_deref(), Some("USD"));
        },
        other => panic!("not a cost spec: {:?}", other),
    }
}

#[test]
fn total_cost_with_unit_component_is_a_conflict() {
    let e = err("2014-01-01 * \"Buy\"\n  Assets:ETrade:IVV  10 IVV {{183.07 # 1830.70 USD}}\n");
    assert_eq!(e.kind, ErrorKind::CostSpecConflict);
    assert_eq!(e.line, 2);
}

#[test]
fn cost_components() {
    let source = "2014-01-01 * \"Buy\"\n  Assets:A  10 HOOL {100.00 # 9.95 USD, 2014-02-03, \"lot\", *}\n";
    let file = ok(source);
    let t = only_transaction(&file);
    match t.postings[0].cost.as_ref().unwrap() {
        PostingCost::CostSpec(c) => {
            assert_eq!(c.number_per, Some(dec(10000, 2)));
            assert_eq!(c.number_total, Some(dec(995, 2)));
            assert_eq!(c.currency.as_deref(), Some("USD"));
            assert_eq!(c.date, Some(Date { year: 2014, month: 2, day: 3 }));
            assert_eq!(c.label.as_deref(), Some("lot"));
            assert_eq!(c.merge, Some(true));
        },
        other => panic!("not a cost spec: {:?}", other),
    }
}

#[test]
fn open_with_booking() {
    let file = ok("2014-05-01 open Assets:Checking USD,CAD \"FIFO\"\n");
    match &file.directives[0] {
        Directive::Open(o) => {
            assert_eq!(o.account, "Assets:Checking");
            assert_eq!(o.currencies, vec!["USD".to_string(), "CAD".to_string()]);
            assert_eq!(o.booking, Some(Booking::FIFO));
            assert_eq!(o.date, Date { year: 2014, month: 5, day: 1 });
            assert_eq!(o.meta.get("lineno").map(|s| s.as_str()), Some("1"));
        },
        other => panic!("not an open: {:?}", other),
    }
}

#[test]
fn open_without_currencies_or_booking() {
    let file = ok("2014-05-01 open Assets:Checking\n");
    match &file.directives[0] {
        Directive::Open(o) => {
            assert!(o.currencies.is_empty());
            assert_eq!(o.booking, None);
        },
        other => panic!("not an open: {:?}", other),
    }
}

#[test]
fn open_with_unknown_booking_fails() {
    let e = err("2014-05-01 open Assets:Checking USD \"BOGUS\"\n");
    assert_eq!(e.kind, ErrorKind::InvalidBooking);
    assert_eq!(e.line, 1);
}

#[test]
fn invalid_dates_fail_the_parse() {
    assert_eq!(err("2023-02-30 close Assets:Cash\n").kind, ErrorKind::InvalidDate);
    assert_eq!(err("2023-13-01 close Assets:Cash\n").kind, ErrorKind::InvalidDate);
}

#[test]
fn malformed_number_is_invalid_decimal() {
    let e = err("2014-07-09 price USD 1+ CAD\n");
    assert_eq!(e.kind, ErrorKind::InvalidDecimal);
}

#[test]
fn unbalanced_tags_are_named() {
    let e = err("pushtag #trip\npushtag #work\npushtag #trip\n2014-01-01 close Assets:Cash\n");
    assert_eq!(e.kind, ErrorKind::UnbalancedTags);
    let mut tags = e.tags.clone();
    tags.sort();
    assert_eq!(tags, vec!["trip".to_string(), "work".to_string()]);
}

#[test]
fn popping_an_absent_tag_fails() {
    let e = err("pushtag #trip\npoptag #trip\npoptag #trip\n");
    assert_eq!(e.kind, ErrorKind::AbsentTag);
    assert_eq!(e.line, 3);
    assert_eq!(e.tags, vec!["trip".to_string()]);
}

#[test]
fn balance_without_amount_is_missing_field() {
    let e = err("2022-01-01 balance Assets:Cash\n");
    assert_eq!(e.kind, ErrorKind::MissingField);
    assert_eq!(e.line, 1);
}

#[test]
fn grammar_violation_is_a_syntax_error() {
    assert_eq!(err("2022-01-01 frobnicate Assets:Cash\n").kind, ErrorKind::Syntax);
    assert_eq!(err("hello\n").kind, ErrorKind::Syntax);
    assert_eq!(err("2022-01-01 close assets\n").kind, ErrorKind::Syntax);
    let e = err("2022-01-01 close Assets:Cash\n\n2022-01-02 close Assets:Cash extra\n");
    assert_eq!(e.kind, ErrorKind::Syntax);
    assert_eq!(e.line, 3);
}

#[test]
fn includes_and_options_are_collected_in_order() {
    let source = "include \"a.beancount\"\noption \"title\" \"Ledger\"\n; a comment\n\ninclude \"b.beancount\"\nplugin \"auto\" \"cfg\"\nplugin \"bare\"\n";
    let file = ok(source);
    assert_eq!(file.includes, vec!["a.beancount".to_string(), "b.beancount".to_string()]);
    assert_eq!(file.options, vec![("title".to_string(), "Ledger".to_string())]);
    assert_eq!(file.directives.len(), 3);
    match &file.directives[0] {
        Directive::Option(o) => {
            assert_eq!(o.name, "title");
            assert_eq!(o.value, "Ledger");
            assert_eq!(o.meta.get("lineno").map(|s| s.as_str()), Some("2"));
        },
        other => panic!("not an option: {:?}", other),
    }
    match &file.directives[1] {
        Directive::Plugin(p) => {
            assert_eq!(p.module, "auto");
            assert_eq!(p.config.as_deref(), Some("cfg"));
        },
        other => panic!("not a plugin: {:?}", other),
    }
    match &file.directives[2] {
        Directive::Plugin(p) => {
            assert_eq!(p.module, "bare");
            assert_eq!(p.config, None);
        },
        other => panic!("not a plugin: {:?}", other),
    }
}

#[test]
fn empty_input_is_an_empty_file() {
    let file = ok("");
    assert!(file.includes.is_empty());
    assert!(file.options.is_empty());
    assert!(file.directives.is_empty());
    let file = ok("\n  \n; only a comment");
    assert!(file.directives.is_empty());
}

#[test]
fn payee_and_narration() {
    let source = "2014-10-05 ! \"Costco\" \"Shopping\" #a ^l1\n  key: \"value\"\n  other: bare\n  #b ^l2\n  ! Liabilities:Card  -45.00 USD\n  Assets:John  ((40.00/3) + 5) USD\n  Expenses:Shopping\n";
    let file = ok(source);
    let t = only_transaction(&file);
    assert_eq!(t.flag, '!');
    assert_eq!(t.payee.as_deref(), Some("Costco"));
    assert_eq!(t.narration, "Shopping");
    assert!(t.tags.contains("a") && t.tags.contains("b"));
    assert_eq!(t.tags.len(), 2);
    assert!(t.links.contains("l1") && t.links.contains("l2"));
    assert_eq!(t.meta.get("key").map(|s| s.as_str()), Some("value"));
    assert_eq!(t.meta.get("other").map(|s| s.as_str()), Some("bare"));
    assert_eq!(t.meta.get("lineno").map(|s| s.as_str()), Some("1"));
    assert_eq!(t.meta.get("absent"), None);
    assert_eq!(t.postings.len(), 3);
    assert_eq!(t.postings[0].flag, Some('!'));
    assert_eq!(t.postings[1].flag, None);
    let expected = rust_decimal::Decimal::from_str("40.00").unwrap() / rust_decimal::Decimal::from_str("3").unwrap()
        + rust_decimal::Decimal::from_str("5").unwrap();
    assert_eq!(t.postings[1].units.as_ref().unwrap().number, Some(dec(expected.mantissa(), expected.scale())));
    assert!(t.postings[2].units.is_none());
    assert!(t.postings[2].metadata.entries.is_empty());
}

#[test]
fn txn_keyword_has_the_default_flag() {
    let file = ok("2014-10-05 txn \"Lunch\"\n  Assets:Cash  -5 USD\n");
    let t = only_transaction(&file);
    assert_eq!(t.flag, '*');
}

#[test]
fn transaction_without_narration_is_missing_field() {
    assert_eq!(err("2014-10-05 *\n  Assets:Cash  -5 USD\n").kind, ErrorKind::MissingField);
}

#[test]
fn positional_directives() {
    let source = "2014-01-01 close Assets:Cash\n2014-01-02 commodity USD\n  name: \"Dollar\"\n2014-01-03 pad Assets:Cash Equity:Opening\n2014-01-04 balance Assets:Cash  0 DEFCCY\n2014-07-09 price USD  1.08 CAD\n2014-07-09 event \"location\" \"Paris, France\"\n2014-07-09 query \"france\" \"\n  SELECT account\"\n2013-05-18 note Assets:US:BestBank  \"Blah.\" ^984446a67382 #something\n2013-11-03 document Liabilities:Card \"/home/joe/apr.pdf\"\n2014-07-09 custom \"budget\" \"some\" TRUE 45.30 USD\n";
    let file = ok(source);
    assert_eq!(file.directives.len(), 10);
    match &file.directives[0] {
        Directive::Close(d) => assert_eq!(d.account, "Assets:Cash"),
        other => panic!("{:?}", other),
    }
    match &file.directives[1] {
        Directive::Commodity(d) => {
            assert_eq!(d.currency, "USD");
            assert_eq!(d.meta.get("name").map(|s| s.as_str()), Some("Dollar"));
            assert_eq!(d.meta.get("lineno").map(|s| s.as_str()), Some("2"));
        },
        other => panic!("{:?}", other),
    }
    match &file.directives[2] {
        Directive::Pad(d) => {
            assert_eq!(d.account, "Assets:Cash");
            assert_eq!(d.source_account, "Equity:Opening");
            assert_eq!(d.meta.get("lineno").map(|s| s.as_str()), Some("4"));
        },
        other => panic!("{:?}", other),
    }
    match &file.directives[3] {
        Directive::Balance(d) => {
            assert_eq!(d.account, "Assets:Cash");
            assert_eq!(d.amount.number, Some(dec(0, 0)));
            assert_eq!(d.amount.currency, "DEFCCY");
            assert_eq!(d.tolerance, None);
            assert!(d.diff_amount.is_none());
        },
        other => panic!("{:?}", other),
    }
    match &file.directives[4] {
        Directive::Price(d) => {
            assert_eq!(d.currency, "USD");
            assert_eq!(d.amount.number, Some(dec(108, 2)));
            assert_eq!(d.amount.currency, "CAD");
        },
        other => panic!("{:?}", other),
    }
    match &file.directives[5] {
        Directive::Event(d) => {
            assert_eq!(d.name, "location");
            assert_eq!(d.description, "Paris, France");
        },
        other => panic!("{:?}", other),
    }
    match &file.directives[6] {
        Directive::Query(d) => {
            assert_eq!(d.name, "france");
            assert_eq!(d.query_string, "\n  SELECT account");
            assert_eq!(d.meta.get("lineno").map(|s| s.as_str()), Some("8"));
        },
        other => panic!("{:?}", other),
    }
    match &file.directives[7] {
        Directive::Note(d) => {
            assert_eq!(d.account, "Assets:US:BestBank");
            assert_eq!(d.comment, "Blah.");
            assert!(d.tags.contains("something"));
            assert!(d.link.contains("984446a67382"));
            assert_eq!(d.meta.get("lineno").map(|s| s.as_str()), Some("10"));
        },
        other => panic!("{:?}", other),
    }
    match &file.directives[8] {
        Directive::Document(d) => {
            assert_eq!(d.account, "Liabilities:Card");
            assert_eq!(d.filename, "/home/joe/apr.pdf");
            assert_eq!(d.tags.len(), 0);
        },
        other => panic!("{:?}", other),
    }
    match &file.directives[9] {
        Directive::Custom(d) => {
            assert_eq!(d.name, "budget");
            assert_eq!(
                d.values,
                vec!["some".to_string(), "TRUE".to_string(), "45.30".to_string(), "USD".to_string()]
            );
        },
        other => panic!("{:?}", other),
    }
}

#[test]
fn non_ascii_text_is_kept() {
    let file = ok("2020-02-01 note Liabilities:CreditCard:CapitalOne \"你好\"\n");
    match &file.directives[0] {
        Directive::Note(d) => assert_eq!(d.comment, "你好"),
        other => panic!("{:?}", other),
    }
}

#[test]
fn later_metadata_value_stands() {
    let file = ok("2014-01-01 close Assets:Cash\n  k: \"one\"\n  k: \"two\"\n");
    match &file.directives[0] {
        Directive::Close(d) => assert_eq!(d.meta.get("k").map(|s| s.as_str()), Some("two")),
        other => panic!("{:?}", other),
    }
}

#[test]
fn balance_tolerance_is_read_and_left_out() {
    let file = ok("2014-01-04 balance Assets:Cash  100.00 ~ 0.01 USD\n");
    match &file.directives[0] {
        Directive::Balance(d) => {
            assert_eq!(d.amount.number, Some(dec(10000, 2)));
            assert_eq!(d.amount.currency, "USD");
            assert_eq!(d.tolerance, None);
        },
        other => panic!("{:?}", other),
    }
    assert_eq!(err("2014-01-04 balance Assets:Cash  100.00 ~ USD\n").kind, ErrorKind::InvalidDecimal);
    assert_eq!(err("2014-01-04 balance Assets:Cash  USD\n").kind, ErrorKind::InvalidDecimal);
}
