use beancount_parser::booking::Booking;
use beancount_parser::date::Date;
use beancount_parser::error::ErrorKind;
use beancount_parser::tags::ParseState;

#[test]
fn valid_dates_round_trip() {
    for (y, m, d) in [(2023, 1, 31), (2024, 2, 29), (2000, 2, 29), (1999, 12, 31), (2023, 4, 30), (1, 1, 1)] {
        let date = Date::from_ymd(y, m, d).unwrap();
        assert_eq!((date.year, date.month, date.day), (y, m, d));
    }
}

#[test]
fn impossible_dates_are_rejected() {
    assert_eq!(Date::from_ymd(2023, 2, 30), Err(ErrorKind::InvalidDate));
    assert_eq!(Date::from_ymd(2023, 13, 1), Err(ErrorKind::InvalidDate));
    assert_eq!(Date::from_ymd(2023, 2, 29), Err(ErrorKind::InvalidDate));
    assert_eq!(Date::from_ymd(1900, 2, 29), Err(ErrorKind::InvalidDate));
    assert_eq!(Date::from_ymd(2023, 0, 1), Err(ErrorKind::InvalidDate));
    assert_eq!(Date::from_ymd(2023, 1, 0), Err(ErrorKind::InvalidDate));
    assert_eq!(Date::from_ymd(2023, 4, 31), Err(ErrorKind::InvalidDate));
    assert_eq!(Date::from_ymd(400000, 1, 1), Err(ErrorKind::InvalidDate));
    assert_eq!(Date::from_ymd(-400000, 1, 1), Err(ErrorKind::InvalidDate));
}

#[test]
fn year_bounds_are_those_of_the_calendar() {
    assert!(Date::from_ymd(262142, 12, 31).is_ok());
    assert!(Date::from_ymd(262143, 1, 1).is_err());
    assert!(Date::from_ymd(-262143, 1, 1).is_ok());
    assert!(Date::from_ymd(-262144, 12, 31).is_err());
    assert!(Date::from_ymd(-4, 2, 29).is_ok());
}

#[test]
fn booking_names_convert_both_ways() {
    let all = [
        (Booking::STRICT, "STRICT"),
        (Booking::STRICT_WITH_SIZE, "STRICT_WITH_SIZE"),
        (Booking::NONE, "NONE"),
        (Booking::AVERAGE, "AVERAGE"),
        (Booking::FIFO, "FIFO"),
        (Booking::LIFO, "LIFO"),
        (Booking::HIFO, "HIFO"),
    ];
    for (b, name) in all {
        assert_eq!(b.name(), name);
        assert_eq!(b.value(), name);
        assert_eq!(Booking::try_from(name), Ok(b));
    }
}

#[test]
fn unknown_booking_is_an_error() {
    assert_eq!(Booking::try_from("BOGUS"), Err(ErrorKind::InvalidBooking));
    assert_eq!(Booking::try_from("fifo"), Err(ErrorKind::InvalidBooking));
    assert_eq!(Booking::try_from(""), Err(ErrorKind::InvalidBooking));
}

#[test]
fn pushing_twice_and_popping_once_leaves_the_tag_active() {
    let mut state = ParseState::new();
    state.push_tag("trip".to_string());
    state.push_tag("trip".to_string());
    assert_eq!(state.pop_tag("trip"), Ok(()));
    assert!(state.get_pushed_tags().contains("trip"));
    assert_eq!(state.pushed.iter().filter(|t| t.as_str() == "trip").count(), 1);
    assert!(!state.is_balanced());
}

#[test]
fn third_pop_fails() {
    let mut state = ParseState::new();
    state.push_tag("trip".to_string());
    state.push_tag("trip".to_string());
    assert_eq!(state.pop_tag("trip"), Ok(()));
    assert_eq!(state.pop_tag("trip"), Ok(()));
    assert!(state.is_balanced());
    assert_eq!(state.pop_tag("trip"), Err(ErrorKind::AbsentTag));
    assert!(state.is_balanced());
}

#[test]
fn popping_leaves_other_tags() {
    let mut state = ParseState::new();
    state.push_tag("a".to_string());
    state.push_tag("b".to_string());
    assert_eq!(state.pop_tag("c"), Err(ErrorKind::AbsentTag));
    assert_eq!(state.pop_tag("a"), Ok(()));
    let pushed = state.get_pushed_tags();
    assert!(pushed.contains("b"));
    assert!(!pushed.contains("a"));
    assert_eq!(pushed.len(), 1);
}

#[test]
fn date_literal_reads_back() {
    let date = Date { year: 2014, month: 3, day: 9 };
    let text = date.to_text().unwrap();
    assert_eq!(text, "2014-03-09");
    let file = beancount_parser::parse(&format!("{} close Assets:Cash\n", text)).unwrap();
    match &file.directives[0] {
        beancount_parser::Directive::Close(c) => assert_eq!(c.date, date),
        other => panic!("{:?}", other),
    }
    assert_eq!(Date { year: 7, month: 12, day: 31 }.to_text().unwrap(), "0007-12-31");
    assert_eq!(Date { year: 10000, month: 1, day: 1 }.to_text(), None);
    assert_eq!(Date { year: -1, month: 1, day: 1 }.to_text(), None);
}
