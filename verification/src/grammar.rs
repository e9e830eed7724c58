//! The lexical grammar: the shapes of the tokens of a ledger, each read at a
//! position of the text.
//!
//! Every shape is a spec function over the characters and a position. It
//! gives the value of the token and the position behind it, or the failure.
//! The executable function of the same name, without `spec_`, returns that.

use vstd::prelude::*;
use vstd::slice::slice_subrange;
use crate::data::{Amount, AmountView};
use crate::date::{spec_resolve, Date};
use crate::decimal::Decimal;
use crate::error::{fault, ErrorKind, Fault};
use crate::expr::{evaluate, is_digit, spec_evaluate};
use crate::text::{digit_char, string_of};

verus! {

/// A result of the grammar, as the value that the contracts speak of: on
/// success the value of what was read and the position behind it.
pub open spec fn scanned<T: DeepView>(out: Result<(T, usize), Fault>) -> Result<(T::V, int), Fault> {
    match out {
        Ok((v, q)) => Ok((v.deep_view(), q as int)),
        Err(e) => Err(e),
    }
}

/// The classes of characters that tokens are made of.
#[derive(Clone, Copy, Debug, PartialEq, Eq, Structural)]
pub enum CharClass {
    /// Blanks inside a line.
    Space,
    /// The characters of the name of a tag, a link, a key or a keyword.
    Name,
    /// The characters of an account.
    Account,
    /// The characters of a currency.
    Currency,
    /// The characters of a numeric expression.
    Number,
    /// The characters of an unquoted value.
    Bare,
    /// The characters inside a quoted string.
    Quoted,
    /// The characters of a line.
    Line,
}

pub open spec fn is_space(c: char) -> bool {
    c == ' ' || c == '\t' || c == '\r'
}

pub open spec fn is_upper(c: char) -> bool {
    'A' <= c <= 'Z'
}

pub open spec fn is_lower(c: char) -> bool {
    'a' <= c <= 'z'
}

pub open spec fn is_alnum(c: char) -> bool {
    is_upper(c) || is_lower(c) || is_digit(c)
}

/// Whether `c` belongs to `class`.
pub open spec fn in_class(class: CharClass, c: char) -> bool {
    match class {
        CharClass::Space => is_space(c),
        CharClass::Name => is_alnum(c) || c == '-' || c == '_' || c == '/' || c == '.',
        CharClass::Account => is_alnum(c) || c == ':' || c == '-' || c >= '\u{80}',
        CharClass::Currency => is_upper(c) || is_digit(c) || c == '\'' || c == '.' || c == '_' || c == '-',
        CharClass::Number => is_digit(c) || c == '.' || c == ',' || c == '+' || c == '-' || c == '*'
            || c == '/' || c == '(' || c == ')' || c == ' ',
        CharClass::Bare => !is_space(c) && c != '\n' && c != '"',
        CharClass::Quoted => c != '"',
        CharClass::Line => c != '\n',
    }
}

/// The end of the longest run of characters of `class` that starts at `pos`.
pub open spec fn run_end(s: Seq<char>, pos: int, class: CharClass) -> int
    decreases s.len() - pos,
{
    if 0 <= pos < s.len() && in_class(class, s[pos]) {
        run_end(s, pos + 1, class)
    } else {
        pos
    }
}

/// The run that starts at `pos` is the longest one: every character in it
/// belongs to the class, and the character behind it, where there is one,
/// does not.
pub proof fn lemma_run_end_bounds(s: Seq<char>, pos: int, class: CharClass)
    requires
        0 <= pos <= s.len(),
    ensures
        pos <= run_end(s, pos, class) <= s.len(),
        pos < s.len() && in_class(class, s[pos]) ==> pos < run_end(s, pos, class),
        run_end(s, pos, class) < s.len() ==> !in_class(class, s[run_end(s, pos, class)]),
        forall|i: int| pos <= i < run_end(s, pos, class) ==> in_class(class, #[trigger] s[i]),
    decreases s.len() - pos,
{
    if pos < s.len() && in_class(class, s[pos]) {
        lemma_run_end_bounds(s, pos + 1, class);
    }
}

/// The first position at or after `pos` that holds no blank.
pub open spec fn skip_spaces(s: Seq<char>, pos: int) -> int {
    run_end(s, pos, CharClass::Space)
}

/// Whether nothing but a comment is left of the line at `pos`.
pub open spec fn at_line_end(s: Seq<char>, pos: int) -> bool {
    pos >= s.len() || s[pos] == '\n' || s[pos] == ';'
}

pub fn is_upper_char(c: char) -> (out: bool)
    ensures
        out == is_upper(c),
{
    'A' <= c && c <= 'Z'
}

pub fn is_lower_char(c: char) -> (out: bool)
    ensures
        out == is_lower(c),
{
    'a' <= c && c <= 'z'
}

pub fn is_digit_char(c: char) -> (out: bool)
    ensures
        out == is_digit(c),
{
    '0' <= c && c <= '9'
}

pub fn has_class(class: CharClass, c: char) -> (out: bool)
    ensures
        out == in_class(class, c),
{
    let alnum = is_upper_char(c) || is_lower_char(c) || is_digit_char(c);
    match class {
        CharClass::Space => c == ' ' || c == '\t' || c == '\r',
        CharClass::Name => alnum || c == '-' || c == '_' || c == '/' || c == '.',
        CharClass::Account => alnum || c == ':' || c == '-' || c >= '\u{80}',
        CharClass::Currency => is_upper_char(c) || is_digit_char(c) || c == '\'' || c == '.' || c == '_' || c == '-',
        CharClass::Number => is_digit_char(c) || c == '.' || c == ',' || c == '+' || c == '-' || c == '*'
            || c == '/' || c == '(' || c == ')' || c == ' ',
        CharClass::Bare => !(c == ' ' || c == '\t' || c == '\r') && c != '\n' && c != '"',
        CharClass::Quoted => c != '"',
        CharClass::Line => c != '\n',
    }
}

/// The end of the run of characters of `class` at `pos`.
pub fn scan_run(s: &[char], pos: usize, class: CharClass) -> (end: usize)
    requires
        pos <= s.len(),
    ensures
        end as int == run_end(s@, pos as int, class),
        pos <= end <= s.len(),
        pos < s.len() && in_class(class, s[pos as int]) ==> pos < end,
        end < s.len() ==> !in_class(class, s[end as int]),
{
    proof {
        lemma_run_end_bounds(s@, pos as int, class);
    }
    let mut p: usize = pos;
    while p < s.len() && has_class(class, s[p])
        invariant
            pos <= p <= s.len(),
            run_end(s@, p as int, class) == run_end(s@, pos as int, class),
        decreases s.len() - p,
    {
        p += 1;
    }
    p
}

/// Skips blanks.
pub fn spaces(s: &[char], pos: usize) -> (end: usize)
    requires
        pos <= s.len(),
    ensures
        end as int == skip_spaces(s@, pos as int),
        pos <= end <= s.len(),
        end < s.len() ==> !is_space(s[end as int]),
{
    scan_run(s, pos, CharClass::Space)
}

/// Whether the line ends at `pos`.
pub fn line_ends(s: &[char], pos: usize) -> (out: bool)
    requires
        pos <= s.len(),
    ensures
        out == at_line_end(s@, pos as int),
{
    pos >= s.len() || s[pos] == '\n' || s[pos] == ';'
}

/// The text of `s` from `from` to `to` as a string.
pub fn text_of(s: &[char], from: usize, to: usize) -> (out: String)
    requires
        from <= to <= s.len(),
    ensures
        out@ == s@.subrange(from as int, to as int),
{
    string_of(slice_subrange(s, from, to))
}

/// The rest of a line: blanks, then a comment or nothing, up to and with the
/// line break. Gives the position of the next line, and the syntax failure
/// where anything else stands there.
pub open spec fn spec_end_of_line(s: Seq<char>, pos: int) -> Result<int, Fault> {
    let p = skip_spaces(s, pos);
    if !at_line_end(s, p) {
        Err(fault(ErrorKind::Syntax, p))
    } else {
        let e = run_end(s, p, CharClass::Line);
        if e < s.len() {
            Ok(e + 1)
        } else {
            Ok(e)
        }
    }
}

pub fn end_of_line(s: &[char], pos: usize) -> (out: Result<usize, Fault>)
    requires
        pos <= s.len(),
    ensures
        match out {
            Ok(q) => spec_end_of_line(s@, pos as int) == Ok::<int, Fault>(q as int) && pos <= q <= s.len(),
            Err(e) => spec_end_of_line(s@, pos as int) == Err::<int, Fault>(e),
        },
{
    let p = spaces(s, pos);
    if !line_ends(s, p) {
        Err(Fault { kind: ErrorKind::Syntax, at: p })
    } else {
        let e = scan_run(s, p, CharClass::Line);
        if e < s.len() {
            Ok(e + 1)
        } else {
            Ok(e)
        }
    }
}

/// The start of a component that the line must still hold: the position
/// behind the blanks, and the missing-field failure where the line ends.
pub open spec fn spec_required(s: Seq<char>, pos: int) -> Result<int, Fault> {
    let p = skip_spaces(s, pos);
    if at_line_end(s, p) {
        Err(fault(ErrorKind::MissingField, p))
    } else {
        Ok(p)
    }
}

pub fn required(s: &[char], pos: usize) -> (out: Result<usize, Fault>)
    requires
        pos <= s.len(),
    ensures
        match out {
            Ok(q) => spec_required(s@, pos as int) == Ok::<int, Fault>(q as int) && pos <= q < s.len(),
            Err(e) => spec_required(s@, pos as int) == Err::<int, Fault>(e),
        },
{
    let p = spaces(s, pos);
    if line_ends(s, p) {
        Err(Fault { kind: ErrorKind::MissingField, at: p })
    } else {
        Ok(p)
    }
}

pub open spec fn digit_value(c: char) -> int {
    c as int - '0' as int
}

/// Whether a date literal `YYYY-MM-DD` stands at `p`.
pub open spec fn is_date_shape(s: Seq<char>, p: int) -> bool {
    &&& 0 <= p
    &&& p + 10 <= s.len()
    &&& is_digit(s[p]) && is_digit(s[p + 1]) && is_digit(s[p + 2]) && is_digit(s[p + 3])
    &&& (s[p + 4] == '-' || s[p + 4] == '/')
    &&& is_digit(s[p + 5]) && is_digit(s[p + 6])
    &&& s[p + 7] == s[p + 4]
    &&& is_digit(s[p + 8]) && is_digit(s[p + 9])
    &&& (p + 10 < s.len() ==> !is_digit(s[p + 10]))
}

pub open spec fn date_year(s: Seq<char>, p: int) -> int {
    1000 * digit_value(s[p]) + 100 * digit_value(s[p + 1]) + 10 * digit_value(s[p + 2]) + digit_value(s[p + 3])
}

pub open spec fn date_month(s: Seq<char>, p: int) -> int {
    10 * digit_value(s[p + 5]) + digit_value(s[p + 6])
}

pub open spec fn date_day(s: Seq<char>, p: int) -> int {
    10 * digit_value(s[p + 8]) + digit_value(s[p + 9])
}

/// A date: the literal `YYYY-MM-DD` resolved to a calendar date.
pub open spec fn spec_date(s: Seq<char>, pos: int) -> Result<(Date, int), Fault> {
    match spec_required(s, pos) {
        Err(e) => Err(e),
        Ok(p) => if !is_date_shape(s, p) {
            Err(fault(ErrorKind::Syntax, p))
        } else {
            match spec_resolve(date_year(s, p) as i32, date_month(s, p) as u32, date_day(s, p) as u32) {
                Ok(d) => Ok((d, p + 10)),
                Err(kind) => Err(fault(kind, p)),
            }
        },
    }
}

/// The character of a digit is a digit with that value.
pub proof fn lemma_digit_char(k: nat)
    requires
        k < 10,
    ensures
        is_digit(digit_char(k)),
        digit_value(digit_char(k)) == k,
        !is_space(digit_char(k)),
        digit_char(k) != '\n',
        digit_char(k) != ';',
{
}

/// A number below ten thousand is the sum of its four decimal digits.
pub proof fn lemma_four_digits(y: nat)
    requires
        y <= 9999,
    ensures
        y / 1000 < 10,
        y % 1000 / 100 < 10,
        y % 1000 % 100 / 10 < 10,
        y % 1000 % 100 % 10 < 10,
        1000 * (y / 1000) + 100 * (y % 1000 / 100) + 10 * (y % 1000 % 100 / 10) + y % 1000 % 100 % 10 == y,
{
    let r = y % 1000;
    let t = r % 100;
    assert(y == 1000 * (y / 1000) + r);
    assert(r == 100 * (r / 100) + t);
    assert(t == 10 * (t / 10) + t % 10);
}

/// A number below a hundred is the sum of its two decimal digits.
pub proof fn lemma_two_digits(m: nat)
    requires
        m <= 99,
    ensures
        m / 10 < 10,
        m % 10 < 10,
        10 * (m / 10) + m % 10 == m,
{
}

/// The literal of a valid date has the shape of a date and holds its year,
/// month and day.
#[verifier::rlimit(50)]
proof fn lemma_date_text_shape(date: Date, rest: Seq<char>)
    requires
        date.has_text(),
        rest.len() > 0 ==> !is_digit(rest[0]),
    ensures
        skip_spaces(date.spec_text() + rest, 0) == 0,
        !at_line_end(date.spec_text() + rest, 0),
        is_date_shape(date.spec_text() + rest, 0),
        date_year(date.spec_text() + rest, 0) == date.year,
        date_month(date.spec_text() + rest, 0) == date.month,
        date_day(date.spec_text() + rest, 0) == date.day,
{
    let s = date.spec_text() + rest;
    let y = date.year as nat;
    let m = date.month as nat;
    let d = date.day as nat;
    lemma_four_digits(y);
    lemma_two_digits(m);
    lemma_two_digits(d);
    lemma_digit_char(y / 1000);
    lemma_digit_char(y % 1000 / 100);
    lemma_digit_char(y % 1000 % 100 / 10);
    lemma_digit_char(y % 1000 % 100 % 10);
    lemma_digit_char(m / 10);
    lemma_digit_char(m % 10);
    lemma_digit_char(d / 10);
    lemma_digit_char(d % 10);
    assert(s.len() == 10 + rest.len());
    assert(s[0] == digit_char(y / 1000));
    assert(s[1] == digit_char(y % 1000 / 100));
    assert(s[2] == digit_char(y % 1000 % 100 / 10));
    assert(s[3] == digit_char(y % 1000 % 100 % 10));
    assert(s[4] == '-');
    assert(s[5] == digit_char(m / 10));
    assert(s[6] == digit_char(m % 10));
    assert(s[7] == '-');
    assert(s[8] == digit_char(d / 10));
    assert(s[9] == digit_char(d % 10));
    assert(rest.len() > 0 ==> s[10] == rest[0]);
}

/// The literal of a valid date reads back as that date: written as
/// `YYYY-MM-DD` and followed by anything but a digit, it is the date with
/// the same year, month and day, and the position behind it.
pub proof fn lemma_date_text_round_trip(date: Date, rest: Seq<char>)
    requires
        date.is_valid(),
        date.has_text(),
        rest.len() > 0 ==> !is_digit(rest[0]),
    ensures
        spec_date(date.spec_text() + rest, 0) == Ok::<(Date, int), Fault>((date, 10)),
{
    lemma_date_text_shape(date, rest);
}

fn digit_of(c: char) -> (out: u32)
    requires
        is_digit(c),
    ensures
        out as int == digit_value(c),
        out <= 9,
{
    (c as u32) - ('0' as u32)
}

/// Whether a date literal stands at `p`.
pub fn date_shape(s: &[char], p: usize) -> (out: bool)
    requires
        p <= s.len(),
    ensures
        out == is_date_shape(s@, p as int),
{
    if s.len() - p < 10 {
        return false;
    }
    is_digit_char(s[p]) && is_digit_char(s[p + 1]) && is_digit_char(s[p + 2]) && is_digit_char(s[p + 3])
        && (s[p + 4] == '-' || s[p + 4] == '/') && is_digit_char(s[p + 5]) && is_digit_char(s[p + 6])
        && s[p + 7] == s[p + 4] && is_digit_char(s[p + 8]) && is_digit_char(s[p + 9]) && (p + 10 >= s.len()
        || !is_digit_char(s[p + 10]))
}

pub fn date(s: &[char], pos: usize) -> (out: Result<(Date, usize), Fault>)
    requires
        pos <= s.len(),
    ensures
        scanned(out) == spec_date(s@, pos as int),
        out matches Ok((d, q)) ==> pos <= q <= s.len() && d.is_valid(),
{
    let p = match required(s, pos) {
        Ok(p) => p,
        Err(e) => {
            return Err(e);
        },
    };
    if !date_shape(s, p) {
        return Err(Fault { kind: ErrorKind::Syntax, at: p });
    }
    let year: u32 = 1000 * digit_of(s[p]) + 100 * digit_of(s[p + 1]) + 10 * digit_of(s[p + 2]) + digit_of(s[p + 3]);
    let month: u32 = 10 * digit_of(s[p + 5]) + digit_of(s[p + 6]);
    let day: u32 = 10 * digit_of(s[p + 8]) + digit_of(s[p + 9]);
    match Date::from_ymd(year as i32, month, day) {
        Ok(d) => Ok((d, p + 10)),
        Err(kind) => Err(Fault { kind, at: p }),
    }
}

/// A word that begins with a capital letter and goes on in `class`: an
/// account or a currency.
pub open spec fn spec_capital_word(s: Seq<char>, pos: int, class: CharClass) -> Result<(Seq<char>, int), Fault> {
    match spec_required(s, pos) {
        Err(e) => Err(e),
        Ok(p) => if !is_upper(s[p]) {
            Err(fault(ErrorKind::Syntax, p))
        } else {
            let e = run_end(s, p + 1, class);
            Ok((s.subrange(p, e), e))
        },
    }
}

fn capital_word(s: &[char], pos: usize, class: CharClass) -> (out: Result<(String, usize), Fault>)
    requires
        pos <= s.len(),
    ensures
        scanned(out) == spec_capital_word(s@, pos as int, class),
        out matches Ok((_, q)) ==> pos < q <= s.len(),
{
    let p = match required(s, pos) {
        Ok(p) => p,
        Err(e) => {
            return Err(e);
        },
    };
    if !is_upper_char(s[p]) {
        return Err(Fault { kind: ErrorKind::Syntax, at: p });
    }
    let e = scan_run(s, p + 1, class);
    Ok((text_of(s, p, e), e))
}

/// An account: a capital letter, then letters, digits, `:` and `-`.
pub open spec fn spec_account(s: Seq<char>, pos: int) -> Result<(Seq<char>, int), Fault> {
    spec_capital_word(s, pos, CharClass::Account)
}

pub fn account(s: &[char], pos: usize) -> (out: Result<(String, usize), Fault>)
    requires
        pos <= s.len(),
    ensures
        scanned(out) == spec_account(s@, pos as int),
        out matches Ok((_, q)) ==> pos < q <= s.len(),
{
    capital_word(s, pos, CharClass::Account)
}

/// A currency: a capital letter, then capitals, digits and `' . _ -`.
pub open spec fn spec_currency(s: Seq<char>, pos: int) -> Result<(Seq<char>, int), Fault> {
    spec_capital_word(s, pos, CharClass::Currency)
}

pub fn currency(s: &[char], pos: usize) -> (out: Result<(String, usize), Fault>)
    requires
        pos <= s.len(),
    ensures
        scanned(out) == spec_currency(s@, pos as int),
        out matches Ok((_, q)) ==> pos < q <= s.len(),
{
    capital_word(s, pos, CharClass::Currency)
}

/// A quoted string: the text between a `"` and the next one, line breaks
/// included.
pub open spec fn spec_get_quoted_str(s: Seq<char>, pos: int) -> Result<(Seq<char>, int), Fault> {
    match spec_required(s, pos) {
        Err(e) => Err(e),
        Ok(p) => if s[p] != '"' {
            Err(fault(ErrorKind::Syntax, p))
        } else {
            let e = run_end(s, p + 1, CharClass::Quoted);
            if e >= s.len() {
                Err(fault(ErrorKind::Syntax, p))
            } else {
                Ok((s.subrange(p + 1, e), e + 1))
            }
        },
    }
}

pub fn get_quoted_str(s: &[char], pos: usize) -> (out: Result<(String, usize), Fault>)
    requires
        pos <= s.len(),
    ensures
        scanned(out) == spec_get_quoted_str(s@, pos as int),
        out matches Ok((_, q)) ==> pos < q <= s.len(),
{
    let p = match required(s, pos) {
        Ok(p) => p,
        Err(e) => {
            return Err(e);
        },
    };
    if s[p] != '"' {
        return Err(Fault { kind: ErrorKind::Syntax, at: p });
    }
    let e = scan_run(s, p + 1, CharClass::Quoted);
    if e >= s.len() {
        return Err(Fault { kind: ErrorKind::Syntax, at: p });
    }
    Ok((text_of(s, p + 1, e), e + 1))
}

/// Whether a numeric expression can begin with `c`.
pub open spec fn begins_number(c: char) -> bool {
    is_digit(c) || c == '-' || c == '+' || c == '(' || c == '.'
}

pub fn number_begins(c: char) -> (out: bool)
    ensures
        out == begins_number(c),
{
    is_digit_char(c) || c == '-' || c == '+' || c == '(' || c == '.'
}

/// A numeric expression: the run of expression characters at `pos`,
/// evaluated; the invalid-decimal failure where it has no value.
pub open spec fn spec_num_expr(s: Seq<char>, pos: int) -> Result<(Decimal, int), Fault> {
    let e = run_end(s, pos, CharClass::Number);
    match spec_evaluate(s.subrange(pos, e)) {
        Some(d) => Ok((d, e)),
        None => Err(fault(ErrorKind::InvalidDecimal, pos)),
    }
}

pub fn num_expr(s: &[char], pos: usize) -> (out: Result<(Decimal, usize), Fault>)
    requires
        pos <= s.len(),
    ensures
        scanned(out) == spec_num_expr(s@, pos as int),
        out matches Ok((d, q)) ==> pos <= q <= s.len() && d.is_valid(),
{
    let e = scan_run(s, pos, CharClass::Number);
    match evaluate(slice_subrange(s, pos, e)) {
        Some(d) => Ok((d, e)),
        None => Err(Fault { kind: ErrorKind::InvalidDecimal, at: pos }),
    }
}

/// An amount: a numeric expression, which may be left out, and a currency.
pub open spec fn spec_amount(s: Seq<char>, pos: int) -> Result<(AmountView, int), Fault> {
    match spec_required(s, pos) {
        Err(e) => Err(e),
        Ok(p) => if begins_number(s[p]) {
            match spec_num_expr(s, p) {
                Err(e) => Err(e),
                Ok((number, q)) => match spec_currency(s, q) {
                    Err(e) => Err(e),
                    Ok((currency, r)) => Ok((AmountView { number: Some(number), currency }, r)),
                },
            }
        } else {
            match spec_currency(s, p) {
                Err(e) => Err(e),
                Ok((currency, r)) => Ok((AmountView { number: None, currency }, r)),
            }
        },
    }
}

pub fn amount(s: &[char], pos: usize) -> (out: Result<(Amount, usize), Fault>)
    requires
        pos <= s.len(),
    ensures
        scanned(out) == spec_amount(s@, pos as int),
        out matches Ok((a, q)) ==> pos < q <= s.len() && a.deep_view().is_valid(),
{
    let p = match required(s, pos) {
        Ok(p) => p,
        Err(e) => {
            return Err(e);
        },
    };
    if number_begins(s[p]) {
        let (number, q) = match num_expr(s, p) {
            Ok(v) => v,
            Err(e) => {
                return Err(e);
            },
        };
        match currency(s, q) {
            Err(e) => Err(e),
            Ok((currency, r)) => Ok((Amount { number: Some(number), currency }, r)),
        }
    } else {
        match currency(s, p) {
            Err(e) => Err(e),
            Ok((currency, r)) => Ok((Amount { number: None, currency }, r)),
        }
    }
}

} // verus!
