//! Numeric expressions: decimal literals, unary sign, `+ - * /` and
//! parentheses, evaluated in decimal arithmetic.
//!
//! The grammar is stated as spec functions over a sequence of characters and
//! a position; the executable functions follow it and return what it states.

use vstd::prelude::*;
use crate::decimal::Decimal;
use crate::text::string_of;

verus! {

/// A result that carries a position, with the position as an `int`.
pub open spec fn located<T>(r: Option<(T, usize)>) -> Option<(T, int)> {
    match r {
        Some((v, q)) => Some((v, q as int)),
        None => None,
    }
}

pub open spec fn is_digit(c: char) -> bool {
    '0' <= c <= '9'
}

/// A character of a literal: a digit, the decimal point, or a comma that
/// groups digits.
pub open spec fn is_literal_char(c: char) -> bool {
    is_digit(c) || c == '.' || c == ','
}

/// The first position at or after `pos` that holds no blank.
pub open spec fn skip_blank(s: Seq<char>, pos: int) -> int
    decreases s.len() - pos,
{
    if 0 <= pos < s.len() && s[pos] == ' ' {
        skip_blank(s, pos + 1)
    } else {
        pos
    }
}

/// The end of the run of literal characters that starts at `pos`.
pub open spec fn literal_end(s: Seq<char>, pos: int) -> int
    decreases s.len() - pos,
{
    if 0 <= pos < s.len() && is_literal_char(s[pos]) {
        literal_end(s, pos + 1)
    } else {
        pos
    }
}

/// `s` without its commas.
pub open spec fn without_commas(s: Seq<char>) -> Seq<char>
    decreases s.len(),
{
    if s.len() == 0 {
        s
    } else if s.last() == ',' {
        without_commas(s.drop_last())
    } else {
        without_commas(s.drop_last()).push(s.last())
    }
}

/// The result of one binary operator on two decimals.
pub open spec fn apply(op: char, a: Decimal, b: Decimal) -> Option<Decimal> {
    if op == '+' {
        a.spec_add(b)
    } else if op == '-' {
        a.spec_sub(b)
    } else if op == '*' {
        a.spec_mul(b)
    } else {
        a.spec_div(b)
    }
}

/// factor := blank* ( '-' factor | '+' factor | '(' sum blank* ')' | literal )
pub open spec fn spec_factor(s: Seq<char>, pos: int) -> Option<(Decimal, int)>
    decreases s.len() - pos, 0int,
{
    let p = skip_blank(s, pos);
    if !(0 <= pos <= p < s.len()) {
        None
    } else if s[p] == '-' {
        match spec_factor(s, p + 1) {
            Some((v, q)) => match v.spec_neg() {
                Some(n) => Some((n, q)),
                None => None,
            },
            None => None,
        }
    } else if s[p] == '+' {
        spec_factor(s, p + 1)
    } else if s[p] == '(' {
        match spec_sum(s, p + 1) {
            Some((v, q)) => {
                let close = skip_blank(s, q);
                if 0 <= close < s.len() && s[close] == ')' {
                    Some((v, close + 1))
                } else {
                    None
                }
            },
            None => None,
        }
    } else if is_digit(s[p]) || s[p] == '.' {
        let e = literal_end(s, p);
        match Decimal::spec_parse(without_commas(s.subrange(p, e))) {
            Some(d) => Some((d, e)),
            None => None,
        }
    } else {
        None
    }
}

/// The operators `* /` and their right operands that follow a product whose
/// value so far is `acc`, applied from left to right.
pub open spec fn spec_product_rest(s: Seq<char>, pos: int, acc: Decimal) -> Option<(Decimal, int)>
    decreases s.len() - pos, 1int,
{
    let p = skip_blank(s, pos);
    if 0 <= pos <= p < s.len() && (s[p] == '*' || s[p] == '/') {
        match spec_factor(s, p + 1) {
            Some((v, q)) => match apply(s[p], acc, v) {
                Some(r) => if p < q <= s.len() {
                    spec_product_rest(s, q, r)
                } else {
                    None
                },
                None => None,
            },
            None => None,
        }
    } else {
        Some((acc, pos))
    }
}

/// product := factor ( blank* ('*' | '/') factor )*
pub open spec fn spec_product(s: Seq<char>, pos: int) -> Option<(Decimal, int)>
    decreases s.len() - pos, 2int,
{
    match spec_factor(s, pos) {
        Some((v, q)) => if pos < q <= s.len() {
            spec_product_rest(s, q, v)
        } else {
            None
        },
        None => None,
    }
}

/// The operators `+ -` and their right operands that follow a sum whose
/// value so far is `acc`, applied from left to right.
pub open spec fn spec_sum_rest(s: Seq<char>, pos: int, acc: Decimal) -> Option<(Decimal, int)>
    decreases s.len() - pos, 3int,
{
    let p = skip_blank(s, pos);
    if 0 <= pos <= p < s.len() && (s[p] == '+' || s[p] == '-') {
        match spec_product(s, p + 1) {
            Some((v, q)) => match apply(s[p], acc, v) {
                Some(r) => if p < q <= s.len() {
                    spec_sum_rest(s, q, r)
                } else {
                    None
                },
                None => None,
            },
            None => None,
        }
    } else {
        Some((acc, pos))
    }
}

/// sum := product ( blank* ('+' | '-') product )*
pub open spec fn spec_sum(s: Seq<char>, pos: int) -> Option<(Decimal, int)>
    decreases s.len() - pos, 4int,
{
    match spec_product(s, pos) {
        Some((v, q)) => if pos < q <= s.len() {
            spec_sum_rest(s, q, v)
        } else {
            None
        },
        None => None,
    }
}

/// The value of `s` read as one expression from its first to its last
/// character, blanks around it allowed; `None` where `s` is no expression
/// or the arithmetic has no result.
pub open spec fn spec_evaluate(s: Seq<char>) -> Option<Decimal> {
    match spec_sum(s, 0) {
        Some((v, q)) => if skip_blank(s, q) == s.len() {
            Some(v)
        } else {
            None
        },
        None => None,
    }
}

proof fn lemma_literal_end_bounds(s: Seq<char>, pos: int)
    requires
        0 <= pos <= s.len(),
    ensures
        pos <= literal_end(s, pos) <= s.len(),
        pos < s.len() && is_literal_char(s[pos]) ==> pos < literal_end(s, pos),
    decreases s.len() - pos,
{
    if pos < s.len() && is_literal_char(s[pos]) {
        lemma_literal_end_bounds(s, pos + 1);
    }
}

fn blank_end(s: &[char], pos: usize) -> (p: usize)
    requires
        pos <= s.len(),
    ensures
        p as int == skip_blank(s@, pos as int),
        pos <= p <= s.len(),
{
    let mut p: usize = pos;
    while p < s.len() && s[p] == ' '
        invariant
            pos <= p <= s.len(),
            skip_blank(s@, p as int) == skip_blank(s@, pos as int),
        decreases s.len() - p,
    {
        p += 1;
    }
    p
}

fn literal_stop(s: &[char], pos: usize) -> (p: usize)
    requires
        pos <= s.len(),
    ensures
        p as int == literal_end(s@, pos as int),
        pos <= p <= s.len(),
        pos < s.len() && is_literal_char(s[pos as int]) ==> pos < p,
{
    proof {
        lemma_literal_end_bounds(s@, pos as int);
    }
    let mut p: usize = pos;
    while p < s.len() && (('0' <= s[p] && s[p] <= '9') || s[p] == '.' || s[p] == ',')
        invariant
            pos <= p <= s.len(),
            literal_end(s@, p as int) == literal_end(s@, pos as int),
        decreases s.len() - p,
    {
        p += 1;
    }
    p
}

/// Reads the literal that stands in `s` from `from` to `to`, its commas
/// left out.
fn literal(s: &[char], from: usize, to: usize) -> (out: Option<Decimal>)
    requires
        from <= to <= s.len(),
    ensures
        out == Decimal::spec_parse(without_commas(s@.subrange(from as int, to as int))),
        out matches Some(d) ==> d.is_valid(),
{
    let mut digits: Vec<char> = Vec::new();
    let mut i: usize = from;
    while i < to
        invariant
            from <= i <= to <= s.len(),
            digits@ == without_commas(s@.subrange(from as int, i as int)),
        decreases to - i,
    {
        proof {
            assert(s@.subrange(from as int, i + 1).drop_last() =~= s@.subrange(from as int, i as int));
        }
        if s[i] != ',' {
            digits.push(s[i]);
        }
        i += 1;
    }
    let text = string_of(digits.as_slice());
    Decimal::parse_literal(text.as_str())
}

fn apply_op(op: char, a: Decimal, b: Decimal) -> (out: Option<Decimal>)
    ensures
        out == apply(op, a, b),
        out matches Some(d) ==> d.is_valid(),
{
    if op == '+' {
        a.add_outside(b)
    } else if op == '-' {
        a.sub_outside(b)
    } else if op == '*' {
        a.mul_outside(b)
    } else {
        a.div_outside(b)
    }
}

fn factor(s: &[char], pos: usize) -> (out: Option<(Decimal, usize)>)
    requires
        pos <= s.len(),
    ensures
        located(out) == spec_factor(s@, pos as int),
        out matches Some((v, q)) ==> pos < q <= s.len() && v.is_valid(),
    decreases s.len() - pos, 0int,
{
    let p = blank_end(s, pos);
    if p >= s.len() {
        return None;
    }
    let c = s[p];
    if c == '-' {
        match factor(s, p + 1) {
            Some((v, q)) => match v.checked_neg() {
                Some(n) => Some((n, q)),
                None => None,
            },
            None => None,
        }
    } else if c == '+' {
        factor(s, p + 1)
    } else if c == '(' {
        match sum(s, p + 1) {
            Some((v, q)) => {
                let close = blank_end(s, q);
                if close < s.len() && s[close] == ')' {
                    Some((v, close + 1))
                } else {
                    None
                }
            },
            None => None,
        }
    } else if ('0' <= c && c <= '9') || c == '.' {
        let e = literal_stop(s, p);
        match literal(s, p, e) {
            Some(d) => Some((d, e)),
            None => None,
        }
    } else {
        None
    }
}

fn product_rest(s: &[char], pos: usize, acc: Decimal) -> (out: Option<(Decimal, usize)>)
    requires
        pos <= s.len(),
        acc.is_valid(),
    ensures
        located(out) == spec_product_rest(s@, pos as int, acc),
        out matches Some((v, q)) ==> pos <= q <= s.len() && v.is_valid(),
    decreases s.len() - pos, 1int,
{
    let p = blank_end(s, pos);
    if p < s.len() && (s[p] == '*' || s[p] == '/') {
        match factor(s, p + 1) {
            Some((v, q)) => match apply_op(s[p], acc, v) {
                Some(r) => product_rest(s, q, r),
                None => None,
            },
            None => None,
        }
    } else {
        Some((acc, pos))
    }
}

fn product(s: &[char], pos: usize) -> (out: Option<(Decimal, usize)>)
    requires
        pos <= s.len(),
    ensures
        located(out) == spec_product(s@, pos as int),
        out matches Some((v, q)) ==> pos < q <= s.len() && v.is_valid(),
    decreases s.len() - pos, 2int,
{
    match factor(s, pos) {
        Some((v, q)) => product_rest(s, q, v),
        None => None,
    }
}

fn sum_rest(s: &[char], pos: usize, acc: Decimal) -> (out: Option<(Decimal, usize)>)
    requires
        pos <= s.len(),
        acc.is_valid(),
    ensures
        located(out) == spec_sum_rest(s@, pos as int, acc),
        out matches Some((v, q)) ==> pos <= q <= s.len() && v.is_valid(),
    decreases s.len() - pos, 3int,
{
    let p = blank_end(s, pos);
    if p < s.len() && (s[p] == '+' || s[p] == '-') {
        match product(s, p + 1) {
            Some((v, q)) => match apply_op(s[p], acc, v) {
                Some(r) => sum_rest(s, q, r),
                None => None,
            },
            None => None,
        }
    } else {
        Some((acc, pos))
    }
}

fn sum(s: &[char], pos: usize) -> (out: Option<(Decimal, usize)>)
    requires
        pos <= s.len(),
    ensures
        located(out) == spec_sum(s@, pos as int),
        out matches Some((v, q)) ==> pos < q <= s.len() && v.is_valid(),
    decreases s.len() - pos, 4int,
{
    match product(s, pos) {
        Some((v, q)) => sum_rest(s, q, v),
        None => None,
    }
}

/// Evaluates `text` as one numeric expression.
///
/// Returns the value that the grammar and the decimal arithmetic give, and
/// `None` where the text is no expression (as `1+`), where a literal is
/// rejected, on a division by zero and on overflow.
pub fn evaluate(text: &[char]) -> (out: Option<Decimal>)
    ensures
        out == spec_evaluate(text@),
        out matches Some(d) ==> d.is_valid(),
{
    match sum(text, 0) {
        Some((v, q)) => {
            let end = blank_end(text, q);
            if end == text.len() {
                Some(v)
            } else {
                None
            }
        },
        None => None,
    }
}

} // verus!
