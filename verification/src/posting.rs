//! The grammar of a posting line and of the lines that follow a directive:
//! amounts with cost and price, tags and links, metadata.

use vstd::prelude::*;
use crate::collections::{Metadata, StrSet};
use crate::cost::{resolve_cost, resolve_price, spec_resolve_cost, spec_resolve_price};
use crate::data::{
    valid_amount, valid_date, valid_number, Amount, AmountView, CostSpec, CostSpecView, Posting,
    PostingCost, PostingCostView, PostingView,
};
use crate::date::Date;
use crate::decimal::Decimal;
use crate::error::{fault, ErrorKind, Fault};
use crate::grammar::{
    account, amount, at_line_end, begins_number, currency, date, date_shape, end_of_line,
    get_quoted_str, is_date_shape, is_lower, is_lower_char, is_space, is_upper, is_upper_char,
    lemma_run_end_bounds, line_ends, num_expr, number_begins, run_end, scan_run, scanned,
    skip_spaces, spaces, spec_account, spec_amount, spec_currency, spec_date, spec_end_of_line,
    spec_get_quoted_str, spec_num_expr, text_of, CharClass,
};

verus! {

/// A numeric expression where one begins behind the blanks at `pos`, and
/// nothing otherwise.
pub open spec fn spec_optional_number(s: Seq<char>, pos: int) -> Result<(Option<Decimal>, int), Fault> {
    let p = skip_spaces(s, pos);
    if 0 <= p < s.len() && begins_number(s[p]) {
        match spec_num_expr(s, p) {
            Ok((d, q)) => Ok((Some(d), q)),
            Err(e) => Err(e),
        }
    } else {
        Ok((None, pos))
    }
}

fn optional_number(s: &[char], pos: usize) -> (out: Result<(Option<Decimal>, usize), Fault>)
    requires
        pos <= s.len(),
    ensures
        scanned(out) == spec_optional_number(s@, pos as int),
        out matches Ok((n, q)) ==> pos <= q <= s.len() && valid_number(n),
        out matches Ok((_, q)) ==> (skip_spaces(s@, pos as int) < s.len() && begins_number(
            s[skip_spaces(s@, pos as int)],
        ) ==> skip_spaces(s@, pos as int) < q),
{
    let p = spaces(s, pos);
    if p < s.len() && number_begins(s[p]) {
        proof {
            lemma_run_end_bounds(s@, p as int, CharClass::Number);
        }
        match num_expr(s, p) {
            Ok((d, q)) => Ok((Some(d), q)),
            Err(e) => Err(e),
        }
    } else {
        Ok((None, pos))
    }
}

/// A currency where a capital letter stands behind the blanks at `pos`, and
/// nothing otherwise.
pub open spec fn spec_optional_currency(s: Seq<char>, pos: int) -> Result<(Option<Seq<char>>, int), Fault> {
    let p = skip_spaces(s, pos);
    if 0 <= p < s.len() && is_upper(s[p]) {
        match spec_currency(s, p) {
            Ok((c, q)) => Ok((Some(c), q)),
            Err(e) => Err(e),
        }
    } else {
        Ok((None, pos))
    }
}

fn optional_currency(s: &[char], pos: usize) -> (out: Result<(Option<String>, usize), Fault>)
    requires
        pos <= s.len(),
    ensures
        scanned(out) == spec_optional_currency(s@, pos as int),
        out matches Ok((_, q)) ==> pos <= q <= s.len(),
        out matches Ok((_, q)) ==> (skip_spaces(s@, pos as int) < s.len() && is_upper(
            s[skip_spaces(s@, pos as int)],
        ) ==> skip_spaces(s@, pos as int) < q),
{
    let p = spaces(s, pos);
    if p < s.len() && is_upper_char(s[p]) {
        match currency(s, p) {
            Ok((c, q)) => Ok((Some(c), q)),
            Err(e) => Err(e),
        }
    } else {
        Ok((None, pos))
    }
}

/// The two numbers of a compound amount in the order in which they are
/// written: where only the number behind `#` is there, it is the first.
pub open spec fn in_order(before: Option<Decimal>, after: Option<Decimal>) -> (Option<Decimal>, Option<Decimal>) {
    if before is None {
        (after, None)
    } else {
        (before, after)
    }
}

/// A compound amount `number # number currency`, each part of which may be
/// left out: the first number written, the second, and the currency.
pub open spec fn spec_compound_amount(s: Seq<char>, pos: int) -> Result<
    ((Option<Decimal>, Option<Decimal>, Option<Seq<char>>), int),
    Fault,
> {
    match spec_optional_number(s, pos) {
        Err(e) => Err(e),
        Ok((before, q)) => {
            let h = skip_spaces(s, q);
            let after = if 0 <= h < s.len() && s[h] == '#' {
                spec_optional_number(s, h + 1)
            } else {
                Ok((None, q))
            };
            match after {
                Err(e) => Err(e),
                Ok((after, r)) => match spec_optional_currency(s, r) {
                    Err(e) => Err(e),
                    Ok((currency, t)) => Ok(((in_order(before, after).0, in_order(before, after).1, currency), t)),
                },
            }
        },
    }
}

pub fn compound_amount(s: &[char], pos: usize) -> (out: Result<
    ((Option<Decimal>, Option<Decimal>, Option<String>), usize),
    Fault,
>)
    requires
        pos <= s.len(),
    ensures
        scanned(out) == spec_compound_amount(s@, pos as int),
        out matches Ok((a, q)) ==> pos <= q <= s.len() && valid_number(a.0) && valid_number(a.1),
        out matches Ok((_, q)) ==> ({
            let p = skip_spaces(s@, pos as int);
            p < s.len() && (begins_number(s[p]) || s[p] == '#' || is_upper(s[p])) ==> p < q
        }),
{
    let (before, q) = match optional_number(s, pos) {
        Ok(v) => v,
        Err(e) => {
            return Err(e);
        },
    };
    let h = spaces(s, q);
    let (after, r) = if h < s.len() && s[h] == '#' {
        match optional_number(s, h + 1) {
            Ok(v) => v,
            Err(e) => {
                return Err(e);
            },
        }
    } else {
        (None, q)
    };
    let (currency, t) = match optional_currency(s, r) {
        Ok(v) => v,
        Err(e) => {
            return Err(e);
        },
    };
    if before.is_none() {
        Ok(((after, None, currency), t))
    } else {
        Ok(((before, after, currency), t))
    }
}

/// What the components of a cost syntax have declared so far.
#[derive(Debug)]
pub struct CostParts {
    pub first: Option<Decimal>,
    pub second: Option<Decimal>,
    pub currency: Option<String>,
    pub date: Option<Date>,
    pub label: Option<String>,
    pub merge: Option<bool>,
}

/// The value of a [`CostParts`].
pub struct CostPartsView {
    pub first: Option<Decimal>,
    pub second: Option<Decimal>,
    pub currency: Option<Seq<char>>,
    pub date: Option<Date>,
    pub label: Option<Seq<char>>,
    pub merge: Option<bool>,
}

impl CostPartsView {
    pub open spec fn is_valid(self) -> bool {
        valid_number(self.first) && valid_number(self.second) && valid_date(self.date)
    }
}

impl DeepView for CostParts {
    type V = CostPartsView;

    open spec fn deep_view(&self) -> CostPartsView {
        CostPartsView {
            first: self.first,
            second: self.second,
            currency: self.currency.deep_view(),
            date: self.date,
            label: self.label.deep_view(),
            merge: self.merge,
        }
    }
}

/// The components between the braces of a cost syntax, up to the closing
/// brace: dates, quoted labels, `*` and compound amounts, with commas
/// between them. A later component of a kind stands for an earlier one.
pub open spec fn spec_cost_items(s: Seq<char>, pos: int, parts: CostPartsView) -> Result<(CostPartsView, int), Fault>
    decreases s.len() - pos,
{
    let p = skip_spaces(s, pos);
    if !(0 <= pos <= p < s.len()) {
        Err(fault(ErrorKind::Syntax, p))
    } else if s[p] == '}' {
        Ok((parts, p))
    } else if s[p] == ',' {
        spec_cost_items(s, p + 1, parts)
    } else if s[p] == '*' {
        spec_cost_items(s, p + 1, CostPartsView { merge: Some(true), ..parts })
    } else if is_date_shape(s, p) {
        match spec_date(s, p) {
            Err(e) => Err(e),
            Ok((d, q)) => if p < q <= s.len() {
                spec_cost_items(s, q, CostPartsView { date: Some(d), ..parts })
            } else {
                Err(fault(ErrorKind::Syntax, p))
            },
        }
    } else if s[p] == '"' {
        match spec_get_quoted_str(s, p) {
            Err(e) => Err(e),
            Ok((label, q)) => if p < q <= s.len() {
                spec_cost_items(s, q, CostPartsView { label: Some(label), ..parts })
            } else {
                Err(fault(ErrorKind::Syntax, p))
            },
        }
    } else if begins_number(s[p]) || s[p] == '#' || is_upper(s[p]) {
        match spec_compound_amount(s, p) {
            Err(e) => Err(e),
            Ok((a, q)) => if p < q <= s.len() {
                spec_cost_items(s, q, CostPartsView { first: a.0, second: a.1, currency: a.2, ..parts })
            } else {
                Err(fault(ErrorKind::Syntax, p))
            },
        }
    } else {
        Err(fault(ErrorKind::Syntax, p))
    }
}

fn cost_items(s: &[char], pos: usize, parts: CostParts) -> (out: Result<(CostParts, usize), Fault>)
    requires
        pos <= s.len(),
        parts.deep_view().is_valid(),
    ensures
        scanned(out) == spec_cost_items(s@, pos as int, parts.deep_view()),
        out matches Ok((found, q)) ==> pos <= q < s.len() && s[q as int] == '}' && found.deep_view().is_valid(),
    decreases s.len() - pos,
{
    let p = spaces(s, pos);
    if p >= s.len() {
        return Err(Fault { kind: ErrorKind::Syntax, at: p });
    }
    let c = s[p];
    if c == '}' {
        Ok((parts, p))
    } else if c == ',' {
        cost_items(s, p + 1, parts)
    } else if c == '*' {
        cost_items(s, p + 1, CostParts { merge: Some(true), ..parts })
    } else if date_shape(s, p) {
        proof {
            lemma_run_end_bounds(s@, p as int, CharClass::Space);
        }
        match date(s, p) {
            Err(e) => Err(e),
            Ok((d, q)) => cost_items(s, q, CostParts { date: Some(d), ..parts }),
        }
    } else if c == '"' {
        match get_quoted_str(s, p) {
            Err(e) => Err(e),
            Ok((label, q)) => cost_items(s, q, CostParts { label: Some(label), ..parts }),
        }
    } else if number_begins(c) || c == '#' || is_upper_char(c) {
        proof {
            lemma_run_end_bounds(s@, p as int, CharClass::Space);
        }
        match compound_amount(s, p) {
            Err(e) => Err(e),
            Ok((a, q)) => cost_items(s, q, CostParts { first: a.0, second: a.1, currency: a.2, ..parts }),
        }
    } else {
        Err(Fault { kind: ErrorKind::Syntax, at: p })
    }
}

/// Whether the cost syntax that opens at `pos` is in total form `{{`.
pub open spec fn is_total_cost(s: Seq<char>, pos: int) -> bool {
    pos + 1 < s.len() && s[pos + 1] == '{'
}

/// A cost syntax `{...}` or `{{...}}` that opens at `pos`, resolved.
pub open spec fn spec_cost_spec(s: Seq<char>, pos: int) -> Result<(CostSpecView, int), Fault> {
    if !(0 <= pos < s.len() && s[pos] == '{') {
        Err(fault(ErrorKind::Syntax, pos))
    } else {
        spec_cost_body(s, pos)
    }
}

/// The cost syntax behind its opening brace at `pos`.
pub open spec fn spec_cost_body(s: Seq<char>, pos: int) -> Result<(CostSpecView, int), Fault> {
    let total = is_total_cost(s, pos);
    let start = if total {
        pos + 2
    } else {
        pos + 1
    };
    let empty = CostPartsView { first: None, second: None, currency: None, date: None, label: None, merge: None };
    match spec_cost_items(s, start, empty) {
        Err(e) => Err(e),
        Ok((parts, q)) => if total && !(q + 1 < s.len() && s[q + 1] == '}') {
            Err(fault(ErrorKind::Syntax, q))
        } else {
            match spec_resolve_cost(
                total,
                parts.first,
                parts.second,
                parts.currency,
                parts.date,
                parts.label,
                parts.merge,
            ) {
                Err(kind) => Err(fault(kind, pos)),
                Ok(cost) => Ok(
                    (
                        cost,
                        if total {
                            q + 2
                        } else {
                            q + 1
                        },
                    ),
                ),
            }
        },
    }
}

pub fn cost_spec(s: &[char], pos: usize) -> (out: Result<(CostSpec, usize), Fault>)
    requires
        pos <= s.len(),
    ensures
        scanned(out) == spec_cost_spec(s@, pos as int),
        out matches Ok((cost, q)) ==> pos < q <= s.len() && cost.deep_view().is_valid(),
{
    if pos >= s.len() || s[pos] != '{' {
        return Err(Fault { kind: ErrorKind::Syntax, at: pos });
    }
    let total = pos + 1 < s.len() && s[pos + 1] == '{';
    let start = if total {
        pos + 2
    } else {
        pos + 1
    };
    let empty = CostParts { first: None, second: None, currency: None, date: None, label: None, merge: None };
    let (parts, q) = match cost_items(s, start, empty) {
        Ok(v) => v,
        Err(e) => {
            return Err(e);
        },
    };
    if total && !(q + 1 < s.len() && s[q + 1] == '}') {
        return Err(Fault { kind: ErrorKind::Syntax, at: q });
    }
    match resolve_cost(total, parts.first, parts.second, parts.currency, parts.date, parts.label, parts.merge) {
        Err(kind) => Err(Fault { kind, at: pos }),
        Ok(cost) => Ok(
            (
                cost,
                if total {
                    q + 2
                } else {
                    q + 1
                },
            ),
        ),
    }
}

/// A price annotation that opens at `pos`: `@` and an amount for a price per
/// unit, `@@` and an amount for a total price (`true`).
pub open spec fn spec_price_annotation(s: Seq<char>, pos: int) -> Result<((bool, AmountView), int), Fault> {
    let total = pos + 1 < s.len() && s[pos + 1] == '@';
    let start = if total {
        pos + 2
    } else {
        pos + 1
    };
    if !(0 <= pos < s.len() && s[pos] == '@') {
        Err(fault(ErrorKind::Syntax, pos))
    } else {
        match spec_amount(s, start) {
            Err(e) => Err(e),
            Ok((a, q)) => Ok(((total, a), q)),
        }
    }
}

pub fn price_annotation(s: &[char], pos: usize) -> (out: Result<((bool, Amount), usize), Fault>)
    requires
        pos <= s.len(),
    ensures
        scanned(out) == spec_price_annotation(s@, pos as int),
        out matches Ok((a, q)) ==> pos < q <= s.len() && a.1.deep_view().is_valid(),
{
    if pos >= s.len() || s[pos] != '@' {
        return Err(Fault { kind: ErrorKind::Syntax, at: pos });
    }
    let total = pos + 1 < s.len() && s[pos + 1] == '@';
    let start = if total {
        pos + 2
    } else {
        pos + 1
    };
    match amount(s, start) {
        Err(e) => Err(e),
        Ok((a, q)) => Ok(((total, a), q)),
    }
}

/// The units, the cost and the price that a posting declares behind its
/// account, each of which may be left out, and the price resolved.
pub open spec fn spec_parse_post_price(s: Seq<char>, pos: int) -> Result<
    ((Option<AmountView>, Option<PostingCostView>, Option<AmountView>), int),
    Fault,
> {
    let p = skip_spaces(s, pos);
    let units = if !at_line_end(s, p) && s[p] != '{' && s[p] != '@' {
        match spec_amount(s, p) {
            Err(e) => Err(e),
            Ok((a, q)) => Ok((Some(a), q)),
        }
    } else {
        Ok((None, pos))
    };
    match units {
        Err(e) => Err(e),
        Ok((units, q)) => {
            let c = skip_spaces(s, q);
            let cost = if 0 <= c < s.len() && s[c] == '{' {
                match spec_cost_spec(s, c) {
                    Err(e) => Err(e),
                    Ok((spec, r)) => Ok((Some(PostingCostView::CostSpec(spec)), r)),
                }
            } else {
                Ok((None, q))
            };
            match cost {
                Err(e) => Err(e),
                Ok((cost, r)) => {
                    let a = skip_spaces(s, r);
                    let annotation = if 0 <= a < s.len() && s[a] == '@' {
                        match spec_price_annotation(s, a) {
                            Err(e) => Err(e),
                            Ok((anno, t)) => Ok((Some(anno), t)),
                        }
                    } else {
                        Ok((None, r))
                    };
                    match annotation {
                        Err(e) => Err(e),
                        Ok((annotation, t)) => match spec_resolve_price(units, annotation) {
                            Err(kind) => Err(fault(kind, a)),
                            Ok(price) => Ok(((units, cost, price), t)),
                        },
                    }
                },
            }
        },
    }
}

pub fn parse_post_price(s: &[char], pos: usize) -> (out: Result<
    ((Option<Amount>, Option<PostingCost>, Option<Amount>), usize),
    Fault,
>)
    requires
        pos <= s.len(),
    ensures
        scanned(out) == spec_parse_post_price(s@, pos as int),
        out matches Ok((parts, q)) ==> pos <= q <= s.len() && valid_amount(parts.0.deep_view()) && (parts.1 matches Some(
            c,
        ) ==> c.deep_view().is_valid()) && valid_amount(parts.2.deep_view()),
{
    let p = spaces(s, pos);
    let (units, q) = if !line_ends(s, p) && s[p] != '{' && s[p] != '@' {
        match amount(s, p) {
            Err(e) => {
                return Err(e);
            },
            Ok((a, q)) => (Some(a), q),
        }
    } else {
        (None, pos)
    };
    let c = spaces(s, q);
    let (cost, r) = if c < s.len() && s[c] == '{' {
        match cost_spec(s, c) {
            Err(e) => {
                return Err(e);
            },
            Ok((spec, r)) => (Some(PostingCost::CostSpec(spec)), r),
        }
    } else {
        (None, q)
    };
    let a = spaces(s, r);
    let (annotation, t) = if a < s.len() && s[a] == '@' {
        match price_annotation(s, a) {
            Err(e) => {
                return Err(e);
            },
            Ok((anno, t)) => (Some(anno), t),
        }
    } else {
        (None, r)
    };
    match resolve_price(&units, annotation) {
        Err(kind) => Err(Fault { kind, at: a }),
        Ok(price) => Ok(((units, cost, price), t)),
    }
}

/// Whether a posting flag stands at `p`: `*` or `!`.
pub open spec fn is_flag_at(s: Seq<char>, p: int) -> bool {
    0 <= p < s.len() && (s[p] == '*' || s[p] == '!')
}

/// The flag at `p`.
pub fn flag(s: &[char], p: usize) -> (out: Option<char>)
    requires
        p <= s.len(),
    ensures
        out == (if is_flag_at(s@, p as int) {
            Some(s[p as int])
        } else {
            None
        }),
{
    if p < s.len() && (s[p] == '*' || s[p] == '!') {
        Some(s[p])
    } else {
        None
    }
}

/// A posting: a flag, which may be left out, an account, and what
/// [`spec_parse_post_price`] reads behind it. Its metadata is empty.
pub open spec fn spec_posting(s: Seq<char>, pos: int) -> Result<(PostingView, int), Fault> {
    let p = skip_spaces(s, pos);
    let start = if is_flag_at(s, p) {
        p + 1
    } else {
        pos
    };
    match spec_account(s, start) {
        Err(e) => Err(e),
        Ok((account, q)) => match spec_parse_post_price(s, q) {
            Err(e) => Err(e),
            Ok((parts, r)) => Ok(
                (
                    PostingView {
                        metadata: Map::empty(),
                        account,
                        units: parts.0,
                        cost: parts.1,
                        price: parts.2,
                        flag: if is_flag_at(s, p) {
                            Some(s[p])
                        } else {
                            None
                        },
                    },
                    r,
                ),
            ),
        },
    }
}

pub fn posting(s: &[char], pos: usize) -> (out: Result<(Posting, usize), Fault>)
    requires
        pos <= s.len(),
    ensures
        scanned(out) == spec_posting(s@, pos as int),
        out matches Ok((p, q)) ==> pos < q <= s.len() && p.deep_view().is_valid(),
{
    let p = spaces(s, pos);
    let flag = flag(s, p);
    let start = if flag.is_some() {
        p + 1
    } else {
        pos
    };
    let (account, q) = match account(s, start) {
        Ok(v) => v,
        Err(e) => {
            return Err(e);
        },
    };
    match parse_post_price(s, q) {
        Err(e) => Err(e),
        Ok((parts, r)) => Ok(
            (
                Posting {
                    metadata: Metadata::new(),
                    account,
                    units: parts.0,
                    cost: parts.1,
                    price: parts.2,
                    flag,
                },
                r,
            ),
        ),
    }
}

/// Whether a tag `#name` or a link `^name` stands at `p`.
pub open spec fn is_tag_or_link_at(s: Seq<char>, p: int) -> bool {
    0 <= p < s.len() && (s[p] == '#' || s[p] == '^') && run_end(s, p + 1, CharClass::Name) > p + 1
}

/// The tags and links written from `pos` on, added to `tags` and `links`,
/// and the position behind the last of them.
pub open spec fn spec_tags_links(s: Seq<char>, pos: int, tags: Set<Seq<char>>, links: Set<Seq<char>>) -> (
    Set<Seq<char>>,
    Set<Seq<char>>,
    int,
)
    decreases s.len() - pos,
{
    let p = skip_spaces(s, pos);
    let e = run_end(s, p + 1, CharClass::Name);
    if 0 <= pos <= p && e <= s.len() && is_tag_or_link_at(s, p) {
        if s[p] == '#' {
            spec_tags_links(s, e, tags.insert(s.subrange(p + 1, e)), links)
        } else {
            spec_tags_links(s, e, tags, links.insert(s.subrange(p + 1, e)))
        }
    } else {
        (tags, links, pos)
    }
}

/// Reads the tags and links written from `pos` on into `tags` and `links`.
pub fn parse_tag_links(s: &[char], pos: usize, tags: &mut StrSet, links: &mut StrSet) -> (end: usize)
    requires
        pos <= s.len(),
    ensures
        (final(tags)@, final(links)@, end as int) == spec_tags_links(s@, pos as int, old(tags)@, old(links)@),
        pos <= end <= s.len(),
{
    let mut at: usize = pos;
    loop
        invariant
            pos <= at <= s.len(),
            spec_tags_links(s@, at as int, tags@, links@) == spec_tags_links(s@, pos as int, old(tags)@, old(links)@),
        ensures
            (tags@, links@, at as int) == spec_tags_links(s@, pos as int, old(tags)@, old(links)@),
            pos <= at <= s.len(),
        decreases s.len() - at,
    {
        let p = spaces(s, at);
        if p >= s.len() || !(s[p] == '#' || s[p] == '^') {
            break ;
        }
        let e = scan_run(s, p + 1, CharClass::Name);
        if e <= p + 1 {
            break ;
        }
        let name = text_of(s, p + 1, e);
        if s[p] == '#' {
            tags.insert(name);
        } else {
            links.insert(name);
        }
        at = e;
    }
    at
}

/// The tags and links written from `pos` on.
pub fn tags_links(s: &[char], pos: usize) -> (out: (StrSet, StrSet, usize))
    requires
        pos <= s.len(),
    ensures
        (out.0@, out.1@, out.2 as int) == spec_tags_links(s@, pos as int, Set::empty(), Set::empty()),
        pos <= out.2 <= s.len(),
{
    let mut tags = StrSet::new();
    let mut links = StrSet::new();
    let end = parse_tag_links(s, pos, &mut tags, &mut links);
    (tags, links, end)
}

/// Whether a metadata key stands at `p`: a small letter, name characters,
/// and a colon.
pub open spec fn is_key_at(s: Seq<char>, p: int) -> bool {
    &&& 0 <= p < s.len()
    &&& is_lower(s[p])
    &&& run_end(s, p, CharClass::Name) < s.len()
    &&& s[run_end(s, p, CharClass::Name)] == ':'
}

/// A metadata entry `key: value`: the value is a quoted string, or the run
/// of characters up to the next blank.
pub open spec fn spec_meta_kv_pair(s: Seq<char>, pos: int) -> Result<((Seq<char>, Seq<char>), int), Fault> {
    if !is_key_at(s, pos) {
        Err(fault(ErrorKind::Syntax, pos))
    } else {
        let e = run_end(s, pos, CharClass::Name);
        let v = skip_spaces(s, e + 1);
        if 0 <= v < s.len() && s[v] == '"' {
            match spec_get_quoted_str(s, v) {
                Err(e) => Err(e),
                Ok((value, q)) => Ok(((s.subrange(pos, e), value), q)),
            }
        } else {
            let end = run_end(s, v, CharClass::Bare);
            Ok(((s.subrange(pos, e), s.subrange(v, end)), end))
        }
    }
}

pub fn meta_kv_pair(s: &[char], pos: usize) -> (out: Result<((String, String), usize), Fault>)
    requires
        pos <= s.len(),
    ensures
        scanned(out) == spec_meta_kv_pair(s@, pos as int),
        out matches Ok((_, q)) ==> pos < q <= s.len(),
{
    if pos >= s.len() || !is_lower_char(s[pos]) {
        return Err(Fault { kind: ErrorKind::Syntax, at: pos });
    }
    let e = scan_run(s, pos, CharClass::Name);
    if e >= s.len() || s[e] != ':' {
        return Err(Fault { kind: ErrorKind::Syntax, at: pos });
    }
    let key = text_of(s, pos, e);
    let v = spaces(s, e + 1);
    if v < s.len() && s[v] == '"' {
        match get_quoted_str(s, v) {
            Err(e) => Err(e),
            Ok((value, q)) => Ok(((key, value), q)),
        }
    } else {
        let end = scan_run(s, v, CharClass::Bare);
        Ok(((key, text_of(s, v, end)), end))
    }
}

/// Whether the line at `pos` belongs to the directive above it: it is
/// indented and holds more than blanks.
pub open spec fn is_body_line(s: Seq<char>, pos: int) -> bool {
    &&& 0 <= pos < s.len()
    &&& is_space(s[pos])
    &&& skip_spaces(s, pos) < s.len()
    &&& s[skip_spaces(s, pos)] != '\n'
}

pub fn body_line(s: &[char], pos: usize) -> (out: bool)
    requires
        pos <= s.len(),
    ensures
        out == is_body_line(s@, pos as int),
{
    if pos >= s.len() || !(s[pos] == ' ' || s[pos] == '\t' || s[pos] == '\r') {
        return false;
    }
    let p = spaces(s, pos);
    p < s.len() && s[p] != '\n'
}

/// The metadata lines that follow a directive from the line at `pos` on,
/// added to `meta`: each indented line holds an entry or a comment.
pub open spec fn spec_meta_lines(s: Seq<char>, pos: int, meta: Map<Seq<char>, Seq<char>>) -> Result<
    (Map<Seq<char>, Seq<char>>, int),
    Fault,
>
    decreases s.len() - pos,
{
    if !is_body_line(s, pos) {
        Ok((meta, pos))
    } else {
        let p = skip_spaces(s, pos);
        if s[p] == ';' {
            match spec_end_of_line(s, p) {
                Err(e) => Err(e),
                Ok(next) => if pos < next <= s.len() {
                    spec_meta_lines(s, next, meta)
                } else {
                    Err(fault(ErrorKind::Syntax, p))
                },
            }
        } else {
            match spec_meta_kv_pair(s, p) {
                Err(e) => Err(e),
                Ok((entry, q)) => match spec_end_of_line(s, q) {
                    Err(e) => Err(e),
                    Ok(next) => if pos < next <= s.len() {
                        spec_meta_lines(s, next, meta.insert(entry.0, entry.1))
                    } else {
                        Err(fault(ErrorKind::Syntax, p))
                    },
                },
            }
        }
    }
}

/// The rest of the line of a directive and the metadata lines below it.
pub open spec fn spec_meta_kv(s: Seq<char>, pos: int) -> Result<(Map<Seq<char>, Seq<char>>, int), Fault> {
    match spec_end_of_line(s, pos) {
        Err(e) => Err(e),
        Ok(next) => spec_meta_lines(s, next, Map::empty()),
    }
}

pub fn meta_kv(s: &[char], pos: usize) -> (out: Result<(Metadata, usize), Fault>)
    requires
        pos <= s.len(),
    ensures
        scanned(out) == spec_meta_kv(s@, pos as int),
        out matches Ok((_, q)) ==> pos <= q <= s.len(),
{
    let first = match end_of_line(s, pos) {
        Ok(next) => next,
        Err(e) => {
            return Err(e);
        },
    };
    let mut meta = Metadata::new();
    let mut at: usize = first;
    while body_line(s, at)
        invariant
            pos <= first <= at <= s.len(),
            spec_end_of_line(s@, pos as int) == Ok::<int, Fault>(first as int),
            spec_meta_lines(s@, at as int, meta@) == spec_meta_lines(s@, first as int, Map::empty()),
        decreases s.len() - at,
    {
        let p = spaces(s, at);
        proof {
            lemma_run_end_bounds(s@, at as int, CharClass::Space);
        }
        if s[p] == ';' {
            match end_of_line(s, p) {
                Err(e) => {
                    return Err(e);
                },
                Ok(next) => {
                    proof {
                        lemma_run_end_bounds(s@, p as int, CharClass::Space);
                        lemma_run_end_bounds(s@, skip_spaces(s@, p as int), CharClass::Line);
                    }
                    at = next;
                },
            }
        } else {
            let (entry, q) = match meta_kv_pair(s, p) {
                Ok(v) => v,
                Err(e) => {
                    return Err(e);
                },
            };
            match end_of_line(s, q) {
                Err(e) => {
                    return Err(e);
                },
                Ok(next) => {
                    meta.insert(entry.0, entry.1);
                    at = next;
                },
            }
        }
    }
    Ok((meta, at))
}

} // verus!
