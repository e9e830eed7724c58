//! The directives: for each keyword the components that its line holds, in
//! the order in which they are written.

use vstd::prelude::*;
use crate::booking::{booking_of_chars, booking_of_name, Booking};
use crate::collections::{Metadata, StrSet};
use crate::data::{
    valid_postings, Amount, AmountView, Balance, BalanceView, Close, CloseView, Commodity, CommodityView, Custom,
    CustomView, Directive, DirectiveView, Document, DocumentView, Event, EventView, Note,
    NoteView, Open, OpenView, Opt, OptView, Pad, PadView, Plugin, PluginView, Posting,
    PostingView, Price, PriceView, Query, QueryView, Transaction, TransactionView,
};
use crate::date::Date;
use crate::error::{fault, ErrorKind, Fault};
use crate::grammar::{
    account, amount, at_line_end, currency, date, end_of_line, get_quoted_str, is_digit_char, num_expr,
    is_lower, is_lower_char, is_upper, is_upper_char, lemma_run_end_bounds, line_ends, required,
    run_end, scan_run, scanned, skip_spaces, spaces, spec_account, spec_amount, spec_currency,
    spec_date, spec_end_of_line, spec_get_quoted_str, spec_num_expr, spec_required, text_of,
    CharClass,
};
use crate::expr::is_digit;
use crate::posting::{
    body_line, is_body_line, meta_kv, meta_kv_pair, parse_tag_links, posting, spec_meta_kv,
    spec_meta_kv_pair, spec_posting, spec_tags_links, tags_links,
};
use crate::tags::ParseState;
use crate::text::same_text;

verus! {

/// `close`: an account.
pub open spec fn spec_close_directive(s: Seq<char>, pos: int, date: Date) -> Result<(DirectiveView, int), Fault> {
    match spec_account(s, pos) {
        Err(e) => Err(e),
        Ok((account, q)) => match spec_meta_kv(s, q) {
            Err(e) => Err(e),
            Ok((meta, r)) => Ok((DirectiveView::Close(CloseView { meta, date, account }), r)),
        },
    }
}

pub fn close_directive(s: &[char], pos: usize, date: Date) -> (out: Result<(Directive, usize), Fault>)
    requires
        pos <= s.len(),
    ensures
        scanned(out) == spec_close_directive(s@, pos as int, date),
        out matches Ok((d, q)) ==> pos < q <= s.len() && (date.is_valid() ==> d.deep_view().is_valid()),
{
    let (account, q) = account(s, pos)?;
    let (meta, r) = meta_kv(s, q)?;
    Ok((Directive::Close(Close { meta, date, account }), r))
}

/// `commodity`: a currency.
pub open spec fn spec_commodity_directive(s: Seq<char>, pos: int, date: Date) -> Result<(DirectiveView, int), Fault> {
    match spec_currency(s, pos) {
        Err(e) => Err(e),
        Ok((currency, q)) => match spec_meta_kv(s, q) {
            Err(e) => Err(e),
            Ok((meta, r)) => Ok((DirectiveView::Commodity(CommodityView { meta, date, currency }), r)),
        },
    }
}

pub fn commodity_directive(s: &[char], pos: usize, date: Date) -> (out: Result<(Directive, usize), Fault>)
    requires
        pos <= s.len(),
    ensures
        scanned(out) == spec_commodity_directive(s@, pos as int, date),
        out matches Ok((d, q)) ==> pos < q <= s.len() && (date.is_valid() ==> d.deep_view().is_valid()),
{
    let (currency, q) = currency(s, pos)?;
    let (meta, r) = meta_kv(s, q)?;
    Ok((Directive::Commodity(Commodity { meta, date, currency }), r))
}

/// `pad`: the account to pad and the account to take from.
pub open spec fn spec_pad_directive(s: Seq<char>, pos: int, date: Date) -> Result<(DirectiveView, int), Fault> {
    match spec_account(s, pos) {
        Err(e) => Err(e),
        Ok((account, q)) => match spec_account(s, q) {
            Err(e) => Err(e),
            Ok((source_account, r)) => match spec_meta_kv(s, r) {
                Err(e) => Err(e),
                Ok((meta, t)) => Ok((DirectiveView::Pad(PadView { meta, date, account, source_account }), t)),
            },
        },
    }
}

pub fn pad_directive(s: &[char], pos: usize, date: Date) -> (out: Result<(Directive, usize), Fault>)
    requires
        pos <= s.len(),
    ensures
        scanned(out) == spec_pad_directive(s@, pos as int, date),
        out matches Ok((d, q)) ==> pos < q <= s.len() && (date.is_valid() ==> d.deep_view().is_valid()),
{
    let (target, q) = account(s, pos)?;
    let (source_account, r) = account(s, q)?;
    let (meta, t) = meta_kv(s, r)?;
    Ok((Directive::Pad(Pad { meta, date, account: target, source_account }), t))
}

/// The amount of a balance assertion: a number, a tolerance `~ number`
/// that may be left out, and a currency. The tolerance is read and checked
/// but not kept: it is left to a later stage.
pub open spec fn spec_balance_amount(s: Seq<char>, pos: int) -> Result<(AmountView, int), Fault> {
    match spec_required(s, pos) {
        Err(e) => Err(e),
        Ok(p) => match spec_num_expr(s, p) {
            Err(e) => Err(e),
            Ok((number, q)) => {
                let t = skip_spaces(s, q);
                let tolerance = if 0 <= t < s.len() && s[t] == '~' {
                    spec_num_expr(s, skip_spaces(s, t + 1))
                } else {
                    Ok((number, q))
                };
                match tolerance {
                    Err(e) => Err(e),
                    Ok((_, r)) => match spec_currency(s, r) {
                        Err(e) => Err(e),
                        Ok((currency, u)) => Ok((AmountView { number: Some(number), currency }, u)),
                    },
                }
            },
        },
    }
}

fn balance_amount(s: &[char], pos: usize) -> (out: Result<(Amount, usize), Fault>)
    requires
        pos <= s.len(),
    ensures
        scanned(out) == spec_balance_amount(s@, pos as int),
        out matches Ok((a, q)) ==> pos < q <= s.len() && a.deep_view().is_valid(),
{
    let p = required(s, pos)?;
    let (number, q) = num_expr(s, p)?;
    let t = spaces(s, q);
    let r = if t < s.len() && s[t] == '~' {
        let start = spaces(s, t + 1);
        let (_, r) = num_expr(s, start)?;
        r
    } else {
        q
    };
    let (currency, u) = currency(s, r)?;
    Ok((Amount { number: Some(number), currency }, u))
}

/// `balance`: an account and the amount that it must hold. Tolerance and
/// difference are left to later stages.
pub open spec fn spec_balance_directive(s: Seq<char>, pos: int, date: Date) -> Result<(DirectiveView, int), Fault> {
    match spec_account(s, pos) {
        Err(e) => Err(e),
        Ok((account, q)) => match spec_balance_amount(s, q) {
            Err(e) => Err(e),
            Ok((amount, r)) => match spec_meta_kv(s, r) {
                Err(e) => Err(e),
                Ok((meta, t)) => Ok(
                    (
                        DirectiveView::Balance(
                            BalanceView { meta, date, account, amount, tolerance: None, diff_amount: None },
                        ),
                        t,
                    ),
                ),
            },
        },
    }
}

pub fn balance_directive(s: &[char], pos: usize, date: Date) -> (out: Result<(Directive, usize), Fault>)
    requires
        pos <= s.len(),
    ensures
        scanned(out) == spec_balance_directive(s@, pos as int, date),
        out matches Ok((d, q)) ==> pos < q <= s.len() && (date.is_valid() ==> d.deep_view().is_valid()),
{
    let (account, q) = account(s, pos)?;
    let (amount, r) = balance_amount(s, q)?;
    let (meta, t) = meta_kv(s, r)?;
    Ok((Directive::Balance(Balance { meta, date, account, amount, tolerance: None, diff_amount: None }), t))
}

/// `price`: a currency and its price as an amount.
pub open spec fn spec_price_directive(s: Seq<char>, pos: int, date: Date) -> Result<(DirectiveView, int), Fault> {
    match spec_currency(s, pos) {
        Err(e) => Err(e),
        Ok((currency, q)) => match spec_amount(s, q) {
            Err(e) => Err(e),
            Ok((amount, r)) => match spec_meta_kv(s, r) {
                Err(e) => Err(e),
                Ok((meta, t)) => Ok((DirectiveView::Price(PriceView { meta, date, currency, amount }), t)),
            },
        },
    }
}

pub fn price_directive(s: &[char], pos: usize, date: Date) -> (out: Result<(Directive, usize), Fault>)
    requires
        pos <= s.len(),
    ensures
        scanned(out) == spec_price_directive(s@, pos as int, date),
        out matches Ok((d, q)) ==> pos < q <= s.len() && (date.is_valid() ==> d.deep_view().is_valid()),
{
    let (currency, q) = currency(s, pos)?;
    let (amount, r) = amount(s, q)?;
    let (meta, t) = meta_kv(s, r)?;
    Ok((Directive::Price(Price { meta, date, currency, amount }), t))
}

/// Two quoted strings and the metadata below them.
pub open spec fn spec_two_strings(s: Seq<char>, pos: int) -> Result<
    ((Seq<char>, Seq<char>, Map<Seq<char>, Seq<char>>), int),
    Fault,
> {
    match spec_get_quoted_str(s, pos) {
        Err(e) => Err(e),
        Ok((first, q)) => match spec_get_quoted_str(s, q) {
            Err(e) => Err(e),
            Ok((second, r)) => match spec_meta_kv(s, r) {
                Err(e) => Err(e),
                Ok((meta, t)) => Ok(((first, second, meta), t)),
            },
        },
    }
}

fn two_strings(s: &[char], pos: usize) -> (out: Result<((String, String, Metadata), usize), Fault>)
    requires
        pos <= s.len(),
    ensures
        scanned(out) == spec_two_strings(s@, pos as int),
        out matches Ok((_, q)) ==> pos < q <= s.len(),
{
    let (first, q) = get_quoted_str(s, pos)?;
    let (second, r) = get_quoted_str(s, q)?;
    let (meta, t) = meta_kv(s, r)?;
    Ok(((first, second, meta), t))
}

/// `event`: a name and a description, both quoted.
pub open spec fn spec_event_directive(s: Seq<char>, pos: int, date: Date) -> Result<(DirectiveView, int), Fault> {
    match spec_two_strings(s, pos) {
        Err(e) => Err(e),
        Ok((v, t)) => Ok((DirectiveView::Event(EventView { meta: v.2, date, name: v.0, description: v.1 }), t)),
    }
}

pub fn event_directive(s: &[char], pos: usize, date: Date) -> (out: Result<(Directive, usize), Fault>)
    requires
        pos <= s.len(),
    ensures
        scanned(out) == spec_event_directive(s@, pos as int, date),
        out matches Ok((d, q)) ==> pos < q <= s.len() && (date.is_valid() ==> d.deep_view().is_valid()),
{
    let (v, t) = two_strings(s, pos)?;
    Ok((Directive::Event(Event { meta: v.2, date, name: v.0, description: v.1 }), t))
}

/// `query`: a name and the text of the query, both quoted.
pub open spec fn spec_query_directive(s: Seq<char>, pos: int, date: Date) -> Result<(DirectiveView, int), Fault> {
    match spec_two_strings(s, pos) {
        Err(e) => Err(e),
        Ok((v, t)) => Ok((DirectiveView::Query(QueryView { meta: v.2, date, name: v.0, query_string: v.1 }), t)),
    }
}

pub fn query_directive(s: &[char], pos: usize, date: Date) -> (out: Result<(Directive, usize), Fault>)
    requires
        pos <= s.len(),
    ensures
        scanned(out) == spec_query_directive(s@, pos as int, date),
        out matches Ok((d, q)) ==> pos < q <= s.len() && (date.is_valid() ==> d.deep_view().is_valid()),
{
    let (v, t) = two_strings(s, pos)?;
    Ok((Directive::Query(Query { meta: v.2, date, name: v.0, query_string: v.1 }), t))
}

/// `option`: a name and a value, both quoted. It carries no date.
pub open spec fn spec_option_directive(s: Seq<char>, pos: int) -> Result<(DirectiveView, int), Fault> {
    match spec_two_strings(s, pos) {
        Err(e) => Err(e),
        Ok((v, t)) => Ok((DirectiveView::Option(OptView { meta: v.2, name: v.0, value: v.1 }), t)),
    }
}

pub fn option_directive(s: &[char], pos: usize) -> (out: Result<(Directive, usize), Fault>)
    requires
        pos <= s.len(),
    ensures
        scanned(out) == spec_option_directive(s@, pos as int),
        out matches Ok((d, q)) ==> pos < q <= s.len() && d.deep_view().is_valid(),
{
    let (v, t) = two_strings(s, pos)?;
    Ok((Directive::Option(Opt { meta: v.2, name: v.0, value: v.1 }), t))
}

/// A quoted string where one begins behind the blanks at `pos`, and nothing
/// otherwise.
pub open spec fn spec_optional_str(s: Seq<char>, pos: int) -> Result<(Option<Seq<char>>, int), Fault> {
    let p = skip_spaces(s, pos);
    if 0 <= p < s.len() && s[p] == '"' {
        match spec_get_quoted_str(s, p) {
            Err(e) => Err(e),
            Ok((text, q)) => Ok((Some(text), q)),
        }
    } else {
        Ok((None, pos))
    }
}

fn optional_str(s: &[char], pos: usize) -> (out: Result<(Option<String>, usize), Fault>)
    requires
        pos <= s.len(),
    ensures
        scanned(out) == spec_optional_str(s@, pos as int),
        out matches Ok((_, q)) ==> pos <= q <= s.len(),
{
    let p = spaces(s, pos);
    if p < s.len() && s[p] == '"' {
        let (text, q) = get_quoted_str(s, p)?;
        Ok((Some(text), q))
    } else {
        Ok((None, pos))
    }
}

/// `plugin`: the quoted name of a module and, where it is given, a quoted
/// configuration. It carries no date and no metadata.
pub open spec fn spec_plugin_directive(s: Seq<char>, pos: int) -> Result<(DirectiveView, int), Fault> {
    match spec_get_quoted_str(s, pos) {
        Err(e) => Err(e),
        Ok((module, q)) => match spec_optional_str(s, q) {
            Err(e) => Err(e),
            Ok((config, r)) => match spec_end_of_line(s, r) {
                Err(e) => Err(e),
                Ok(t) => Ok((DirectiveView::Plugin(PluginView { module, config }), t)),
            },
        },
    }
}

pub fn plugin_directive(s: &[char], pos: usize) -> (out: Result<(Directive, usize), Fault>)
    requires
        pos <= s.len(),
    ensures
        scanned(out) == spec_plugin_directive(s@, pos as int),
        out matches Ok((d, q)) ==> pos < q <= s.len() && d.deep_view().is_valid(),
{
    let (module, q) = get_quoted_str(s, pos)?;
    let (config, r) = optional_str(s, q)?;
    let t = end_of_line(s, r)?;
    Ok((Directive::Plugin(Plugin { module, config }), t))
}

/// An account, a quoted string, then tags and links, and the metadata below.
pub open spec fn spec_account_note(s: Seq<char>, pos: int) -> Result<
    ((Seq<char>, Seq<char>, Set<Seq<char>>, Set<Seq<char>>, Map<Seq<char>, Seq<char>>), int),
    Fault,
> {
    match spec_account(s, pos) {
        Err(e) => Err(e),
        Ok((account, q)) => match spec_get_quoted_str(s, q) {
            Err(e) => Err(e),
            Ok((text, r)) => {
                let marks = spec_tags_links(s, r, Set::empty(), Set::empty());
                match spec_meta_kv(s, marks.2) {
                    Err(e) => Err(e),
                    Ok((meta, t)) => Ok(((account, text, marks.0, marks.1, meta), t)),
                }
            },
        },
    }
}

/// `note`: an account and a quoted comment, then tags and links.
pub open spec fn spec_note_directive(s: Seq<char>, pos: int, date: Date) -> Result<(DirectiveView, int), Fault> {
    match spec_account_note(s, pos) {
        Err(e) => Err(e),
        Ok((v, t)) => Ok(
            (DirectiveView::Note(NoteView { meta: v.4, date, account: v.0, comment: v.1, tags: v.2, link: v.3 }), t),
        ),
    }
}

pub fn note_directive(s: &[char], pos: usize, date: Date) -> (out: Result<(Directive, usize), Fault>)
    requires
        pos <= s.len(),
    ensures
        scanned(out) == spec_note_directive(s@, pos as int, date),
        out matches Ok((d, q)) ==> pos < q <= s.len() && (date.is_valid() ==> d.deep_view().is_valid()),
{
    let (account, q) = account(s, pos)?;
    let (comment, r) = get_quoted_str(s, q)?;
    let mut tags = StrSet::new();
    let mut link = StrSet::new();
    let m = parse_tag_links(s, r, &mut tags, &mut link);
    let (meta, t) = meta_kv(s, m)?;
    Ok((Directive::Note(Note { meta, date, account, comment, tags, link }), t))
}

/// `document`: an account and the quoted path of a file, then tags and links.
pub open spec fn spec_document_directive(s: Seq<char>, pos: int, date: Date) -> Result<(DirectiveView, int), Fault> {
    match spec_account_note(s, pos) {
        Err(e) => Err(e),
        Ok((v, t)) => Ok(
            (
                DirectiveView::Document(
                    DocumentView { meta: v.4, date, account: v.0, filename: v.1, tags: v.2, link: v.3 },
                ),
                t,
            ),
        ),
    }
}

pub fn document_directive(s: &[char], pos: usize, date: Date) -> (out: Result<(Directive, usize), Fault>)
    requires
        pos <= s.len(),
    ensures
        scanned(out) == spec_document_directive(s@, pos as int, date),
        out matches Ok((d, q)) ==> pos < q <= s.len() && (date.is_valid() ==> d.deep_view().is_valid()),
{
    let (account, q) = account(s, pos)?;
    let (filename, r) = get_quoted_str(s, q)?;
    let mut tags = StrSet::new();
    let mut link = StrSet::new();
    let m = parse_tag_links(s, r, &mut tags, &mut link);
    let (meta, t) = meta_kv(s, m)?;
    Ok((Directive::Document(Document { meta, date, account, filename, tags, link }), t))
}

/// A value of a custom directive that begins at `pos`: a quoted string, or
/// the run of characters up to the next blank.
pub open spec fn spec_may_quoted_str(s: Seq<char>, pos: int) -> Result<(Seq<char>, int), Fault> {
    if 0 <= pos < s.len() && s[pos] == '"' {
        spec_get_quoted_str(s, pos)
    } else {
        let e = run_end(s, pos, CharClass::Bare);
        Ok((s.subrange(pos, e), e))
    }
}

pub fn may_quoted_str(s: &[char], pos: usize) -> (out: Result<(String, usize), Fault>)
    requires
        pos <= s.len(),
    ensures
        scanned(out) == spec_may_quoted_str(s@, pos as int),
        out matches Ok((_, q)) ==> pos <= q <= s.len(),
        out matches Ok((_, q)) ==> (pos < s.len() && !at_line_end(s@, pos as int) && !crate::grammar::is_space(
            s[pos as int],
        ) ==> pos < q),
{
    if pos < s.len() && s[pos] == '"' {
        get_quoted_str(s, pos)
    } else {
        let e = scan_run(s, pos, CharClass::Bare);
        Ok((text_of(s, pos, e), e))
    }
}

/// The values of a custom directive from `pos` to the end of the line, added
/// to `values` in the order in which they are written.
pub open spec fn spec_custom_values(s: Seq<char>, pos: int, values: Seq<Seq<char>>) -> Result<(Seq<Seq<char>>, int), Fault>
    decreases s.len() - pos,
{
    let p = skip_spaces(s, pos);
    if !(0 <= pos <= p) || at_line_end(s, p) {
        Ok((values, pos))
    } else {
        match spec_may_quoted_str(s, p) {
            Err(e) => Err(e),
            Ok((value, q)) => if p < q <= s.len() {
                spec_custom_values(s, q, values.push(value))
            } else {
                Err(fault(ErrorKind::Syntax, p))
            },
        }
    }
}

fn custom_values(s: &[char], pos: usize) -> (out: Result<(Vec<String>, usize), Fault>)
    requires
        pos <= s.len(),
    ensures
        scanned(out) == spec_custom_values(s@, pos as int, Seq::empty()),
        out matches Ok((_, q)) ==> pos <= q <= s.len(),
{
    let mut values: Vec<String> = Vec::new();
    let mut at: usize = pos;
    assert(values.deep_view() =~= Seq::<Seq<char>>::empty());
    loop
        invariant
            pos <= at <= s.len(),
            spec_custom_values(s@, at as int, values.deep_view()) == spec_custom_values(s@, pos as int, Seq::empty()),
        decreases s.len() - at,
    {
        let p = spaces(s, at);
        if line_ends(s, p) {
            return Ok((values, at));
        }
        proof {
            lemma_run_end_bounds(s@, p as int, CharClass::Space);
        }
        let ghost before = values.deep_view();
        let (value, q) = may_quoted_str(s, p)?;
        values.push(value);
        assert(values.deep_view() =~= before.push(value@));
        at = q;
    }
}

/// `custom`: a quoted name and the values behind it.
pub open spec fn spec_custom_directive(s: Seq<char>, pos: int, date: Date) -> Result<(DirectiveView, int), Fault> {
    match spec_get_quoted_str(s, pos) {
        Err(e) => Err(e),
        Ok((name, q)) => match spec_custom_values(s, q, Seq::empty()) {
            Err(e) => Err(e),
            Ok((values, r)) => match spec_meta_kv(s, r) {
                Err(e) => Err(e),
                Ok((meta, t)) => Ok((DirectiveView::Custom(CustomView { meta, date, name, values }), t)),
            },
        },
    }
}

pub fn custom_directive(s: &[char], pos: usize, date: Date) -> (out: Result<(Directive, usize), Fault>)
    requires
        pos <= s.len(),
    ensures
        scanned(out) == spec_custom_directive(s@, pos as int, date),
        out matches Ok((d, q)) ==> pos < q <= s.len() && (date.is_valid() ==> d.deep_view().is_valid()),
{
    let (name, q) = get_quoted_str(s, pos)?;
    let (values, r) = custom_values(s, q)?;
    let (meta, t) = meta_kv(s, r)?;
    Ok((Directive::Custom(Custom { meta, date, name, values }), t))
}

/// The currencies of an `open` directive from `pos` on, with commas between
/// them, added to `found` in the order in which they are written.
pub open spec fn spec_currency_list(s: Seq<char>, pos: int, found: Seq<Seq<char>>) -> Result<(Seq<Seq<char>>, int), Fault>
    decreases s.len() - pos,
{
    let p = skip_spaces(s, pos);
    let c = if 0 <= p < s.len() && s[p] == ',' && found.len() > 0 {
        skip_spaces(s, p + 1)
    } else {
        p
    };
    if 0 <= pos <= c < s.len() && is_upper(s[c]) {
        match spec_currency(s, c) {
            Err(e) => Err(e),
            Ok((currency, q)) => if c < q <= s.len() {
                spec_currency_list(s, q, found.push(currency))
            } else {
                Err(fault(ErrorKind::Syntax, c))
            },
        }
    } else {
        Ok((found, pos))
    }
}

fn currency_list(s: &[char], pos: usize) -> (out: Result<(Vec<String>, usize), Fault>)
    requires
        pos <= s.len(),
    ensures
        scanned(out) == spec_currency_list(s@, pos as int, Seq::empty()),
        out matches Ok((_, q)) ==> pos <= q <= s.len(),
{
    let mut found: Vec<String> = Vec::new();
    let mut at: usize = pos;
    assert(found.deep_view() =~= Seq::<Seq<char>>::empty());
    loop
        invariant
            pos <= at <= s.len(),
            spec_currency_list(s@, at as int, found.deep_view()) == spec_currency_list(s@, pos as int, Seq::empty()),
        decreases s.len() - at,
    {
        let p = spaces(s, at);
        let c = if p < s.len() && s[p] == ',' && found.len() > 0 {
            spaces(s, p + 1)
        } else {
            p
        };
        if !(c < s.len() && is_upper_char(s[c])) {
            return Ok((found, at));
        }
        proof {
            lemma_run_end_bounds(s@, c as int, CharClass::Space);
        }
        let ghost before = found.deep_view();
        let (currency, q) = currency(s, c)?;
        found.push(currency);
        assert(found.deep_view() =~= before.push(currency@));
        at = q;
    }
}

/// The booking method of an `open` directive: a quoted name of one, where a
/// quoted string stands behind the blanks at `pos`. Any other quoted
/// string is the invalid-booking failure.
pub open spec fn spec_booking(s: Seq<char>, pos: int) -> Result<(Option<Booking>, int), Fault> {
    let p = skip_spaces(s, pos);
    match spec_optional_str(s, pos) {
        Err(e) => Err(e),
        Ok((None, q)) => Ok((None, q)),
        Ok((Some(name), q)) => match booking_of_name(name) {
            Some(b) => Ok((Some(b), q)),
            None => Err(fault(ErrorKind::InvalidBooking, p)),
        },
    }
}

fn booking(s: &[char], pos: usize) -> (out: Result<(Option<Booking>, usize), Fault>)
    requires
        pos <= s.len(),
    ensures
        scanned(out) == spec_booking(s@, pos as int),
        out matches Ok((_, q)) ==> pos <= q <= s.len(),
{
    let p = spaces(s, pos);
    let (name, q) = optional_str(s, pos)?;
    match name {
        None => Ok((None, q)),
        Some(name) => {
            let chars = crate::text::chars_of(name.as_str());
            match booking_of_chars(chars.as_slice()) {
                Some(b) => Ok((Some(b), q)),
                None => Err(Fault { kind: ErrorKind::InvalidBooking, at: p }),
            }
        },
    }
}

/// `open`: an account, then its currencies and its booking method, each of
/// which may be left out.
pub open spec fn spec_open_directive(s: Seq<char>, pos: int, date: Date) -> Result<(DirectiveView, int), Fault> {
    match spec_account(s, pos) {
        Err(e) => Err(e),
        Ok((account, q)) => match spec_currency_list(s, q, Seq::empty()) {
            Err(e) => Err(e),
            Ok((currencies, r)) => match spec_booking(s, r) {
                Err(e) => Err(e),
                Ok((booking, t)) => match spec_meta_kv(s, t) {
                    Err(e) => Err(e),
                    Ok((meta, u)) => Ok(
                        (DirectiveView::Open(OpenView { meta, date, account, currencies, booking }), u),
                    ),
                },
            },
        },
    }
}

pub fn open_directive(s: &[char], pos: usize, date: Date) -> (out: Result<(Directive, usize), Fault>)
    requires
        pos <= s.len(),
    ensures
        scanned(out) == spec_open_directive(s@, pos as int, date),
        out matches Ok((d, q)) ==> pos < q <= s.len() && (date.is_valid() ==> d.deep_view().is_valid()),
{
    let (account, q) = account(s, pos)?;
    let (currencies, r) = currency_list(s, q)?;
    let (booking, t) = booking(s, r)?;
    let (meta, u) = meta_kv(s, t)?;
    Ok((Directive::Open(Open { meta, date, account, currencies, booking }), u))
}

/// What the lines below the head of a transaction have given so far.
#[derive(Debug)]
pub struct TxBody {
    pub meta: Metadata,
    pub tags: StrSet,
    pub links: StrSet,
    pub postings: Vec<Posting>,
}

/// The value of a [`TxBody`].
pub struct TxBodyView {
    pub meta: Map<Seq<char>, Seq<char>>,
    pub tags: Set<Seq<char>>,
    pub links: Set<Seq<char>>,
    pub postings: Seq<PostingView>,
}

impl TxBodyView {
    /// Every posting is valid.
    pub open spec fn is_valid(self) -> bool {
        valid_postings(self.postings)
    }
}

impl DeepView for TxBody {
    type V = TxBodyView;

    open spec fn deep_view(&self) -> TxBodyView {
        TxBodyView {
            meta: self.meta@,
            tags: self.tags@,
            links: self.links@,
            postings: self.postings.deep_view(),
        }
    }
}

/// One line of the body of a transaction, read from its first character
/// that is no blank: a comment, a metadata entry, tags and links, or a
/// posting, folded into `body`.
pub open spec fn spec_body_item(s: Seq<char>, p: int, body: TxBodyView) -> Result<(TxBodyView, int), Fault> {
    if s[p] == ';' {
        Ok((body, p))
    } else if is_lower(s[p]) {
        match spec_meta_kv_pair(s, p) {
            Err(e) => Err(e),
            Ok((entry, q)) => Ok((TxBodyView { meta: body.meta.insert(entry.0, entry.1), ..body }, q)),
        }
    } else if s[p] == '#' || s[p] == '^' {
        let marks = spec_tags_links(s, p, body.tags, body.links);
        Ok((TxBodyView { tags: marks.0, links: marks.1, ..body }, marks.2))
    } else {
        match spec_posting(s, p) {
            Err(e) => Err(e),
            Ok((posting, q)) => Ok((TxBodyView { postings: body.postings.push(posting), ..body }, q)),
        }
    }
}

/// One line of the body of a transaction, from its start at `pos` to the
/// start of the next line.
#[verifier::opaque]
pub open spec fn spec_body_line(s: Seq<char>, pos: int, body: TxBodyView) -> Result<(TxBodyView, int), Fault> {
    match spec_body_item(s, skip_spaces(s, pos), body) {
        Err(e) => Err(e),
        Ok((body, q)) => match spec_end_of_line(s, q) {
            Err(e) => Err(e),
            Ok(next) => Ok((body, next)),
        },
    }
}

/// The body of a transaction from the line at `pos` on: every indented line
/// that holds more than blanks, folded into `body` in order.
pub open spec fn spec_body(s: Seq<char>, pos: int, body: TxBodyView) -> Result<(TxBodyView, int), Fault>
    decreases s.len() - pos,
{
    if !is_body_line(s, pos) {
        Ok((body, pos))
    } else {
        match spec_body_line(s, pos, body) {
            Err(e) => Err(e),
            Ok((body, next)) => if pos < next <= s.len() {
                spec_body(s, next, body)
            } else {
                Err(fault(ErrorKind::Syntax, pos))
            },
        }
    }
}

fn body_item(s: &[char], p: usize, body: TxBody) -> (out: Result<(TxBody, usize), Fault>)
    requires
        p < s.len(),
        body.deep_view().is_valid(),
    ensures
        scanned(out) == spec_body_item(s@, p as int, body.deep_view()),
        out matches Ok((b, q)) ==> p <= q <= s.len() && b.deep_view().is_valid(),
{
    let mut body = body;
    let c = s[p];
    if c == ';' {
        Ok((body, p))
    } else if is_lower_char(c) {
        let (entry, q) = meta_kv_pair(s, p)?;
        body.meta.insert(entry.0, entry.1);
        Ok((body, q))
    } else if c == '#' || c == '^' {
        let q = parse_tag_links(s, p, &mut body.tags, &mut body.links);
        Ok((body, q))
    } else {
        let ghost before = body.postings.deep_view();
        let (posting, q) = posting(s, p)?;
        body.postings.push(posting);
        assert(body.postings.deep_view() =~= before.push(posting.deep_view()));
        Ok((body, q))
    }
}

fn body_line_of(s: &[char], pos: usize, body: TxBody) -> (out: Result<(TxBody, usize), Fault>)
    requires
        pos <= s.len(),
        is_body_line(s@, pos as int),
        body.deep_view().is_valid(),
    ensures
        scanned(out) == spec_body_line(s@, pos as int, body.deep_view()),
        out matches Ok((b, q)) ==> pos < q <= s.len() && b.deep_view().is_valid(),
{
    let p = spaces(s, pos);
    proof {
        reveal(spec_body_line);
        lemma_run_end_bounds(s@, pos as int, CharClass::Space);
    }
    let (next_body, q) = body_item(s, p, body)?;
    let next = end_of_line(s, q)?;
    Ok((next_body, next))
}

fn body(s: &[char], pos: usize, start: TxBody) -> (out: Result<(TxBody, usize), Fault>)
    requires
        pos <= s.len(),
        start.deep_view().is_valid(),
    ensures
        scanned(out) == spec_body(s@, pos as int, start.deep_view()),
        out matches Ok((b, q)) ==> pos <= q <= s.len() && b.deep_view().is_valid(),
{
    let ghost first = start.deep_view();
    let mut current = start;
    let mut at: usize = pos;
    while body_line(s, at)
        invariant
            pos <= at <= s.len(),
            first == start.deep_view(),
            current.deep_view().is_valid(),
            spec_body(s@, at as int, current.deep_view()) == spec_body(s@, pos as int, first),
        decreases s.len() - at,
    {
        match body_line_of(s, at, current) {
            Err(e) => {
                return Err(e);
            },
            Ok((next_body, next)) => {
                current = next_body;
                at = next;
            },
        }
    }
    Ok((current, at))
}

/// The payee and the narration of a transaction: of two quoted strings the
/// first is the payee; a single one is the narration.
pub open spec fn spec_payee_narration(s: Seq<char>, pos: int) -> Result<((Option<Seq<char>>, Seq<char>), int), Fault> {
    match spec_get_quoted_str(s, pos) {
        Err(e) => Err(e),
        Ok((first, q)) => match spec_optional_str(s, q) {
            Err(e) => Err(e),
            Ok((Some(second), r)) => Ok(((Some(first), second), r)),
            Ok((None, r)) => Ok(((None, first), r)),
        },
    }
}

fn payee_narration(s: &[char], pos: usize) -> (out: Result<((Option<String>, String), usize), Fault>)
    requires
        pos <= s.len(),
    ensures
        scanned(out) == spec_payee_narration(s@, pos as int),
        out matches Ok((_, q)) ==> pos < q <= s.len(),
{
    let (first, q) = get_quoted_str(s, pos)?;
    let (second, r) = optional_str(s, q)?;
    match second {
        Some(second) => Ok(((Some(first), second), r)),
        None => Ok(((None, first), r)),
    }
}

/// A transaction behind its flag: payee and narration, tags and links on
/// the same line, then the body. Its tags are those written on it together
/// with `pushed`, the tags that are pushed where it stands.
pub open spec fn spec_transaction_directive(
    s: Seq<char>,
    pos: int,
    date: Date,
    flag: char,
    pushed: Set<Seq<char>>,
) -> Result<(DirectiveView, int), Fault> {
    match spec_payee_narration(s, pos) {
        Err(e) => Err(e),
        Ok((names, q)) => {
            let marks = spec_tags_links(s, q, Set::empty(), Set::empty());
            match spec_end_of_line(s, marks.2) {
                Err(e) => Err(e),
                Ok(next) => match spec_body(
                    s,
                    next,
                    TxBodyView { meta: Map::empty(), tags: marks.0, links: marks.1, postings: Seq::empty() },
                ) {
                    Err(e) => Err(e),
                    Ok((body, end)) => Ok(
                        (
                            DirectiveView::Transaction(
                                TransactionView {
                                    meta: body.meta,
                                    date,
                                    flag,
                                    payee: names.0,
                                    narration: names.1,
                                    tags: body.tags.union(pushed),
                                    links: body.links,
                                    postings: body.postings,
                                },
                            ),
                            end,
                        ),
                    ),
                },
            }
        },
    }
}

pub fn transaction_directive(s: &[char], pos: usize, date: Date, flag: char, state: &ParseState) -> (out: Result<
    (Directive, usize),
    Fault,
>)
    requires
        pos <= s.len(),
    ensures
        scanned(out) == spec_transaction_directive(s@, pos as int, date, flag, state@.dom()),
        out matches Ok((d, q)) ==> pos < q <= s.len() && (date.is_valid() ==> d.deep_view().is_valid()),
{
    let (names, q) = payee_narration(s, pos)?;
    let (tags, links, m) = tags_links(s, q);
    let next = end_of_line(s, m)?;
    let start = TxBody { meta: Metadata::new(), tags, links, postings: Vec::new() };
    assert(start.postings.deep_view() =~= Seq::<PostingView>::empty());
    let (body, end) = body(s, next, start)?;
    let mut tags = body.tags;
    let pushed = state.get_pushed_tags();
    tags.insert_all(&pushed);
    Ok(
        (
            Directive::Transaction(
                Transaction {
                    meta: body.meta,
                    date,
                    flag,
                    payee: names.0,
                    narration: names.1,
                    tags,
                    links: body.links,
                    postings: body.postings,
                },
            ),
            end,
        ),
    )
}

/// The tags of a transaction hold every tag that is pushed where it stands
/// and every tag written on its first line, and nothing is lost of either.
pub proof fn lemma_transaction_carries_pushed_tags(
    s: Seq<char>,
    pos: int,
    date: Date,
    flag: char,
    pushed: Set<Seq<char>>,
)
    ensures
        spec_transaction_directive(s, pos, date, flag, pushed) matches Ok((DirectiveView::Transaction(t), _))
            ==> pushed.subset_of(t.tags) && t.date == date && t.flag == flag,
        spec_transaction_directive(s, pos, date, flag, pushed) matches Ok((DirectiveView::Transaction(t), _))
            ==> (spec_transaction_directive(s, pos, date, flag, Set::empty()) matches Ok(
            (DirectiveView::Transaction(bare), _),
        ) && t.tags == bare.tags.union(pushed)),
        spec_transaction_directive(s, pos, date, flag, pushed) matches Ok((d, _)) ==> d is Transaction,
{
    match spec_transaction_directive(s, pos, date, flag, pushed) {
        Ok((DirectiveView::Transaction(t), _)) => {
            match spec_transaction_directive(s, pos, date, flag, Set::empty()) {
                Ok((DirectiveView::Transaction(bare), _)) => {
                    assert(bare.tags.union(pushed) =~= t.tags);
                },
                _ => {},
            }
        },
        _ => {},
    }
}

/// The directive of the keyword that stands in `s` from `k` to `e`, behind
/// the date `date`.
pub open spec fn spec_dated(s: Seq<char>, k: int, e: int, date: Date, pushed: Set<Seq<char>>) -> Result<
    (DirectiveView, int),
    Fault,
> {
    let word = s.subrange(k, e);
    if word == "txn"@ {
        spec_transaction_directive(s, e, date, '*', pushed)
    } else if word == "open"@ {
        spec_open_directive(s, e, date)
    } else if word == "close"@ {
        spec_close_directive(s, e, date)
    } else if word == "commodity"@ {
        spec_commodity_directive(s, e, date)
    } else if word == "pad"@ {
        spec_pad_directive(s, e, date)
    } else if word == "balance"@ {
        spec_balance_directive(s, e, date)
    } else if word == "price"@ {
        spec_price_directive(s, e, date)
    } else if word == "event"@ {
        spec_event_directive(s, e, date)
    } else if word == "query"@ {
        spec_query_directive(s, e, date)
    } else if word == "note"@ {
        spec_note_directive(s, e, date)
    } else if word == "document"@ {
        spec_document_directive(s, e, date)
    } else if word == "custom"@ {
        spec_custom_directive(s, e, date)
    } else {
        Err(fault(ErrorKind::Syntax, k))
    }
}

fn dated(s: &[char], k: usize, e: usize, date: Date, state: &ParseState) -> (out: Result<(Directive, usize), Fault>)
    requires
        k <= e <= s.len(),
    ensures
        scanned(out) == spec_dated(s@, k as int, e as int, date, state@.dom()),
        out matches Ok((d, q)) ==> e < q <= s.len() && (date.is_valid() ==> d.deep_view().is_valid()),
{
    if same_text(s, k, e, "txn") {
        transaction_directive(s, e, date, '*', state)
    } else if same_text(s, k, e, "open") {
        open_directive(s, e, date)
    } else if same_text(s, k, e, "close") {
        close_directive(s, e, date)
    } else if same_text(s, k, e, "commodity") {
        commodity_directive(s, e, date)
    } else if same_text(s, k, e, "pad") {
        pad_directive(s, e, date)
    } else if same_text(s, k, e, "balance") {
        balance_directive(s, e, date)
    } else if same_text(s, k, e, "price") {
        price_directive(s, e, date)
    } else if same_text(s, k, e, "event") {
        event_directive(s, e, date)
    } else if same_text(s, k, e, "query") {
        query_directive(s, e, date)
    } else if same_text(s, k, e, "note") {
        note_directive(s, e, date)
    } else if same_text(s, k, e, "document") {
        document_directive(s, e, date)
    } else if same_text(s, k, e, "custom") {
        custom_directive(s, e, date)
    } else {
        Err(Fault { kind: ErrorKind::Syntax, at: k })
    }
}

/// The directive that begins at `pos`: behind a date, a transaction flag or
/// one of the dated keywords; without a date, `option` or `plugin`.
#[verifier::opaque]
pub open spec fn spec_directive(s: Seq<char>, pos: int, pushed: Set<Seq<char>>) -> Result<(DirectiveView, int), Fault> {
    if 0 <= pos < s.len() && is_digit(s[pos]) {
        match spec_date(s, pos) {
            Err(e) => Err(e),
            Ok((date, q)) => match spec_required(s, q) {
                Err(e) => Err(e),
                Ok(k) => if s[k] == '*' || s[k] == '!' {
                    spec_transaction_directive(s, k + 1, date, s[k], pushed)
                } else {
                    spec_dated(s, k, run_end(s, k, CharClass::Name), date, pushed)
                },
            },
        }
    } else {
        let e = run_end(s, pos, CharClass::Name);
        if s.subrange(pos, e) == "option"@ {
            spec_option_directive(s, e)
        } else if s.subrange(pos, e) == "plugin"@ {
            spec_plugin_directive(s, e)
        } else {
            Err(fault(ErrorKind::Syntax, pos))
        }
    }
}

pub fn directive(s: &[char], pos: usize, state: &ParseState) -> (out: Result<(Directive, usize), Fault>)
    requires
        pos <= s.len(),
    ensures
        scanned(out) == spec_directive(s@, pos as int, state@.dom()),
        out matches Ok((d, q)) ==> pos < q <= s.len() && d.deep_view().is_valid(),
{
    proof {
        reveal(spec_directive);
    }
    if pos < s.len() && is_digit_char(s[pos]) {
        let (date, q) = date(s, pos)?;
        let k = required(s, q)?;
        if s[k] == '*' || s[k] == '!' {
            transaction_directive(s, k + 1, date, s[k], state)
        } else {
            let e = scan_run(s, k, CharClass::Name);
            dated(s, k, e, date, state)
        }
    } else {
        let e = scan_run(s, pos, CharClass::Name);
        if same_text(s, pos, e, "option") {
            option_directive(s, e)
        } else if same_text(s, pos, e, "plugin") {
            plugin_directive(s, e)
        } else {
            Err(Fault { kind: ErrorKind::Syntax, at: pos })
        }
    }
}

} // verus!
