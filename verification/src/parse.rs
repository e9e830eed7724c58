//! The parse of a whole ledger: its lines in order, the tags that are
//! pushed, and the file that they make.

use vstd::prelude::*;
use vstd::multiset::Multiset;
use vstd::string::*;
use crate::collections::{lemma_to_set_push, texts};
use crate::data::{Directive, DirectiveView, File, FileView};
use crate::directive::{directive, spec_directive};
use crate::error::{fault, ErrorKind, Fault, ParseError};
use crate::grammar::{
    at_line_end, end_of_line, get_quoted_str, lemma_run_end_bounds, line_ends, required,
    run_end, scan_run, scanned, skip_spaces, spaces, spec_end_of_line, spec_get_quoted_str,
    spec_required, text_of, CharClass,
};
use crate::tags::ParseState;
use crate::text::{chars_of, numeral, numeral_string, same_text};

verus! {

/// The value of a [`ParseError`].
pub struct ParseErrorView {
    pub kind: ErrorKind,
    pub line: int,
    pub column: int,
    pub tags: Set<Seq<char>>,
}

impl DeepView for ParseError {
    type V = ParseErrorView;

    open spec fn deep_view(&self) -> ParseErrorView {
        ParseErrorView {
            kind: self.kind,
            line: self.line as int,
            column: self.column as int,
            tags: texts(self.tags@).to_set(),
        }
    }
}

/// The number of line breaks before the position `pos`.
pub open spec fn newlines_before(s: Seq<char>, pos: int) -> int
    decreases pos,
{
    if pos <= 0 || pos > s.len() {
        0
    } else if s[pos - 1] == '\n' {
        newlines_before(s, pos - 1) + 1
    } else {
        newlines_before(s, pos - 1)
    }
}

/// The 1-based number of the line that holds the position `pos`, and
/// `usize::MAX` where that number is larger.
pub open spec fn line_number(s: Seq<char>, pos: int) -> int {
    if newlines_before(s, pos) < usize::MAX {
        newlines_before(s, pos) + 1
    } else {
        usize::MAX as int
    }
}

/// The position at which the line that holds the position `pos` begins.
pub open spec fn line_start(s: Seq<char>, pos: int) -> int
    decreases pos,
{
    if pos <= 0 || pos > s.len() {
        0
    } else if s[pos - 1] == '\n' {
        pos
    } else {
        line_start(s, pos - 1)
    }
}

/// The 1-based number of the column of the position `pos` in its line, and
/// `usize::MAX` where that number is larger.
pub open spec fn column_number(s: Seq<char>, pos: int) -> int {
    if pos - line_start(s, pos) < usize::MAX {
        pos - line_start(s, pos) + 1
    } else {
        usize::MAX as int
    }
}

/// The place of the offset `at` in the text, as a failure reports it.
pub open spec fn located_at(s: Seq<char>, kind: ErrorKind, at: int, tags: Set<Seq<char>>) -> ParseErrorView {
    ParseErrorView { kind, line: line_number(s, at), column: column_number(s, at), tags }
}

pub proof fn lemma_newlines_bound(s: Seq<char>, pos: int)
    ensures
        0 <= newlines_before(s, pos),
        pos >= 0 ==> newlines_before(s, pos) <= pos,
    decreases pos,
{
    if !(pos <= 0 || pos > s.len()) {
        lemma_newlines_bound(s, pos - 1);
    }
}

/// Counts the line breaks from `from` to `to`, on top of those before `from`.
fn count_breaks(s: &[char], from: usize, to: usize, breaks: usize) -> (out: usize)
    requires
        from <= to <= s.len(),
        breaks == newlines_before(s@, from as int),
    ensures
        out == newlines_before(s@, to as int),
        out <= to,
{
    let mut count: usize = breaks;
    let mut i: usize = from;
    proof {
        lemma_newlines_bound(s@, from as int);
    }
    while i < to
        invariant
            from <= i <= to <= s.len(),
            count == newlines_before(s@, i as int),
            count <= i,
        decreases to - i,
    {
        if s[i] == '\n' {
            count += 1;
        }
        i += 1;
    }
    count
}

/// The start of the line that holds the position `at`.
fn start_of_line(s: &[char], at: usize) -> (out: usize)
    requires
        at <= s.len(),
    ensures
        out == line_start(s@, at as int),
        out <= at,
{
    let mut start: usize = 0;
    let mut i: usize = 0;
    while i < at
        invariant
            i <= at <= s.len(),
            start == line_start(s@, i as int),
            start <= i,
        decreases at - i,
    {
        i += 1;
        if s[i - 1] == '\n' {
            start = i;
        }
    }
    start
}

/// The failure of kind `kind` at the offset `at`, naming `tags`.
fn failure(s: &[char], kind: ErrorKind, at: usize, tags: Vec<String>) -> (out: ParseError)
    ensures
        out.deep_view() == located_at(s@, kind, at as int, texts(tags@).to_set()),
{
    let (breaks, start) = if at <= s.len() {
        (count_breaks(s, 0, at, 0), start_of_line(s, at))
    } else {
        (0, 0)
    };
    let line = if breaks < usize::MAX {
        breaks + 1
    } else {
        usize::MAX
    };
    let column = if at - start < usize::MAX {
        at - start + 1
    } else {
        usize::MAX
    };
    ParseError { kind, line, column, tags }
}

/// What one entry of a ledger is: a line to pass over, a pragma, or a
/// directive.
#[derive(Debug)]
pub enum Entry {
    Skip,
    Push(String),
    Pop(String),
    Include(String),
    Item(Directive),
}

/// The value of an [`Entry`].
pub enum EntryView {
    Skip,
    Push(Seq<char>),
    Pop(Seq<char>),
    Include(Seq<char>),
    Item(DirectiveView),
}

impl EntryView {
    /// The directive of the entry, where it holds one, is valid.
    pub open spec fn is_valid(self) -> bool {
        self matches EntryView::Item(d) ==> d.is_valid()
    }
}

impl DeepView for Entry {
    type V = EntryView;

    open spec fn deep_view(&self) -> EntryView {
        match self {
            Entry::Skip => EntryView::Skip,
            Entry::Push(t) => EntryView::Push(t@),
            Entry::Pop(t) => EntryView::Pop(t@),
            Entry::Include(p) => EntryView::Include(p@),
            Entry::Item(d) => EntryView::Item(d.deep_view()),
        }
    }
}

/// The tag of a `pushtag` or `poptag` line: `#` and a name, and the rest of
/// the line.
pub open spec fn spec_extract_tag(s: Seq<char>, pos: int) -> Result<(Seq<char>, int), Fault> {
    match spec_required(s, pos) {
        Err(e) => Err(e),
        Ok(p) => {
            let e = run_end(s, p + 1, CharClass::Name);
            if s[p] != '#' || e <= p + 1 {
                Err(fault(ErrorKind::Syntax, p))
            } else {
                match spec_end_of_line(s, e) {
                    Err(e) => Err(e),
                    Ok(next) => Ok((s.subrange(p + 1, e), next)),
                }
            }
        },
    }
}

pub fn extract_tag(s: &[char], pos: usize) -> (out: Result<(String, usize), Fault>)
    requires
        pos <= s.len(),
    ensures
        scanned(out) == spec_extract_tag(s@, pos as int),
        out matches Ok((_, q)) ==> pos < q <= s.len(),
{
    let p = required(s, pos)?;
    if s[p] != '#' {
        return Err(Fault { kind: ErrorKind::Syntax, at: p });
    }
    let e = scan_run(s, p + 1, CharClass::Name);
    if e <= p + 1 {
        return Err(Fault { kind: ErrorKind::Syntax, at: p });
    }
    let next = end_of_line(s, e)?;
    Ok((text_of(s, p + 1, e), next))
}

/// The path of an `include` line, and the rest of the line.
pub open spec fn spec_include(s: Seq<char>, pos: int) -> Result<(Seq<char>, int), Fault> {
    match spec_get_quoted_str(s, pos) {
        Err(e) => Err(e),
        Ok((path, q)) => match spec_end_of_line(s, q) {
            Err(e) => Err(e),
            Ok(next) => Ok((path, next)),
        },
    }
}

fn include_path(s: &[char], pos: usize) -> (out: Result<(String, usize), Fault>)
    requires
        pos <= s.len(),
    ensures
        scanned(out) == spec_include(s@, pos as int),
        out matches Ok((_, q)) ==> pos < q <= s.len(),
{
    let (path, q) = get_quoted_str(s, pos)?;
    let next = end_of_line(s, q)?;
    Ok((path, next))
}

/// The entry that begins with the line at `pos`: a blank line or a comment,
/// `pushtag`, `poptag`, `include`, or a directive. `pushed` holds the tags
/// that are pushed there.
#[verifier::opaque]
pub open spec fn spec_entry(s: Seq<char>, pos: int, pushed: Set<Seq<char>>) -> Result<(EntryView, int), Fault> {
    let p = skip_spaces(s, pos);
    let e = run_end(s, pos, CharClass::Name);
    if at_line_end(s, p) {
        match spec_end_of_line(s, p) {
            Err(e) => Err(e),
            Ok(next) => Ok((EntryView::Skip, next)),
        }
    } else if p > pos {
        Err(fault(ErrorKind::Syntax, p))
    } else if s.subrange(pos, e) == "pushtag"@ {
        match spec_extract_tag(s, e) {
            Err(e) => Err(e),
            Ok((tag, next)) => Ok((EntryView::Push(tag), next)),
        }
    } else if s.subrange(pos, e) == "poptag"@ {
        match spec_extract_tag(s, e) {
            Err(e) => Err(e),
            Ok((tag, next)) => Ok((EntryView::Pop(tag), next)),
        }
    } else if s.subrange(pos, e) == "include"@ {
        match spec_include(s, e) {
            Err(e) => Err(e),
            Ok((path, next)) => Ok((EntryView::Include(path), next)),
        }
    } else {
        match spec_directive(s, pos, pushed) {
            Err(e) => Err(e),
            Ok((d, next)) => Ok((EntryView::Item(d), next)),
        }
    }
}

pub fn entry(s: &[char], pos: usize, state: &ParseState) -> (out: Result<(Entry, usize), Fault>)
    requires
        pos <= s.len(),
    ensures
        scanned(out) == spec_entry(s@, pos as int, state@.dom()),
        out matches Ok((e, q)) ==> pos <= q <= s.len() && (pos < s.len() ==> pos < q) && e.deep_view().is_valid(),
{
    proof {
        reveal(spec_entry);
        lemma_run_end_bounds(s@, pos as int, CharClass::Space);
    }
    let p = spaces(s, pos);
    if line_ends(s, p) {
        proof {
            lemma_run_end_bounds(s@, p as int, CharClass::Space);
            lemma_run_end_bounds(s@, p as int, CharClass::Line);
        }
        let next = end_of_line(s, p)?;
        return Ok((Entry::Skip, next));
    }
    if p > pos {
        return Err(Fault { kind: ErrorKind::Syntax, at: p });
    }
    let e = scan_run(s, pos, CharClass::Name);
    if same_text(s, pos, e, "pushtag") {
        let (tag, next) = extract_tag(s, e)?;
        Ok((Entry::Push(tag), next))
    } else if same_text(s, pos, e, "poptag") {
        let (tag, next) = extract_tag(s, e)?;
        Ok((Entry::Pop(tag), next))
    } else if same_text(s, pos, e, "include") {
        let (path, next) = include_path(s, e)?;
        Ok((Entry::Include(path), next))
    } else {
        let (d, next) = directive(s, pos, state)?;
        Ok((Entry::Item(d), next))
    }
}

/// The directive with its source line under the key `lineno`.
pub open spec fn with_lineno(d: DirectiveView, line: int) -> DirectiveView {
    d.with_meta("lineno"@, numeral(line as nat))
}

/// The file with one more directive; an option is also listed among the
/// options of the file.
pub open spec fn file_with(file: FileView, d: DirectiveView) -> FileView {
    FileView {
        options: match d {
            DirectiveView::Option(o) => file.options.push((o.name, o.value)),
            _ => file.options,
        },
        directives: file.directives.push(d),
        ..file
    }
}

/// The failure of the grammar `f`, as the failure of the parse.
pub open spec fn grammar_failure(s: Seq<char>, f: Fault) -> ParseErrorView {
    located_at(s, f.kind, f.at as int, Set::empty())
}

/// What the entry at `pos` does to the pushed tags and to the file, and the
/// position of the next entry.
///
/// `pushtag` raises the count of its tag and `poptag` lowers it, failing
/// where the tag is not pushed. `include` adds its path. A directive is
/// added with its line number in its metadata.
#[verifier::opaque]
pub open spec fn spec_step(s: Seq<char>, pos: int, pushed: Multiset<Seq<char>>, file: FileView) -> Result<
    (Multiset<Seq<char>>, FileView, int),
    ParseErrorView,
> {
    match spec_entry(s, pos, pushed.dom()) {
        Err(f) => Err(grammar_failure(s, f)),
        Ok((EntryView::Skip, next)) => Ok((pushed, file, next)),
        Ok((EntryView::Push(tag), next)) => Ok((pushed.insert(tag), file, next)),
        Ok((EntryView::Pop(tag), next)) => if pushed.count(tag) > 0 {
            Ok((pushed.remove(tag), file, next))
        } else {
            Err(located_at(s, ErrorKind::AbsentTag, pos, Set::empty().insert(tag)))
        },
        Ok((EntryView::Include(path), next)) => Ok(
            (pushed, FileView { includes: file.includes.push(path), ..file }, next),
        ),
        Ok((EntryView::Item(d), next)) => Ok((pushed, file_with(file, with_lineno(d, line_number(s, pos))), next)),
    }
}

/// The parse of `s` from the entry at `pos` on, with the tags `pushed` and
/// the file `file` so far. Where the input ends with a tag still pushed, the
/// parse fails and names every such tag.
pub open spec fn spec_parse_from(s: Seq<char>, pos: int, pushed: Multiset<Seq<char>>, file: FileView) -> Result<
    FileView,
    ParseErrorView,
>
    decreases s.len() - pos,
{
    if !(0 <= pos < s.len()) {
        if pushed.len() == 0 {
            Ok(file)
        } else {
            Err(located_at(s, ErrorKind::UnbalancedTags, s.len() as int, pushed.dom()))
        }
    } else {
        match spec_step(s, pos, pushed, file) {
            Err(e) => Err(e),
            Ok((pushed, file, next)) => if pos < next <= s.len() {
                spec_parse_from(s, next, pushed, file)
            } else {
                Err(located_at(s, ErrorKind::Syntax, pos, Set::empty()))
            },
        }
    }
}

/// The parse of a whole ledger.
pub open spec fn spec_parse(s: Seq<char>) -> Result<FileView, ParseErrorView> {
    spec_parse_from(
        s,
        0,
        Multiset::empty(),
        FileView { includes: Seq::empty(), options: Seq::empty(), directives: Seq::empty() },
    )
}

/// Where the input ends with a tag still pushed, the parse fails with the
/// unbalanced-tags failure, which names exactly the tags that are pushed;
/// with none pushed it gives the file.
pub proof fn lemma_end_of_input(s: Seq<char>, pushed: Multiset<Seq<char>>, file: FileView)
    ensures
        pushed.len() == 0 ==> spec_parse_from(s, s.len() as int, pushed, file) == Ok::<FileView, ParseErrorView>(file),
        pushed.len() > 0 ==> (spec_parse_from(s, s.len() as int, pushed, file) matches Err(e)
            && e.kind == ErrorKind::UnbalancedTags && forall|tag: Seq<char>|
            e.tags.contains(tag) <==> pushed.count(tag) > 0),
{
}

/// Every directive but a plugin carries its line number under `lineno`, and
/// its other metadata stay as they were; a plugin stays as it is.
pub proof fn lemma_lineno(d: DirectiveView, line: int)
    ensures
        d is Plugin ==> with_lineno(d, line) == d,
        with_lineno(d, line) matches DirectiveView::Open(x) ==> x.meta["lineno"@] == numeral(line as nat),
        with_lineno(d, line) matches DirectiveView::Close(x) ==> x.meta["lineno"@] == numeral(line as nat),
        with_lineno(d, line) matches DirectiveView::Commodity(x) ==> x.meta["lineno"@] == numeral(line as nat),
        with_lineno(d, line) matches DirectiveView::Transaction(x) ==> x.meta["lineno"@] == numeral(line as nat),
        with_lineno(d, line) matches DirectiveView::Pad(x) ==> x.meta["lineno"@] == numeral(line as nat),
        with_lineno(d, line) matches DirectiveView::Balance(x) ==> x.meta["lineno"@] == numeral(line as nat),
        with_lineno(d, line) matches DirectiveView::Price(x) ==> x.meta["lineno"@] == numeral(line as nat),
        with_lineno(d, line) matches DirectiveView::Event(x) ==> x.meta["lineno"@] == numeral(line as nat),
        with_lineno(d, line) matches DirectiveView::Option(x) ==> x.meta["lineno"@] == numeral(line as nat),
        with_lineno(d, line) matches DirectiveView::Custom(x) ==> x.meta["lineno"@] == numeral(line as nat),
        with_lineno(d, line) matches DirectiveView::Note(x) ==> x.meta["lineno"@] == numeral(line as nat),
        with_lineno(d, line) matches DirectiveView::Document(x) ==> x.meta["lineno"@] == numeral(line as nat),
        with_lineno(d, line) matches DirectiveView::Query(x) ==> x.meta["lineno"@] == numeral(line as nat),
{
}

/// The result of a parse as the value that the contracts speak of.
pub open spec fn parsed(out: Result<File, ParseError>) -> Result<FileView, ParseErrorView> {
    match out {
        Ok(file) => Ok(file.deep_view()),
        Err(e) => Err(e.deep_view()),
    }
}

/// How far the line breaks of the text are counted.
struct LineCounter {
    counted: usize,
    breaks: usize,
}

impl LineCounter {
    spec fn is_valid(&self, s: Seq<char>) -> bool {
        self.counted <= s.len() && self.breaks == newlines_before(s, self.counted as int)
    }
}

/// Adds the directive `d`, which begins at `at`, to the file.
fn add_directive(s: &[char], at: usize, d: Directive, file: &mut File, lines: &mut LineCounter)
    requires
        at < s.len(),
        old(lines).is_valid(s@),
        old(lines).counted <= at,
        d.deep_view().is_valid(),
        old(file).deep_view().is_valid(),
    ensures
        final(file).deep_view().is_valid(),
        final(file).deep_view() == file_with(old(file).deep_view(), with_lineno(d.deep_view(), line_number(s@, at as int))),
        final(lines).is_valid(s@),
        final(lines).counted == at,
{
    let breaks = count_breaks(s, lines.counted, at, lines.breaks);
    lines.counted = at;
    lines.breaks = breaks;
    let mut d = d;
    d.insert_meta(String::from_str("lineno"), numeral_string(breaks + 1));
    let ghost options = file.options.deep_view();
    let ghost directives = file.directives.deep_view();
    match &d {
        Directive::Option(o) => {
            let name = o.name.clone();
            let value = o.value.clone();
            file.options.push((name, value));
            assert(file.options.deep_view() =~= options.push((o.name@, o.value@)));
        },
        _ => {},
    }
    file.directives.push(d);
    assert(file.directives.deep_view() =~= directives.push(d.deep_view()));
    assert forall|i: int| 0 <= i < file.directives.deep_view().len() implies (#[trigger] file.directives.deep_view()[i]).is_valid() by {
        if i < directives.len() {
            assert(directives == old(file).deep_view().directives);
            assert(old(file).deep_view().directives[i].is_valid());
        }
    }
}

/// Reads the entry at `at` and applies it to the state and to the file.
fn step(s: &[char], at: usize, state: &mut ParseState, file: &mut File, lines: &mut LineCounter) -> (out: Result<
    usize,
    ParseError,
>)
    requires
        at < s.len(),
        old(lines).is_valid(s@),
        old(lines).counted <= at,
        old(file).deep_view().is_valid(),
    ensures
        final(file).deep_view().is_valid(),
        match out {
            Ok(next) => spec_step(s@, at as int, old(state)@, old(file).deep_view()) == Ok::<
                (Multiset<Seq<char>>, FileView, int),
                ParseErrorView,
            >((final(state)@, final(file).deep_view(), next as int)) && at < next <= s.len(),
            Err(e) => spec_step(s@, at as int, old(state)@, old(file).deep_view()) == Err::<
                (Multiset<Seq<char>>, FileView, int),
                ParseErrorView,
            >(e.deep_view()),
        },
        final(lines).is_valid(s@),
        final(lines).counted <= at,
{
    proof {
        reveal(spec_step);
    }
    match entry(s, at, state) {
        Err(f) => {
            let tags: Vec<String> = Vec::new();
            assert(texts(tags@).to_set() =~= Set::<Seq<char>>::empty());
            Err(failure(s, f.kind, f.at, tags))
        },
        Ok((Entry::Skip, next)) => Ok(next),
        Ok((Entry::Push(tag), next)) => {
            state.push_tag(tag);
            Ok(next)
        },
        Ok((Entry::Pop(tag), next)) => match state.pop_tag(tag.as_str()) {
            Ok(()) => Ok(next),
            Err(kind) => {
                let mut tags: Vec<String> = Vec::new();
                tags.push(tag);
                proof {
                    assert(texts(tags@) =~= Seq::<Seq<char>>::empty().push(tag@));
                    lemma_to_set_push(Seq::<Seq<char>>::empty(), tag@);
                    assert(Seq::<Seq<char>>::empty().to_set() =~= Set::<Seq<char>>::empty());
                }
                Err(failure(s, kind, at, tags))
            },
        },
        Ok((Entry::Include(path), next)) => {
            let ghost includes = file.includes.deep_view();
            file.includes.push(path);
            assert(file.includes.deep_view() =~= includes.push(path@));
            Ok(next)
        },
        Ok((Entry::Item(d), next)) => {
            add_directive(s, at, d, file, lines);
            Ok(next)
        },
    }
}

/// Parses the text of one ledger.
///
/// The result is the file that the grammar gives for the text: the paths of
/// its `include` lines, its options and its directives in source order, each
/// directive with its line number under `lineno` and each transaction with
/// the tags that are pushed where it stands. The first failure ends the
/// parse; a tag that is still pushed at the end of the text is a failure that
/// names every such tag.
pub fn parse(content: &str) -> (out: Result<File, ParseError>)
    ensures
        parsed(out) == spec_parse(content@),
        out matches Ok(file) ==> file.deep_view().is_valid(),
{
    broadcast use vstd::seq_lib::to_multiset_len;

    let chars = chars_of(content);
    let s = chars.as_slice();
    let mut state = ParseState::new();
    let mut file = File { includes: Vec::new(), options: Vec::new(), directives: Vec::new() };
    let mut lines = LineCounter { counted: 0, breaks: 0 };
    let mut at: usize = 0;
    proof {
        assert(file.includes.deep_view() =~= Seq::<Seq<char>>::empty());
        assert(file.options.deep_view() =~= Seq::<(Seq<char>, Seq<char>)>::empty());
        assert(file.directives.deep_view() =~= Seq::<DirectiveView>::empty());
    }
    while at < s.len()
        invariant
            at <= s.len(),
            s@ == content@,
            lines.is_valid(s@),
            lines.counted <= at,
            file.deep_view().is_valid(),
            spec_parse_from(s@, at as int, state@, file.deep_view()) == spec_parse(s@),
        decreases s.len() - at,
    {
        match step(s, at, &mut state, &mut file, &mut lines) {
            Err(e) => {
                return Err(e);
            },
            Ok(next) => {
                at = next;
            },
        }
    }
    if state.is_balanced() {
        Ok(file)
    } else {
        let pushed = state.get_pushed_tags();
        Err(failure(s, ErrorKind::UnbalancedTags, s.len(), pushed.into_vec()))
    }
}

} // verus!
