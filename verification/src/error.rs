//! The ways in which a parse fails. Every failure ends the whole parse.

use vstd::prelude::*;
use vstd::string::*;
use crate::collections::texts;

verus! {

/// The kind of a failure.
#[derive(Clone, Copy, Debug, PartialEq, Eq, Structural)]
pub enum ErrorKind {
    /// The text does not match the grammar.
    Syntax,
    /// Year, month and day of a date literal form no calendar date.
    InvalidDate,
    /// A numeric expression has no value.
    InvalidDecimal,
    /// The booking string of an `open` directive is none of the seven names.
    InvalidBooking,
    /// A tag is still pushed where the input ends.
    UnbalancedTags,
    /// A `poptag` names a tag that is not pushed.
    AbsentTag,
    /// A cost in total form also gives a per-unit number.
    CostSpecConflict,
    /// A directive lacks a component that it must have.
    MissingField,
}

/// A failure inside the grammar: its kind and the offset, in characters,
/// of the text that it is about.
#[derive(Clone, Copy, Debug, PartialEq, Eq, Structural)]
pub struct Fault {
    pub kind: ErrorKind,
    pub at: usize,
}

/// The failure of kind `kind` at offset `at`.
pub open spec fn fault(kind: ErrorKind, at: int) -> Fault {
    Fault { kind, at: at as usize }
}

/// A failed parse: the kind, the 1-based line and column of the offending
/// text, and the tags that the failure names (the tag of a `poptag` that is
/// not pushed, every tag left pushed at the end of the input; none
/// otherwise).
#[derive(Debug, Clone)]
pub struct ParseError {
    pub kind: ErrorKind,
    pub line: usize,
    pub column: usize,
    pub tags: Vec<String>,
}

/// What a failure of a kind says.
pub open spec fn kind_text(kind: ErrorKind) -> Seq<char> {
    match kind {
        ErrorKind::Syntax => "Syntax error"@,
        ErrorKind::InvalidDate => "Invalid date"@,
        ErrorKind::InvalidDecimal => "Invalid decimal"@,
        ErrorKind::InvalidBooking => "Invalid booking method"@,
        ErrorKind::UnbalancedTags => "Unbalanced pushed tag(s): "@,
        ErrorKind::AbsentTag => "Attempting to pop absent tag: "@,
        ErrorKind::CostSpecConflict => "Per-unit cost may not be specified using total cost"@,
        ErrorKind::MissingField => "Missing required field"@,
    }
}

/// The tags, each between single quotes, with `, ` between them.
pub open spec fn quoted_list(tags: Seq<Seq<char>>) -> Seq<char>
    decreases tags.len(),
{
    if tags.len() == 0 {
        Seq::empty()
    } else if tags.len() == 1 {
        "'"@ + tags[0] + "'"@
    } else {
        quoted_list(tags.drop_last()) + ", "@ + "'"@ + tags.last() + "'"@
    }
}

/// The message of a failure: what its kind says, and the tags that it names.
pub open spec fn spec_message(kind: ErrorKind, tags: Seq<Seq<char>>) -> Seq<char> {
    kind_text(kind) + quoted_list(tags)
}

fn kind_str(kind: ErrorKind) -> (out: &'static str)
    ensures
        out@ == kind_text(kind),
{
    match kind {
        ErrorKind::Syntax => "Syntax error",
        ErrorKind::InvalidDate => "Invalid date",
        ErrorKind::InvalidDecimal => "Invalid decimal",
        ErrorKind::InvalidBooking => "Invalid booking method",
        ErrorKind::UnbalancedTags => "Unbalanced pushed tag(s): ",
        ErrorKind::AbsentTag => "Attempting to pop absent tag: ",
        ErrorKind::CostSpecConflict => "Per-unit cost may not be specified using total cost",
        ErrorKind::MissingField => "Missing required field",
    }
}

impl ParseError {
    /// The message of the failure.
    pub fn message(&self) -> (out: String)
        ensures
            out@ == spec_message(self.kind, texts(self.tags@)),
    {
        let mut out = String::from_str(kind_str(self.kind));
        let ghost head = out@;
        let ghost names = texts(self.tags@);
        let mut i: usize = 0;
        assert(names.take(0) =~= Seq::<Seq<char>>::empty());
        assert(head + Seq::<char>::empty() =~= head);
        while i < self.tags.len()
            invariant
                i <= self.tags.len(),
                names == texts(self.tags@),
                out@ == head + quoted_list(names.take(i as int)),
            decreases self.tags.len() - i,
        {
            let ghost before = quoted_list(names.take(i as int));
            if i > 0 {
                out.append(", ");
            }
            out.append("'");
            out.append(self.tags[i].as_str());
            out.append("'");
            proof {
                assert(names.take(i + 1).drop_last() =~= names.take(i as int));
                assert(names.take(i + 1).last() == names[i as int]);
                if i == 0 {
                    assert(before =~= Seq::<char>::empty());
                    assert(out@ =~= head + ("'"@ + names[0] + "'"@));
                } else {
                    assert(out@ =~= head + (before + ", "@ + "'"@ + names[i as int] + "'"@));
                }
            }
            i += 1;
        }
        assert(names.take(i as int) =~= names);
        out
    }
}

} // verus!
