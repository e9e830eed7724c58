//! The tags that `pushtag` has pushed and `poptag` has not yet popped.

use vstd::prelude::*;
use vstd::multiset::Multiset;
use crate::collections::{lemma_to_set_push, same_str, texts, StrSet};
use crate::error::ErrorKind;

verus! {

/// The state of a parse: every tag as often as it is pushed and not popped.
#[derive(Debug)]
pub struct ParseState {
    pub pushed: Vec<String>,
}

impl View for ParseState {
    type V = Multiset<Seq<char>>;

    /// Each tag with its push count.
    open spec fn view(&self) -> Multiset<Seq<char>> {
        texts(self.pushed@).to_multiset()
    }
}

impl ParseState {
    /// The state in which no tag is pushed.
    pub fn new() -> (out: ParseState)
        ensures
            out@ == Multiset::<Seq<char>>::empty(),
    {
        broadcast use vstd::seq_lib::to_multiset_len;

        let out = ParseState { pushed: Vec::new() };
        assert(out@.len() == 0);
        assert(out@ =~= Multiset::<Seq<char>>::empty()) by {
            broadcast use vstd::multiset::group_multiset_axioms;

        }
        out
    }

    /// The push count of `tag`.
    pub open spec fn count(&self, tag: Seq<char>) -> nat {
        self@.count(tag)
    }

    /// Pushes `tag`: its count grows by one, every other count stays.
    pub fn push_tag(&mut self, tag: String)
        ensures
            final(self)@ == old(self)@.insert(tag@),
            final(self).count(tag@) == old(self).count(tag@) + 1,
            forall|other: Seq<char>| other != tag@ ==> final(self).count(other) == old(self).count(other),
    {
        broadcast use vstd::seq_lib::to_multiset_build, vstd::multiset::group_multiset_axioms;

        let ghost before = texts(self.pushed@);
        self.pushed.push(tag);
        assert(texts(self.pushed@) =~= before.push(tag@));
    }

    /// Pops `tag`: its count shrinks by one where it is pushed; where it is
    /// not, the state stays and the absent-tag failure is returned.
    pub fn pop_tag(&mut self, tag: &str) -> (out: Result<(), ErrorKind>)
        ensures
            old(self).count(tag@) > 0 ==> out is Ok && final(self)@ == old(self)@.remove(tag@)
                && final(self).count(tag@) == old(self).count(tag@) - 1,
            old(self).count(tag@) == 0 ==> out == Err::<(), ErrorKind>(ErrorKind::AbsentTag) && final(self)@ == old(self)@,
            forall|other: Seq<char>| other != tag@ ==> final(self).count(other) == old(self).count(other),
    {
        broadcast use vstd::seq_lib::to_multiset_remove, vstd::seq_lib::to_multiset_contains, vstd::multiset::group_multiset_axioms;

        let ghost before = texts(self.pushed@);
        let mut i: usize = 0;
        while i < self.pushed.len()
            invariant
                i <= self.pushed.len(),
                before == texts(self.pushed@),
                *self == *old(self),
                forall|j: int| 0 <= j < i ==> before[j] != tag@,
            decreases self.pushed.len() - i,
        {
            if same_str(self.pushed[i].as_str(), tag) {
                assert(before[i as int] == tag@);
                assert(before.contains(tag@));
                self.pushed.remove(i);
                assert(texts(self.pushed@) =~= before.remove(i as int));
                proof {
                    vstd::seq_lib::to_multiset_remove(before, i as int);
                    vstd::seq_lib::to_multiset_contains(before, tag@);
                }
                return Ok(());
            }
            i += 1;
        }
        assert(!before.contains(tag@));
        Err(ErrorKind::AbsentTag)
    }

    /// Whether no tag is pushed.
    pub fn is_balanced(&self) -> (out: bool)
        ensures
            out == (self@.len() == 0),
            out == (self@ == Multiset::<Seq<char>>::empty()),
    {
        broadcast use vstd::seq_lib::to_multiset_len, vstd::multiset::group_multiset_axioms;

        assert(self@.len() == 0 ==> self@ =~= Multiset::<Seq<char>>::empty());
        self.pushed.len() == 0
    }

    /// The tags that are pushed: those with a count above zero.
    pub fn get_pushed_tags(&self) -> (out: StrSet)
        ensures
            out@ == self@.dom(),
    {
        broadcast use vstd::seq_lib::to_multiset_contains, vstd::multiset::group_multiset_axioms;

        let mut out = StrSet::new();
        let mut i: usize = 0;
        while i < self.pushed.len()
            invariant
                i <= self.pushed.len(),
                out@ == texts(self.pushed@).take(i as int).to_set(),
            decreases self.pushed.len() - i,
        {
            let ghost seen = texts(self.pushed@).take(i as int);
            let ghost next = texts(self.pushed@).take(i + 1);
            out.insert(self.pushed[i].clone());
            proof {
                assert(next =~= seen.push(texts(self.pushed@)[i as int]));
                lemma_to_set_push(seen, texts(self.pushed@)[i as int]);
            }
            i += 1;
        }
        proof {
            assert(texts(self.pushed@).take(i as int) =~= texts(self.pushed@));
            assert(out@ =~= self@.dom());
        }
        out
    }
}

/// A pop undoes a push of the same tag: all counts are as before. After a
/// push the tag is pushed, and a tag with no push left cannot be popped.
pub proof fn lemma_pop_undoes_push(pushed: Multiset<Seq<char>>, tag: Seq<char>)
    ensures
        pushed.insert(tag).remove(tag) == pushed,
        pushed.insert(tag).count(tag) == pushed.count(tag) + 1,
        pushed.insert(tag).insert(tag).remove(tag).count(tag) == pushed.count(tag) + 1,
        pushed.insert(tag).dom().contains(tag),
{
    broadcast use vstd::multiset::group_multiset_axioms;

    assert(pushed.insert(tag).remove(tag) =~= pushed);
}

} // verus!
