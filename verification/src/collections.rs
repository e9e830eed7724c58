//! The small collections of a directive: a set of strings (tags, links) and
//! a map from string to string (metadata).

use vstd::prelude::*;

verus! {

/// The views of a sequence of strings.
pub open spec fn texts(s: Seq<String>) -> Seq<Seq<char>> {
    s.map_values(|t: String| t@)
}

/// The set of a sequence with one more item is the set of the sequence with
/// that item added.
pub proof fn lemma_to_set_push(s: Seq<Seq<char>>, item: Seq<char>)
    ensures
        s.push(item).to_set() == s.to_set().insert(item),
{
    assert forall|x: Seq<char>| #[trigger] s.push(item).to_set().contains(x) == s.to_set().insert(item).contains(x) by {
        if s.contains(x) {
            let j = choose|j: int| 0 <= j < s.len() && s[j] == x;
            assert(s.push(item)[j] == x);
        }
        if x == item {
            assert(s.push(item)[s.len() as int] == x);
        }
        if s.push(item).contains(x) {
            let j = choose|j: int| 0 <= j < s.push(item).len() && s.push(item)[j] == x;
            if j < s.len() {
                assert(s[j] == x);
            }
        }
    }
    assert(s.push(item).to_set() =~= s.to_set().insert(item));
}

/// A set of strings, modelled as the set of their character sequences. It
/// holds no string twice.
#[derive(Debug)]
pub struct StrSet {
    pub(crate) items: Vec<String>,
}

impl View for StrSet {
    type V = Set<Seq<char>>;

    closed spec fn view(&self) -> Set<Seq<char>> {
        texts(self.items@).to_set()
    }
}

impl Clone for StrSet {
    fn clone(&self) -> (out: Self)
        ensures
            out@ == self@,
    {
        proof {
            use_type_invariant(self);
        }
        let mut items: Vec<String> = Vec::new();
        let mut i: usize = 0;
        while i < self.items.len()
            invariant
                i <= self.items.len(),
                items@.len() == i,
                forall|j: int| 0 <= j < i ==> items@[j]@ == self.items@[j]@,
            decreases self.items.len() - i,
        {
            items.push(self.items[i].clone());
            i += 1;
        }
        assert(texts(items@) =~= texts(self.items@));
        StrSet { items }
    }
}

impl StrSet {
    #[verifier::type_invariant]
    spec fn no_string_twice(&self) -> bool {
        texts(self.items@).no_duplicates()
    }

    /// The empty set.
    pub fn new() -> (out: StrSet)
        ensures
            out@ == Set::<Seq<char>>::empty(),
    {
        let out = StrSet { items: Vec::new() };
        assert(out@ =~= Set::<Seq<char>>::empty());
        out
    }

    /// Whether `item` is in the set.
    pub fn contains(&self, item: &str) -> (out: bool)
        ensures
            out == self@.contains(item@),
    {
        let mut i: usize = 0;
        while i < self.items.len()
            invariant
                i <= self.items.len(),
                forall|j: int| 0 <= j < i ==> texts(self.items@)[j] != item@,
            decreases self.items.len() - i,
        {
            if same_str(self.items[i].as_str(), item) {
                assert(texts(self.items@)[i as int] == item@);
                return true;
            }
            i += 1;
        }
        false
    }

    /// Adds `item` to the set.
    pub fn insert(&mut self, item: String)
        ensures
            final(self)@ == old(self)@.insert(item@),
    {
        proof {
            use_type_invariant(&*self);
        }
        if !self.contains(item.as_str()) {
            let ghost before = texts(self.items@);
            let mut items: Vec<String> = Vec::new();
            core::mem::swap(&mut self.items, &mut items);
            items.push(item);
            proof {
                assert(texts(items@) =~= before.push(item@));
                assert(!before.contains(item@));
                lemma_to_set_push(before, item@);
                assert(before.push(item@).no_duplicates());
            }
            core::mem::swap(&mut self.items, &mut items);
        } else {
            assert(self@ =~= old(self)@.insert(item@));
        }
    }

    /// Adds every string of `other` to the set.
    pub fn insert_all(&mut self, other: &StrSet)
        ensures
            final(self)@ == old(self)@.union(other@),
    {
        let mut i: usize = 0;
        while i < other.items.len()
            invariant
                i <= other.items.len(),
                self@ == old(self)@.union(texts(other.items@).take(i as int).to_set()),
            decreases other.items.len() - i,
        {
            let ghost seen = texts(other.items@).take(i as int);
            self.insert(other.items[i].clone());
            proof {
                assert(texts(other.items@).take(i + 1) =~= seen.push(texts(other.items@)[i as int]));
                lemma_to_set_push(seen, texts(other.items@)[i as int]);
                assert(self@ =~= old(self)@.union(texts(other.items@).take(i + 1).to_set()));
            }
            i += 1;
        }
        assert(texts(other.items@).take(i as int) =~= texts(other.items@));
    }

    /// The number of strings in the set.
    pub fn len(&self) -> (out: usize)
        ensures
            self@.finite(),
            out == self@.len(),
    {
        proof {
            use_type_invariant(self);
            texts(self.items@).unique_seq_to_set();
            vstd::seq_lib::seq_to_set_is_finite(texts(self.items@));
        }
        self.items.len()
    }

    /// The strings of the set, each once.
    pub fn into_vec(self) -> (out: Vec<String>)
        ensures
            texts(out@).to_set() == self@,
            texts(out@).no_duplicates(),
    {
        proof {
            use_type_invariant(&self);
        }
        self.items
    }
}

/// Whether two strings hold the same characters.
pub fn same_str(a: &str, b: &str) -> (out: bool)
    ensures
        out == (a@ == b@),
{
    let x = crate::text::chars_of(a);
    let n = x.len();
    assert(x@.subrange(0, n as int) =~= x@);
    crate::text::same_text(x.as_slice(), 0, n, b)
}

/// The map that a sequence of key-value pairs builds when they are inserted
/// in order: for a key that comes twice, the later value stands.
pub open spec fn entries_map(s: Seq<(String, String)>) -> Map<Seq<char>, Seq<char>>
    decreases s.len(),
{
    if s.len() == 0 {
        Map::empty()
    } else {
        entries_map(s.drop_last()).insert(s.last().0@, s.last().1@)
    }
}

/// In the map of `s`, `key` has the value of its last entry, and no value
/// where it has no entry.
pub proof fn lemma_entries_map(s: Seq<(String, String)>, key: Seq<char>, i: int)
    requires
        0 <= i <= s.len(),
        forall|j: int| i <= j < s.len() ==> s[j].0@ != key,
        i > 0 ==> s[i - 1].0@ == key,
    ensures
        i == 0 ==> !entries_map(s).contains_key(key),
        i > 0 ==> entries_map(s).contains_key(key) && entries_map(s)[key] == s[i - 1].1@,
    decreases s.len(),
{
    if s.len() > 0 && i < s.len() {
        lemma_entries_map(s.drop_last(), key, i);
    }
}

/// The metadata of a directive: a map from key to value.
#[derive(Debug, Clone)]
pub struct Metadata {
    pub entries: Vec<(String, String)>,
}

impl View for Metadata {
    type V = Map<Seq<char>, Seq<char>>;

    open spec fn view(&self) -> Map<Seq<char>, Seq<char>> {
        entries_map(self.entries@)
    }
}

impl Metadata {
    /// The empty map.
    pub fn new() -> (out: Metadata)
        ensures
            out@ == Map::<Seq<char>, Seq<char>>::empty(),
    {
        Metadata { entries: Vec::new() }
    }

    /// Gives `key` the value `value`, in place of the value that it had.
    pub fn insert(&mut self, key: String, value: String)
        ensures
            final(self)@ == old(self)@.insert(key@, value@),
    {
        let ghost before = self.entries@;
        self.entries.push((key, value));
        assert(self.entries@.drop_last() =~= before);
    }

    /// The value of `key`, where it has one.
    pub fn get(&self, key: &str) -> (out: Option<&String>)
        ensures
            match out {
                Some(v) => self@.contains_key(key@) && self@[key@] == v@,
                None => !self@.contains_key(key@),
            },
    {
        let mut i: usize = self.entries.len();
        while i > 0
            invariant
                i <= self.entries.len(),
                forall|j: int| i <= j < self.entries.len() ==> self.entries@[j].0@ != key@,
            decreases i,
        {
            if same_str(self.entries[i - 1].0.as_str(), key) {
                proof {
                    lemma_entries_map(self.entries@, key@, i as int);
                }
                return Some(&self.entries[i - 1].1);
            }
            i -= 1;
        }
        proof {
            lemma_entries_map(self.entries@, key@, 0);
        }
        None
    }
}

} // verus!
