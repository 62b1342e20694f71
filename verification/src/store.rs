//! The ordered key/value store that a batch works on: byte-string keys in
//! lexicographic order, byte-string values.

use crate::bytes::{
    copy_bytes, lemma_lex_lt_asymmetric, lemma_lex_lt_irreflexive, lemma_lex_lt_transitive, lex_le,
    lex_lt, rank, Rank,
};
use vstd::prelude::*;

verus! {

/// The bytes that an optional byte vector holds.
pub open spec fn bytes_view(value: Option<Vec<u8>>) -> Option<Seq<u8>> {
    match value {
        Some(v) => Some(v@),
        None => None,
    }
}

/// The bytes that an optional key/value pair holds.
pub open spec fn pair_view(entry: Option<(Vec<u8>, Vec<u8>)>) -> Option<(Seq<u8>, Seq<u8>)> {
    match entry {
        Some((k, v)) => Some((k@, v@)),
        None => None,
    }
}

/// `key` is the least key of `map` that is not below `from`.
pub open spec fn is_first_at_or_after(
    map: Map<Seq<u8>, Seq<u8>>,
    from: Seq<u8>,
    key: Seq<u8>,
) -> bool {
    &&& map.contains_key(key)
    &&& lex_le(from, key)
    &&& forall|other: Seq<u8>| #[trigger]
        map.contains_key(other) && lex_le(from, other) ==> lex_le(key, other)
}

/// No key of `map` is at or above `from`.
pub open spec fn none_at_or_after(map: Map<Seq<u8>, Seq<u8>>, from: Seq<u8>) -> bool {
    forall|other: Seq<u8>| #[trigger] map.contains_key(other) ==> lex_lt(other, from)
}

struct Entry {
    key: Vec<u8>,
    value: Vec<u8>,
}

spec fn sorted(s: Seq<Entry>) -> bool {
    forall|i: int, j: int| 0 <= i < j < s.len() ==> lex_lt(#[trigger] s[i].key@, #[trigger] s[j].key@)
}

spec fn has_key(s: Seq<Entry>, k: Seq<u8>) -> bool {
    exists|i: int| 0 <= i < s.len() && #[trigger] s[i].key@ == k
}

spec fn index_of(s: Seq<Entry>, k: Seq<u8>) -> int {
    choose|i: int| 0 <= i < s.len() && #[trigger] s[i].key@ == k
}

spec fn entries_map(s: Seq<Entry>) -> Map<Seq<u8>, Seq<u8>> {
    Map::new(|k: Seq<u8>| has_key(s, k), |k: Seq<u8>| s[index_of(s, k)].value@)
}

proof fn lemma_entry_in_map(s: Seq<Entry>, i: int)
    requires
        sorted(s),
        0 <= i < s.len(),
    ensures
        entries_map(s).contains_key(s[i].key@),
        entries_map(s)[s[i].key@] == s[i].value@,
        index_of(s, s[i].key@) == i,
{
    let k = s[i].key@;
    assert(has_key(s, k));
    let j = index_of(s, k);
    lemma_lex_lt_irreflexive(k);
    if j < i {
        assert(lex_lt(s[j].key@, s[i].key@));
    } else if i < j {
        assert(lex_lt(s[i].key@, s[j].key@));
    }
}

proof fn lemma_absent(s: Seq<Entry>, p: int, k: Seq<u8>)
    requires
        sorted(s),
        0 <= p <= s.len(),
        forall|j: int| 0 <= j < p ==> lex_lt(#[trigger] s[j].key@, k),
        p < s.len() ==> lex_lt(k, s[p].key@),
    ensures
        !has_key(s, k),
        forall|j: int| p <= j < s.len() ==> lex_lt(k, #[trigger] s[j].key@),
{
    assert forall|j: int| p <= j < s.len() implies lex_lt(k, #[trigger] s[j].key@) by {
        if p < j {
            assert(lex_lt(s[p].key@, s[j].key@));
            lemma_lex_lt_transitive(k, s[p].key@, s[j].key@);
        }
    }
    lemma_lex_lt_irreflexive(k);
    assert forall|j: int| 0 <= j < s.len() implies #[trigger] s[j].key@ != k by {
        if j < p {
            assert(lex_lt(s[j].key@, k));
        } else {
            assert(lex_lt(k, s[j].key@));
        }
    }
}

proof fn lemma_insert_entry(s: Seq<Entry>, p: int, e: Entry)
    requires
        sorted(s),
        0 <= p <= s.len(),
        forall|j: int| 0 <= j < p ==> lex_lt(#[trigger] s[j].key@, e.key@),
        p < s.len() ==> lex_lt(e.key@, s[p].key@),
    ensures
        sorted(s.insert(p, e)),
        entries_map(s.insert(p, e)) == entries_map(s).insert(e.key@, e.value@),
{
    let t = s.insert(p, e);
    lemma_absent(s, p, e.key@);
    assert forall|i: int, j: int| 0 <= i < j < t.len() implies lex_lt(
        #[trigger] t[i].key@,
        #[trigger] t[j].key@,
    ) by {
        if j < p {
            assert(t[i] == s[i] && t[j] == s[j]);
        } else if j == p {
            assert(t[i] == s[i]);
        } else if i < p {
            assert(t[i] == s[i] && t[j] == s[j - 1]);
            if i < j - 1 {
            } else {
            }
            lemma_lex_lt_transitive(s[i].key@, e.key@, s[j - 1].key@);
        } else if i == p {
            assert(t[j] == s[j - 1]);
        } else {
            assert(t[i] == s[i - 1] && t[j] == s[j - 1]);
        }
    }
    let m1 = entries_map(t);
    let m2 = entries_map(s).insert(e.key@, e.value@);
    assert forall|k: Seq<u8>| m1.contains_key(k) <==> m2.contains_key(k) by {
        if has_key(t, k) {
            let i = index_of(t, k);
            if i < p {
                assert(s[i].key@ == k);
            } else if i > p {
                assert(s[i - 1].key@ == k);
            }
        }
        if has_key(s, k) {
            let i = index_of(s, k);
            if i < p {
                assert(t[i].key@ == k);
            } else {
                assert(t[i + 1].key@ == k);
            }
        }
        if k == e.key@ {
            assert(t[p].key@ == k);
        }
    }
    assert forall|k: Seq<u8>| m1.contains_key(k) implies m1[k] == m2[k] by {
        if k == e.key@ {
            lemma_entry_in_map(t, p);
        } else {
            let i = index_of(s, k);
            lemma_entry_in_map(s, i);
            if i < p {
                lemma_entry_in_map(t, i);
            } else {
                lemma_entry_in_map(t, i + 1);
            }
        }
    }
    assert(m1 =~= m2);
}

proof fn lemma_update_entry(s: Seq<Entry>, p: int, e: Entry)
    requires
        sorted(s),
        0 <= p < s.len(),
        s[p].key@ == e.key@,
    ensures
        sorted(s.update(p, e)),
        entries_map(s.update(p, e)) == entries_map(s).insert(e.key@, e.value@),
{
    let t = s.update(p, e);
    assert forall|i: int, j: int| 0 <= i < j < t.len() implies lex_lt(
        #[trigger] t[i].key@,
        #[trigger] t[j].key@,
    ) by {
        assert(t[i].key@ == s[i].key@ && t[j].key@ == s[j].key@);
    }
    let m1 = entries_map(t);
    let m2 = entries_map(s).insert(e.key@, e.value@);
    assert forall|k: Seq<u8>| m1.contains_key(k) <==> m2.contains_key(k) by {
        if has_key(t, k) {
            let i = index_of(t, k);
            assert(s[i].key@ == k);
        }
        if has_key(s, k) {
            let i = index_of(s, k);
            assert(t[i].key@ == k);
        }
        if k == e.key@ {
            assert(t[p].key@ == k);
        }
    }
    assert forall|k: Seq<u8>| m1.contains_key(k) implies m1[k] == m2[k] by {
        let i = index_of(t, k);
        lemma_entry_in_map(t, i);
        lemma_entry_in_map(s, i);
    }
    assert(m1 =~= m2);
}

proof fn lemma_remove_entry(s: Seq<Entry>, p: int)
    requires
        sorted(s),
        0 <= p < s.len(),
    ensures
        sorted(s.remove(p)),
        entries_map(s.remove(p)) == entries_map(s).remove(s[p].key@),
{
    let t = s.remove(p);
    assert forall|i: int, j: int| 0 <= i < j < t.len() implies lex_lt(
        #[trigger] t[i].key@,
        #[trigger] t[j].key@,
    ) by {
        let i0 = if i < p { i } else { i + 1 };
        let j0 = if j < p { j } else { j + 1 };
        assert(t[i] == s[i0] && t[j] == s[j0]);
    }
    let m1 = entries_map(t);
    let m2 = entries_map(s).remove(s[p].key@);
    assert forall|k: Seq<u8>| m1.contains_key(k) <==> m2.contains_key(k) by {
        if has_key(t, k) {
            let i = index_of(t, k);
            let i0 = if i < p { i } else { i + 1 };
            assert(s[i0].key@ == k);
            lemma_entry_in_map(s, i0);
            lemma_entry_in_map(s, p);
        }
        if has_key(s, k) && k != s[p].key@ {
            let i = index_of(s, k);
            if i < p {
                assert(t[i].key@ == k);
            } else {
                assert(t[i - 1].key@ == k);
            }
        }
    }
    assert forall|k: Seq<u8>| m1.contains_key(k) implies m1[k] == m2[k] by {
        let i = index_of(t, k);
        let i0 = if i < p { i } else { i + 1 };
        lemma_entry_in_map(t, i);
        assert(t[i] == s[i0]);
        lemma_entry_in_map(s, i0);
    }
    assert(m1 =~= m2);
}

proof fn lemma_entries_count(s: Seq<Entry>)
    requires
        sorted(s),
    ensures
        entries_map(s).dom().finite(),
        entries_map(s).dom().len() == s.len(),
    decreases s.len(),
{
    if s.len() == 0 {
        assert(entries_map(s).dom() =~= Set::<Seq<u8>>::empty());
    } else {
        let head = s.drop_last();
        let last = s.last();
        assert forall|i: int, j: int| 0 <= i < j < head.len() implies lex_lt(
            #[trigger] head[i].key@,
            #[trigger] head[j].key@,
        ) by {
            assert(head[i] == s[i] && head[j] == s[j]);
        }
        lemma_entries_count(head);
        assert forall|j: int| 0 <= j < head.len() implies lex_lt(
            #[trigger] head[j].key@,
            last.key@,
        ) by {
            assert(head[j] == s[j]);
            assert(lex_lt(s[j].key@, s[s.len() - 1].key@));
        }
        lemma_absent(head, head.len() as int, last.key@);
        lemma_insert_entry(head, head.len() as int, last);
        assert(head.insert(head.len() as int, last) =~= s);
        assert(entries_map(s).dom() =~= entries_map(head).dom().insert(last.key@));
        assert(!entries_map(head).dom().contains(last.key@));
    }
}

/// An ordered key/value store held in memory.
pub struct Store {
    entries: Vec<Entry>,
}

impl View for Store {
    type V = Map<Seq<u8>, Seq<u8>>;

    closed spec fn view(&self) -> Map<Seq<u8>, Seq<u8>> {
        entries_map(self.entries@)
    }
}

impl Store {
    #[verifier::type_invariant]
    spec fn well_formed(&self) -> bool {
        sorted(self.entries@)
    }

    /// An empty store.
    pub fn new() -> (store: Store)
        ensures
            store@ == Map::<Seq<u8>, Seq<u8>>::empty(),
    {
        let store = Store { entries: Vec::new() };
        proof {
            assert(store@ =~= Map::<Seq<u8>, Seq<u8>>::empty());
        }
        store
    }

    /// The number of entries.
    pub fn len(&self) -> (n: usize)
        ensures
            self@.dom().finite(),
            n == self@.dom().len(),
    {
        proof {
            use_type_invariant(self);
            lemma_entries_count(self.entries@);
        }
        self.entries.len()
    }

    /// The position of the first entry whose key is not below `key`, and
    /// whether that entry has the key itself.
    fn position(&self, key: &[u8]) -> (r: (usize, bool))
        ensures
            r.0 <= self.entries@.len(),
            forall|j: int| 0 <= j < r.0 ==> lex_lt(#[trigger] self.entries@[j].key@, key@),
            r.1 ==> r.0 < self.entries@.len() && self.entries@[r.0 as int].key@ == key@,
            !r.1 && r.0 < self.entries@.len() ==> lex_lt(key@, self.entries@[r.0 as int].key@),
    {
        let mut i: usize = 0;
        while i < self.entries.len()
            invariant
                i <= self.entries@.len(),
                forall|j: int| 0 <= j < i ==> lex_lt(#[trigger] self.entries@[j].key@, key@),
            decreases self.entries@.len() - i,
        {
            match rank(self.entries[i].key.as_slice(), key) {
                Rank::Before => {
                    i += 1;
                },
                Rank::Same => {
                    return (i, true);
                },
                Rank::After => {
                    return (i, false);
                },
            }
        }
        (i, false)
    }

    /// The value stored under `key`, if there is one.
    pub fn get(&self, key: &[u8]) -> (value: Option<Vec<u8>>)
        ensures
            bytes_view(value) == self@.get(key@),
    {
        proof {
            use_type_invariant(self);
        }
        let (p, found) = self.position(key);
        if found {
            proof {
                lemma_entry_in_map(self.entries@, p as int);
            }
            Some(copy_bytes(self.entries[p].value.as_slice()))
        } else {
            proof {
                lemma_absent(self.entries@, p as int, key@);
            }
            None
        }
    }

    /// Stores `value` under `key` and gives back the value that was there
    /// before, if there was one.
    pub fn insert(&mut self, key: &[u8], value: &[u8]) -> (previous: Option<Vec<u8>>)
        ensures
            final(self)@ == old(self)@.insert(key@, value@),
            bytes_view(previous) == old(self)@.get(key@),
    {
        proof {
            use_type_invariant(&*self);
        }
        let (p, found) = self.position(key);
        let entry = Entry { key: copy_bytes(key), value: copy_bytes(value) };
        if found {
            let previous = copy_bytes(self.entries[p].value.as_slice());
            proof {
                lemma_entry_in_map(self.entries@, p as int);
                lemma_update_entry(self.entries@, p as int, entry);
            }
            let mut entries: Vec<Entry> = Vec::new();
            core::mem::swap(&mut self.entries, &mut entries);
            entries.set(p, entry);
            self.entries = entries;
            Some(previous)
        } else {
            proof {
                lemma_absent(self.entries@, p as int, key@);
                lemma_insert_entry(self.entries@, p as int, entry);
            }
            let mut entries: Vec<Entry> = Vec::new();
            core::mem::swap(&mut self.entries, &mut entries);
            entries.insert(p, entry);
            self.entries = entries;
            None
        }
    }

    /// Removes the entry of `key` and gives back its value, if there was one.
    pub fn remove(&mut self, key: &[u8]) -> (previous: Option<Vec<u8>>)
        ensures
            final(self)@ == old(self)@.remove(key@),
            bytes_view(previous) == old(self)@.get(key@),
    {
        proof {
            use_type_invariant(&*self);
        }
        let (p, found) = self.position(key);
        if found {
            proof {
                lemma_entry_in_map(self.entries@, p as int);
                lemma_remove_entry(self.entries@, p as int);
            }
            let mut entries: Vec<Entry> = Vec::new();
            core::mem::swap(&mut self.entries, &mut entries);
            let entry = entries.remove(p);
            self.entries = entries;
            Some(entry.value)
        } else {
            proof {
                lemma_absent(self.entries@, p as int, key@);
                assert(old(self)@.remove(key@) =~= old(self)@);
            }
            None
        }
    }

    /// Seeks to `from` and gives the first entry found there: the entry with
    /// the least key that is not below `from`, if there is one.
    pub fn first_at_or_after(&self, from: &[u8]) -> (entry: Option<(Vec<u8>, Vec<u8>)>)
        ensures
            match pair_view(entry) {
                Some((k, v)) => is_first_at_or_after(self@, from@, k) && self@[k] == v,
                None => none_at_or_after(self@, from@),
            },
    {
        proof {
            use_type_invariant(self);
        }
        let (p, found) = self.position(from);
        if p < self.entries.len() {
            let k = copy_bytes(self.entries[p].key.as_slice());
            let v = copy_bytes(self.entries[p].value.as_slice());
            proof {
                let s = self.entries@;
                lemma_entry_in_map(s, p as int);
                assert forall|other: Seq<u8>| #[trigger]
                    self@.contains_key(other) && lex_le(from@, other) implies lex_le(
                    k@,
                    other,
                ) by {
                    let i = index_of(s, other);
                    if i < p {
                        assert(lex_lt(s[i].key@, from@));
                        lemma_lex_lt_irreflexive(from@);
                        if lex_lt(from@, other) {
                            lemma_lex_lt_asymmetric(from@, other);
                        }
                    } else if i > p {
                        assert(lex_lt(s[p as int].key@, s[i].key@));
                    }
                }
            }
            Some((k, v))
        } else {
            proof {
                let s = self.entries@;
                assert forall|other: Seq<u8>| #[trigger] self@.contains_key(other) implies lex_lt(
                    other,
                    from@,
                ) by {
                    let i = index_of(s, other);
                    assert(lex_lt(s[i].key@, from@));
                }
            }
            None
        }
    }
}

} // verus!
