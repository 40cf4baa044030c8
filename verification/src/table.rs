//! An association table from string keys to byte values, viewed as a `Map`.
//!
//! Both the content store and the asset bundle are key-value stores of file
//! names to file bytes; this table carries their shared representation and
//! the proofs that connect it to its `Map` view.

use vstd::prelude::*;

verus! {

struct Entry {
    key: String,
    value: Vec<u8>,
}

/// The `Map` described by a sequence of entries, later entries winning.
spec fn entries_map(s: Seq<Entry>) -> Map<Seq<char>, Seq<u8>>
    decreases s.len(),
{
    if s.len() == 0 {
        Map::empty()
    } else {
        entries_map(s.drop_last()).insert(s.last().key@, s.last().value@)
    }
}

/// No two entries share a key.
spec fn unique_keys(s: Seq<Entry>) -> bool {
    forall|i: int, j: int| 0 <= i < j < s.len() ==> s[i].key@ != s[j].key@
}

/// A key is in the map exactly when some entry carries it.
proof fn lemma_contains(s: Seq<Entry>, k: Seq<char>)
    ensures
        entries_map(s).contains_key(k) <==> exists|i: int|
            0 <= i < s.len() && #[trigger] s[i].key@ == k,
    decreases s.len(),
{
    if s.len() == 0 {
    } else {
        lemma_contains(s.drop_last(), k);
        if k == s.last().key@ {
            assert(s[s.len() - 1].key@ == k);
        } else {
            if exists|i: int| 0 <= i < s.drop_last().len() && #[trigger] s.drop_last()[i].key@ == k {
                let i = choose|i: int|
                    0 <= i < s.drop_last().len() && #[trigger] s.drop_last()[i].key@ == k;
                assert(s[i].key@ == k);
            }
            if exists|i: int| 0 <= i < s.len() && #[trigger] s[i].key@ == k {
                let i = choose|i: int| 0 <= i < s.len() && #[trigger] s[i].key@ == k;
                assert(i < s.len() - 1);
                assert(s.drop_last()[i].key@ == k);
            }
        }
    }
}

/// Under unique keys, the map sends each entry's key to that entry's value.
proof fn lemma_index(s: Seq<Entry>, i: int)
    requires
        unique_keys(s),
        0 <= i < s.len(),
    ensures
        entries_map(s).contains_key(s[i].key@),
        entries_map(s)[s[i].key@] == s[i].value@,
    decreases s.len(),
{
    if i == s.len() - 1 {
    } else {
        assert(s[i].key@ != s.last().key@);
        assert(s.drop_last()[i] == s[i]);
        lemma_index(s.drop_last(), i);
    }
}

/// Under unique keys, the map is finite and has one key per entry.
proof fn lemma_len(s: Seq<Entry>)
    requires
        unique_keys(s),
    ensures
        entries_map(s).dom().finite(),
        entries_map(s).len() == s.len(),
    decreases s.len(),
{
    if s.len() == 0 {
    } else {
        lemma_len(s.drop_last());
        lemma_contains(s.drop_last(), s.last().key@);
        assert forall|i: int| 0 <= i < s.drop_last().len() implies s.drop_last()[i].key@
            != s.last().key@ by {
            assert(s[i].key@ != s[s.len() - 1].key@);
        }
        assert(!entries_map(s.drop_last()).contains_key(s.last().key@));
    }
}

/// Copies a byte vector.
pub fn copy_bytes(v: &Vec<u8>) -> (r: Vec<u8>)
    ensures
        r@ == v@,
{
    let mut r: Vec<u8> = Vec::new();
    let mut i: usize = 0;
    while i < v.len()
        invariant
            0 <= i <= v@.len(),
            r@ == v@.subrange(0, i as int),
        decreases v@.len() - i,
    {
        r.push(v[i]);
        assert(r@ =~= v@.subrange(0, i + 1 as int));
        i = i + 1;
    }
    assert(r@ =~= v@);
    r
}

/// An association table from string keys to byte values.
pub struct KvTable {
    entries: Vec<Entry>,
}

impl View for KvTable {
    type V = Map<Seq<char>, Seq<u8>>;

    closed spec fn view(&self) -> Map<Seq<char>, Seq<u8>> {
        entries_map(self.entries@)
    }
}

impl KvTable {
    /// No two entries of the table share a key.
    pub closed spec fn wf(&self) -> bool {
        unique_keys(self.entries@)
    }

    /// The empty table.
    pub fn new() -> (r: KvTable)
        ensures
            r.wf(),
            r@ == Map::<Seq<char>, Seq<u8>>::empty(),
    {
        KvTable { entries: Vec::new() }
    }

    /// The index of the entry holding `key`, if any.
    fn find(&self, key: &String) -> (r: Option<usize>)
        ensures
            r matches Some(i) ==> i < self.entries@.len() && self.entries@[i as int].key@ == key@,
            r is None ==> forall|i: int|
                0 <= i < self.entries@.len() ==> #[trigger] self.entries@[i].key@ != key@,
    {
        let mut i: usize = 0;
        while i < self.entries.len()
            invariant
                0 <= i <= self.entries@.len(),
                forall|j: int| 0 <= j < i ==> #[trigger] self.entries@[j].key@ != key@,
            decreases self.entries@.len() - i,
        {
            if self.entries[i].key == *key {
                return Some(i);
            }
            i = i + 1;
        }
        None
    }

    /// Whether the table holds `key`.
    pub fn contains(&self, key: &String) -> (r: bool)
        ensures
            r == self@.contains_key(key@),
    {
        proof {
            lemma_contains(self.entries@, key@);
        }
        match self.find(key) {
            Some(_) => true,
            None => false,
        }
    }

    /// A copy of the value held under `key`, if any.
    pub fn get_copy(&self, key: &String) -> (r: Option<Vec<u8>>)
        requires
            self.wf(),
        ensures
            r is Some <==> self@.contains_key(key@),
            r matches Some(v) ==> v@ == self@[key@],
    {
        proof {
            lemma_contains(self.entries@, key@);
        }
        match self.find(key) {
            Some(i) => {
                proof {
                    lemma_index(self.entries@, i as int);
                }
                Some(copy_bytes(&self.entries[i].value))
            },
            None => None,
        }
    }

    /// Adds `key` to the table; refused if the key is already present.
    pub fn insert_new(&mut self, key: String, value: Vec<u8>) -> (r: bool)
        requires
            old(self).wf(),
        ensures
            final(self).wf(),
            r == !old(self)@.contains_key(key@),
            r ==> final(self)@ == old(self)@.insert(key@, value@),
            !r ==> final(self)@ == old(self)@,
    {
        proof {
            lemma_contains(self.entries@, key@);
        }
        match self.find(&key) {
            Some(_) => false,
            None => {
                let ghost prev = self.entries@;
                let ghost k = key@;
                let ghost v = value@;
                self.entries.push(Entry { key, value });
                proof {
                    assert(self.entries@.drop_last() =~= prev);
                    assert(self.entries@.last().key@ == k);
                    assert(final(self)@ == old(self)@.insert(k, v));
                    assert forall|i: int, j: int|
                        0 <= i < j < self.entries@.len() implies self.entries@[i].key@
                        != self.entries@[j].key@ by {
                        if j < self.entries@.len() - 1 {
                            assert(prev[i].key@ != prev[j].key@);
                        } else {
                            assert(prev[i].key@ != k);
                        }
                    }
                }
                true
            },
        }
    }

    /// The number of keys the table holds.
    pub fn count(&self) -> (r: usize)
        requires
            self.wf(),
        ensures
            r as nat == self@.len(),
    {
        proof {
            lemma_len(self.entries@);
        }
        self.entries.len()
    }
}

} // verus!
