//! The local market map: which supplier record this node holds for each
//! content key. The responder side of the file-supplier lookup protocol
//! answers inbound requests out of this map.
//!
//! The map is a sequence of entries with pairwise distinct keys; its
//! mathematical content is the [`Map`] from key bytes to supplier records.

use vstd::prelude::*;

use crate::data::{FileHash, SupplierInfo};

verus! {

/// The mathematical contents of an entry sequence, later entries winning;
/// a well-formed map never holds a key twice.
pub open spec fn entries_map(s: Seq<(FileHash, SupplierInfo)>) -> Map<Seq<u8>, SupplierInfo>
    decreases s.len(),
{
    if s.len() == 0 {
        Map::empty()
    } else {
        entries_map(s.drop_last()).insert(s.last().0@, s.last().1)
    }
}

/// An entry sequence holds each key at most once.
pub open spec fn distinct_keys(s: Seq<(FileHash, SupplierInfo)>) -> bool {
    forall|i: int, j: int| 0 <= i < j < s.len() ==> s[i].0@ != s[j].0@
}

/// A key is in the contents exactly when some entry carries it.
pub proof fn lemma_entries_map_contains(s: Seq<(FileHash, SupplierInfo)>, k: Seq<u8>)
    ensures
        entries_map(s).contains_key(k) <==> (exists|i: int| 0 <= i < s.len() && s[i].0@ == k),
    decreases s.len(),
{
    if s.len() == 0 {
    } else {
        lemma_entries_map_contains(s.drop_last(), k);
        if s.last().0@ == k {
            assert(s[s.len() - 1].0@ == k);
        } else {
            if exists|i: int| 0 <= i < s.len() && s[i].0@ == k {
                let i = choose|i: int| 0 <= i < s.len() && s[i].0@ == k;
                assert(s.drop_last()[i].0@ == k);
            }
        }
    }
}

/// With distinct keys, the contents map each carried key to its entry's
/// record.
pub proof fn lemma_entries_map_value(s: Seq<(FileHash, SupplierInfo)>, i: int)
    requires
        distinct_keys(s),
        0 <= i < s.len(),
    ensures
        entries_map(s)[s[i].0@] == s[i].1,
    decreases s.len(),
{
    if i == s.len() - 1 {
    } else {
        assert(s.drop_last()[i] == s[i]);
        lemma_entries_map_value(s.drop_last(), i);
        assert(s.last().0@ != s[i].0@);
    }
}

/// Overwriting the entry that carries a key updates the contents at that
/// key alone.
proof fn lemma_entries_map_update(
    s: Seq<(FileHash, SupplierInfo)>,
    i: int,
    key: FileHash,
    value: SupplierInfo,
)
    requires
        distinct_keys(s),
        0 <= i < s.len(),
        s[i].0@ == key@,
    ensures
        entries_map(s.update(i, (key, value))) == entries_map(s).insert(key@, value),
    decreases s.len(),
{
    let s2 = s.update(i, (key, value));
    if i == s.len() - 1 {
        assert(s2.drop_last() =~= s.drop_last());
        assert(entries_map(s.drop_last()).insert(s.last().0@, s.last().1).insert(key@, value)
            =~= entries_map(s.drop_last()).insert(key@, value));
    } else {
        assert(s2.drop_last() =~= s.drop_last().update(i, (key, value)));
        assert(s.drop_last()[i] == s[i]);
        lemma_entries_map_update(s.drop_last(), i, key, value);
        assert(s.last().0@ != key@);
        assert(s2.last() == s.last());
        assert(entries_map(s.drop_last()).insert(key@, value).insert(s.last().0@, s.last().1)
            =~= entries_map(s.drop_last()).insert(s.last().0@, s.last().1).insert(key@, value));
    }
}

/// The map from content keys to the supplier records this node holds.
pub struct MarketMap {
    entries: Vec<(FileHash, SupplierInfo)>,
}

impl View for MarketMap {
    type V = Map<Seq<u8>, SupplierInfo>;

    closed spec fn view(&self) -> Map<Seq<u8>, SupplierInfo> {
        entries_map(self.entries@)
    }
}

impl MarketMap {
    /// Well-formedness: no key is held twice. Constructors establish it and
    /// every method preserves it.
    pub closed spec fn wf(&self) -> bool {
        distinct_keys(self.entries@)
    }

    /// An empty market map.
    pub fn new() -> (m: Self)
        ensures
            m.wf(),
            m@ == Map::<Seq<u8>, SupplierInfo>::empty(),
    {
        MarketMap { entries: Vec::new() }
    }

    /// The supplier record held for `key`, if any.
    pub fn get(&self, key: &FileHash) -> (r: Option<&SupplierInfo>)
        requires
            self.wf(),
        ensures
            match r {
                Some(v) => self@.contains_key(key@) && *v == self@[key@],
                None => !self@.contains_key(key@),
            },
    {
        let n = self.entries.len();
        let mut i: usize = 0;
        while i < n
            invariant
                n == self.entries@.len(),
                i <= n,
                self.wf(),
                forall|j: int| 0 <= j < i ==> self.entries@[j].0@ != key@,
            decreases n - i,
        {
            if self.entries[i].0.0 == key.0 {
                proof {
                    assert(self.entries@[i as int].0@ =~= key@);
                    lemma_entries_map_contains(self.entries@, key@);
                    lemma_entries_map_value(self.entries@, i as int);
                }
                return Some(&self.entries[i].1);
            }
            i = i + 1;
        }
        proof {
            lemma_entries_map_contains(self.entries@, key@);
        }
        None
    }

    /// Binds `key` to `value`, replacing any record held for it before.
    pub fn insert(&mut self, key: FileHash, value: SupplierInfo)
        requires
            old(self).wf(),
        ensures
            final(self).wf(),
            final(self)@ == old(self)@.insert(key@, value),
    {
        let n = self.entries.len();
        let mut i: usize = 0;
        while i < n
            invariant
                n == self.entries@.len(),
                i <= n,
                self.wf(),
                self == old(self),
                forall|j: int| 0 <= j < i ==> self.entries@[j].0@ != key@,
            decreases n - i,
        {
            if self.entries[i].0.0 == key.0 {
                proof {
                    assert(self.entries@[i as int].0@ =~= key@);
                    lemma_entries_map_update(self.entries@, i as int, key, value);
                    let s2 = self.entries@.update(i as int, (key, value));
                    assert forall|p: int, q: int| 0 <= p < q < s2.len()
                        implies s2[p].0@ != s2[q].0@ by {
                        assert(self.entries@[p].0@ != self.entries@[q].0@);
                        if p == i {
                            assert(s2[p].0@ == self.entries@[p].0@);
                        } else if q == i {
                            assert(s2[q].0@ == self.entries@[q].0@);
                        }
                    }
                }
                self.entries.set(i, (key, value));
                return;
            }
            i = i + 1;
        }
        proof {
            let s2 = self.entries@.push((key, value));
            assert(s2.drop_last() =~= self.entries@);
            assert forall|p: int, q: int| 0 <= p < q < s2.len() implies s2[p].0@ != s2[q].0@ by {
                if q < s2.len() - 1 {
                    assert(self.entries@[p].0@ != self.entries@[q].0@);
                }
            }
        }
        self.entries.push((key, value));
    }
}

} // verus!
