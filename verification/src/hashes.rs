//! The replay ledger: a hash-keyed one-shot consumption registry for
//! inbound operations. A hash is consumed exactly once; a compensating
//! rollback may return it to unconsumed after a downstream failure.

use vstd::prelude::*;

verus! {

/// One ledger entry: an origin hash and its consumed flag.
type LedgerEntry = (crate::types::Hash, bool);

/// The map described by a ledger entry list, later entries winning.
pub open spec fn entries_map(s: Seq<LedgerEntry>) -> Map<Seq<u8>, bool>
    decreases s.len(),
{
    if s.len() == 0 {
        Map::empty()
    } else {
        entries_map(s.drop_last()).insert(s.last().0@, s.last().1)
    }
}

/// Whether the ledger knows the hash as consumed.
pub open spec fn consumed(m: Map<Seq<u8>, bool>, h: Seq<u8>) -> bool {
    m.contains_key(h) && m[h]
}

/// The replay ledger: a mapping from hash to a consumed flag,
/// monotonically growing; no key is ever deleted, only flipped.
pub struct Hashes {
    entries: Vec<LedgerEntry>,
}

impl Hashes {
    /// Well-formed ledger: entry keys are pairwise distinct. Constructors
    /// establish it and every method preserves it.
    pub closed spec fn wf(&self) -> bool {
        forall|i: int, j: int|
            0 <= i < j < self.entries@.len() ==> (#[trigger] self.entries@[i]).0@ != (
            #[trigger] self.entries@[j]).0@
    }

    /// The ledger's contents as a map from hash bytes to the flag.
    pub closed spec fn contents(&self) -> Map<Seq<u8>, bool> {
        entries_map(self.entries@)
    }

    /// An empty ledger.
    pub fn new() -> (r: Self)
        ensures
            r.wf(),
            r.contents() == Map::<Seq<u8>, bool>::empty(),
    {
        Hashes { entries: Vec::new() }
    }

    /// The index of the entry that holds the hash, if any.
    fn find(&self, hash: &crate::types::Hash) -> (r: Option<usize>)
        requires
            self.wf(),
        ensures
            match r {
                Some(i) => i < self.entries@.len() && self.entries@[i as int].0@ == hash@
                    && self.contents().contains_key(hash@) && self.contents()[hash@]
                    == self.entries@[i as int].1,
                None => !self.contents().contains_key(hash@) && forall|j: int|
                    0 <= j < self.entries@.len() ==> (#[trigger] self.entries@[j]).0@ != hash@,
            },
    {
        let n: usize = self.entries.len();
        let mut i: usize = 0;
        while i < n
            invariant
                self.wf(),
                self.entries@.len() == n,
                i <= n,
                forall|j: int| 0 <= j < i ==> (#[trigger] self.entries@[j]).0@ != hash@,
            decreases n - i,
        {
            if self.entries[i].0.equals(hash) {
                proof {
                    lemma_entries_map_get(self.entries@, i as int);
                }
                return Some(i);
            }
            i += 1;
        }
        proof {
            lemma_entries_map_missing(self.entries@, hash@);
        }
        None
    }

    /// Consumes the hash: fails, changing nothing, when the hash is
    /// already consumed; otherwise marks it consumed. Succeeds exactly
    /// once per hash until a rollback.
    pub fn check_hash(&mut self, hash: &crate::types::Hash) -> (r: bool)
        requires
            old(self).wf(),
        ensures
            final(self).wf(),
            r == !consumed(old(self).contents(), hash@),
            r ==> final(self).contents() == old(self).contents().insert(hash@, true),
            !r ==> *final(self) == *old(self),
    {
        match self.find(hash) {
            Some(i) => {
                if self.entries[i].1 {
                    return false;
                }
                self.set_entry(i, hash, true);
                true
            },
            None => {
                self.entries.push((hash.duplicate(), true));
                proof {
                    assert(self.entries@.drop_last() =~= old(self).entries@);
                    assert(self.wf()) by {
                        assert(forall|j: int|
                            0 <= j < old(self).entries@.len() ==> #[trigger] self.entries@[j]
                                == old(self).entries@[j]);
                    }
                }
                true
            },
        }
    }

    /// Writes the flag for the hash unconditionally: the rollback path
    /// uses this to return a consumed hash to unconsumed after a failed
    /// downstream call.
    pub fn change_hash(&mut self, hash: &crate::types::Hash, value: bool)
        requires
            old(self).wf(),
        ensures
            final(self).wf(),
            final(self).contents() == old(self).contents().insert(hash@, value),
    {
        match self.find(hash) {
            Some(i) => {
                self.set_entry(i, hash, value);
            },
            None => {
                self.entries.push((hash.duplicate(), value));
                proof {
                    assert(self.entries@.drop_last() =~= old(self).entries@);
                    assert(self.wf()) by {
                        assert(forall|j: int|
                            0 <= j < old(self).entries@.len() ==> #[trigger] self.entries@[j]
                                == old(self).entries@[j]);
                    }
                }
            },
        }
    }

    /// Replaces the flag of the entry at `i`, which holds the hash.
    fn set_entry(&mut self, i: usize, hash: &crate::types::Hash, value: bool)
        requires
            old(self).wf(),
            i < old(self).entries@.len(),
            old(self).entries@[i as int].0@ == hash@,
        ensures
            final(self).wf(),
            final(self).contents() == old(self).contents().insert(hash@, value),
    {
        let removed: LedgerEntry = self.entries.remove(i);
        self.entries.insert(i, (removed.0, value));
        proof {
            assert(self.entries@ =~= old(self).entries@.update(
                i as int,
                (old(self).entries@[i as int].0, value),
            ));
            lemma_entries_map_update(old(self).entries@, i as int, value);
            assert(self.contents() =~= old(self).contents().insert(hash@, value));
            assert(self.wf()) by {
                assert(forall|j: int|
                    0 <= j < self.entries@.len() ==> (#[trigger] self.entries@[j]).0@ == old(
                        self,
                    ).entries@[j].0@);
            }
        }
    }
}

/// A key held by no entry is not in the map.
proof fn lemma_entries_map_missing(s: Seq<LedgerEntry>, h: Seq<u8>)
    requires
        forall|j: int| 0 <= j < s.len() ==> (#[trigger] s[j]).0@ != h,
    ensures
        !entries_map(s).contains_key(h),
    decreases s.len(),
{
    if s.len() > 0 {
        assert(forall|j: int| 0 <= j < s.drop_last().len() ==> (#[trigger] s.drop_last()[j]).0@
            != h);
        lemma_entries_map_missing(s.drop_last(), h);
    }
}

/// With pairwise distinct keys, the map holds each entry's flag.
proof fn lemma_entries_map_get(s: Seq<LedgerEntry>, i: int)
    requires
        0 <= i < s.len(),
        forall|a: int, b: int|
            0 <= a < b < s.len() ==> (#[trigger] s[a]).0@ != (#[trigger] s[b]).0@,
    ensures
        entries_map(s).contains_key(s[i].0@),
        entries_map(s)[s[i].0@] == s[i].1,
    decreases s.len(),
{
    if i == s.len() - 1 {
    } else {
        assert(forall|a: int, b: int|
            0 <= a < b < s.drop_last().len() ==> (#[trigger] s.drop_last()[a]).0@ != (
            #[trigger] s.drop_last()[b]).0@);
        assert(s.drop_last()[i] == s[i]);
        lemma_entries_map_get(s.drop_last(), i);
        assert(s[i].0@ != s.last().0@);
    }
}

/// Updating one entry's flag updates exactly that key.
proof fn lemma_entries_map_update(s: Seq<LedgerEntry>, i: int, value: bool)
    requires
        0 <= i < s.len(),
        forall|a: int, b: int|
            0 <= a < b < s.len() ==> (#[trigger] s[a]).0@ != (#[trigger] s[b]).0@,
    ensures
        entries_map(s.update(i, (s[i].0, value))) == entries_map(s).insert(s[i].0@, value),
    decreases s.len(),
{
    let t = s.update(i, (s[i].0, value));
    if i == s.len() - 1 {
        assert(t.drop_last() =~= s.drop_last());
        assert(t.last() == (s[i].0, value));
        assert(entries_map(t) =~= entries_map(s).insert(s[i].0@, value));
    } else {
        assert(forall|a: int, b: int|
            0 <= a < b < s.drop_last().len() ==> (#[trigger] s.drop_last()[a]).0@ != (
            #[trigger] s.drop_last()[b]).0@);
        assert(s.drop_last()[i] == s[i]);
        lemma_entries_map_update(s.drop_last(), i, value);
        assert(t.drop_last() =~= s.drop_last().update(i, (s[i].0, value)));
        assert(t.last() == s.last());
        assert(s[i].0@ != s.last().0@);
        assert(entries_map(t) =~= entries_map(s).insert(s[i].0@, value));
    }
}

/// The replay property: consuming a hash succeeds exactly once. After a
/// success the hash is consumed, so a second consumption of the same
/// hash fails; a rollback returns it to unconsumed, after which exactly
/// one further success is possible.
pub proof fn lemma_check_hash_exactly_once(m: Map<Seq<u8>, bool>, h: Seq<u8>)
    ensures
        consumed(m.insert(h, true), h),
        !consumed(m.insert(h, true).insert(h, false), h),
        consumed(m.insert(h, true).insert(h, false).insert(h, true), h),
{
}

} // verus!
