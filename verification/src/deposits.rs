//! The per-account store of pending-deposit records.

use vstd::prelude::*;
use crate::deposit_operation::{empty_op, DepositOperation};

verus! {

/// The map described by a record list, keyed by owner, later entries
/// winning.
pub open spec fn ops_map(s: Seq<DepositOperation>) -> Map<Seq<char>, DepositOperation>
    decreases s.len(),
{
    if s.len() == 0 {
        Map::empty()
    } else {
        ops_map(s.drop_last()).insert(s.last().owner@, s.last())
    }
}

/// The per-account pending-deposit records, one per registered account.
pub struct DepositsManager {
    deposit_operations: Vec<DepositOperation>,
}

impl DepositsManager {
    /// Well-formed store: owners are pairwise distinct.
    pub closed spec fn wf(&self) -> bool {
        forall|i: int, j: int|
            0 <= i < j < self.deposit_operations@.len() ==> (
            #[trigger] self.deposit_operations@[i]).owner@ != (
            #[trigger] self.deposit_operations@[j]).owner@
    }

    /// The records as a map from owner to record.
    pub closed spec fn contents(&self) -> Map<Seq<char>, DepositOperation> {
        ops_map(self.deposit_operations@)
    }

    /// An empty store.
    pub fn new() -> (r: Self)
        ensures
            r.wf(),
            r.contents() == Map::<Seq<char>, DepositOperation>::empty(),
    {
        DepositsManager { deposit_operations: Vec::new() }
    }

    /// The index of the record owned by the account, if any.
    fn find(&self, owner: &String) -> (r: Option<usize>)
        requires
            self.wf(),
        ensures
            match r {
                Some(i) => i < self.deposit_operations@.len()
                    && self.deposit_operations@[i as int].owner@ == owner@
                    && self.contents().contains_key(owner@) && self.contents()[owner@]
                    == self.deposit_operations@[i as int],
                None => !self.contents().contains_key(owner@) && forall|j: int|
                    0 <= j < self.deposit_operations@.len() ==> (
                    #[trigger] self.deposit_operations@[j]).owner@ != owner@,
            },
    {
        let n: usize = self.deposit_operations.len();
        let mut i: usize = 0;
        while i < n
            invariant
                self.wf(),
                self.deposit_operations@.len() == n,
                i <= n,
                forall|j: int|
                    0 <= j < i ==> (#[trigger] self.deposit_operations@[j]).owner@ != owner@,
            decreases n - i,
        {
            if self.deposit_operations[i].owner == *owner {
                proof {
                    lemma_ops_map_get(self.deposit_operations@, i as int);
                }
                return Some(i);
            }
            i += 1;
        }
        proof {
            lemma_ops_map_missing(self.deposit_operations@, owner@);
        }
        None
    }

    /// Whether the account has a record.
    pub fn is_exists(&self, owner: &String) -> (r: bool)
        requires
            self.wf(),
        ensures
            r == self.contents().contains_key(owner@),
    {
        self.find(owner).is_some()
    }

    /// Installs the record under its owner, replacing any previous one.
    pub fn add_deposit_op(&mut self, operation: DepositOperation)
        requires
            old(self).wf(),
        ensures
            final(self).wf(),
            final(self).contents() == old(self).contents().insert(operation.owner@, operation),
    {
        let owner: String = operation.owner.clone();
        match self.find(&owner) {
            Some(i) => {
                let _removed: DepositOperation = self.deposit_operations.remove(i);
                self.deposit_operations.insert(i, operation);
                proof {
                    assert(self.deposit_operations@ =~= old(self).deposit_operations@.update(
                        i as int,
                        self.deposit_operations@[i as int],
                    ));
                    lemma_ops_map_update(
                        old(self).deposit_operations@,
                        i as int,
                        self.deposit_operations@[i as int],
                    );
                    assert(self.wf()) by {
                        assert(forall|j: int|
                            0 <= j < self.deposit_operations@.len() ==> (
                            #[trigger] self.deposit_operations@[j]).owner@ == old(
                                self,
                            ).deposit_operations@[j].owner@);
                    }
                }
            },
            None => {
                self.deposit_operations.push(operation);
                proof {
                    assert(self.deposit_operations@.drop_last() =~= old(
                        self,
                    ).deposit_operations@);
                    assert(self.wf()) by {
                        assert(forall|j: int|
                            0 <= j < old(self).deposit_operations@.len()
                                ==> #[trigger] self.deposit_operations@[j] == old(
                                self,
                            ).deposit_operations@[j]);
                    }
                }
            },
        }
    }

    /// The account's record, if any.
    pub fn get_deposit_op(&self, owner: String) -> (r: Option<DepositOperation>)
        requires
            self.wf(),
        ensures
            match r {
                Some(op) => self.contents().contains_key(owner@) && op == self.contents()[owner@]
                    && op.owner@ == owner@,
                None => !self.contents().contains_key(owner@),
            },
    {
        match self.find(&owner) {
            Some(i) => Some(self.deposit_operations[i].duplicate()),
            None => None,
        }
    }

    /// Installs the record under its owner, exactly like `add_deposit_op`.
    pub fn update_deposit_op(&mut self, operation: DepositOperation)
        requires
            old(self).wf(),
        ensures
            final(self).wf(),
            final(self).contents() == old(self).contents().insert(operation.owner@, operation),
    {
        self.add_deposit_op(operation);
    }

    /// Returns the account's record to empty, keeping the registration:
    /// both flags false and every accumulated field unset. Fails, and
    /// changes nothing, for an unregistered account.
    pub fn reset_deposit_op(&mut self, owner: String) -> (r: bool)
        requires
            old(self).wf(),
        ensures
            final(self).wf(),
            r == old(self).contents().contains_key(owner@),
            r ==> final(self).contents() == old(self).contents().insert(
                owner@,
                empty_op(old(self).contents()[owner@].owner),
            ),
            !r ==> final(self).contents() == old(self).contents(),
    {
        match self.find(&owner) {
            Some(i) => {
                let current: &DepositOperation = &self.deposit_operations[i];
                let cleared: DepositOperation = DepositOperation::empty(current.owner.clone());
                let _removed: DepositOperation = self.deposit_operations.remove(i);
                self.deposit_operations.insert(i, cleared);
                proof {
                    assert(self.deposit_operations@ =~= old(self).deposit_operations@.update(
                        i as int,
                        self.deposit_operations@[i as int],
                    ));
                    lemma_ops_map_update(
                        old(self).deposit_operations@,
                        i as int,
                        self.deposit_operations@[i as int],
                    );
                    assert(self.wf()) by {
                        assert(forall|j: int|
                            0 <= j < self.deposit_operations@.len() ==> (
                            #[trigger] self.deposit_operations@[j]).owner@ == old(
                                self,
                            ).deposit_operations@[j].owner@);
                    }
                }
                true
            },
            None => false,
        }
    }

    /// Removes the account's record entirely; the account is no longer
    /// registered.
    pub fn remove_deposit_op(&mut self, owner: String)
        requires
            old(self).wf(),
        ensures
            final(self).wf(),
            final(self).contents() == old(self).contents().remove(owner@),
    {
        match self.find(&owner) {
            Some(i) => {
                let _removed: DepositOperation = self.deposit_operations.remove(i);
                proof {
                    lemma_ops_map_remove(old(self).deposit_operations@, i as int);
                    assert(self.wf()) by {
                        assert(forall|a: int, b: int|
                            0 <= a < b < self.deposit_operations@.len() ==> (
                            #[trigger] self.deposit_operations@[a]).owner@ != (
                            #[trigger] self.deposit_operations@[b]).owner@) by {
                            assert(forall|a: int|
                                0 <= a < self.deposit_operations@.len()
                                    ==> #[trigger] self.deposit_operations@[a] == (if a < i {
                                    old(self).deposit_operations@[a]
                                } else {
                                    old(self).deposit_operations@[a + 1]
                                }));
                        }
                    }
                }
            },
            None => {
                proof {
                    assert(final(self).contents() =~= old(self).contents().remove(owner@));
                }
            },
        }
    }
}

/// A key held by no record is not in the map.
proof fn lemma_ops_map_missing(s: Seq<DepositOperation>, k: Seq<char>)
    requires
        forall|j: int| 0 <= j < s.len() ==> (#[trigger] s[j]).owner@ != k,
    ensures
        !ops_map(s).contains_key(k),
    decreases s.len(),
{
    if s.len() > 0 {
        assert(forall|j: int|
            0 <= j < s.drop_last().len() ==> (#[trigger] s.drop_last()[j]).owner@ != k);
        lemma_ops_map_missing(s.drop_last(), k);
    }
}

/// With pairwise distinct owners, the map holds each record.
proof fn lemma_ops_map_get(s: Seq<DepositOperation>, i: int)
    requires
        0 <= i < s.len(),
        forall|a: int, b: int|
            0 <= a < b < s.len() ==> (#[trigger] s[a]).owner@ != (#[trigger] s[b]).owner@,
    ensures
        ops_map(s).contains_key(s[i].owner@),
        ops_map(s)[s[i].owner@] == s[i],
    decreases s.len(),
{
    if i == s.len() - 1 {
    } else {
        assert(forall|a: int, b: int|
            0 <= a < b < s.drop_last().len() ==> (#[trigger] s.drop_last()[a]).owner@ != (
            #[trigger] s.drop_last()[b]).owner@);
        assert(s.drop_last()[i] == s[i]);
        lemma_ops_map_get(s.drop_last(), i);
        assert(s[i].owner@ != s.last().owner@);
    }
}

/// Replacing one record under the same owner updates exactly that key.
proof fn lemma_ops_map_update(s: Seq<DepositOperation>, i: int, op: DepositOperation)
    requires
        0 <= i < s.len(),
        op.owner@ == s[i].owner@,
        forall|a: int, b: int|
            0 <= a < b < s.len() ==> (#[trigger] s[a]).owner@ != (#[trigger] s[b]).owner@,
    ensures
        ops_map(s.update(i, op)) == ops_map(s).insert(s[i].owner@, op),
    decreases s.len(),
{
    let t = s.update(i, op);
    if i == s.len() - 1 {
        assert(t.drop_last() =~= s.drop_last());
        assert(t.last() == op);
        assert(ops_map(t) =~= ops_map(s).insert(s[i].owner@, op));
    } else {
        assert(forall|a: int, b: int|
            0 <= a < b < s.drop_last().len() ==> (#[trigger] s.drop_last()[a]).owner@ != (
            #[trigger] s.drop_last()[b]).owner@);
        assert(s.drop_last()[i] == s[i]);
        lemma_ops_map_update(s.drop_last(), i, op);
        assert(t.drop_last() =~= s.drop_last().update(i, op));
        assert(t.last() == s.last());
        assert(s[i].owner@ != s.last().owner@);
        assert(ops_map(t) =~= ops_map(s).insert(s[i].owner@, op));
    }
}

/// Removing one record removes exactly its key.
proof fn lemma_ops_map_remove(s: Seq<DepositOperation>, i: int)
    requires
        0 <= i < s.len(),
        forall|a: int, b: int|
            0 <= a < b < s.len() ==> (#[trigger] s[a]).owner@ != (#[trigger] s[b]).owner@,
    ensures
        ops_map(s.remove(i)) == ops_map(s).remove(s[i].owner@),
    decreases s.len(),
{
    let t = s.remove(i);
    if i == s.len() - 1 {
        assert(t =~= s.drop_last());
        assert(forall|j: int|
            0 <= j < s.drop_last().len() ==> (#[trigger] s.drop_last()[j]).owner@
                != s.last().owner@);
        lemma_ops_map_missing(s.drop_last(), s.last().owner@);
        assert(ops_map(t) =~= ops_map(s).remove(s[i].owner@));
    } else {
        assert(forall|a: int, b: int|
            0 <= a < b < s.drop_last().len() ==> (#[trigger] s.drop_last()[a]).owner@ != (
            #[trigger] s.drop_last()[b]).owner@);
        assert(s.drop_last()[i] == s[i]);
        lemma_ops_map_remove(s.drop_last(), i);
        assert(t.drop_last() =~= s.drop_last().remove(i));
        assert(t.last() == s.last());
        assert(s[i].owner@ != s.last().owner@);
        assert(ops_map(t) =~= ops_map(s).remove(s[i].owner@));
    }
}

} // verus!
