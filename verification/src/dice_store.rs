use vstd::prelude::*;

use crate::account_id::AccountId;
use crate::dice::Dice;

verus! {

/// Model of the storage collaborator's record table: every live outcome
/// record, keyed by its owner. Creation inserts, claiming removes, and the
/// owner identity is the unique key.
pub struct DiceStore {
    pub records: Vec<Dice>,
}

/// No two live records share an owner: the owner identity is the key under
/// which the storage collaborator files a record.
pub open spec fn unique_owners(s: Seq<Dice>) -> bool {
    forall|i: int, j: int| 0 <= i < j < s.len() ==> s[i].owner != s[j].owner
}

/// Store invariant: owners are unique and every face lies in the outcome
/// domain `{0} ∪ {1..6}`.
pub open spec fn store_wf(s: Seq<Dice>) -> bool {
    &&& unique_owners(s)
    &&& forall|i: int| 0 <= i < s.len() ==> s[i].face <= 6
}

/// Whether a record keyed by `owner` is live.
pub open spec fn has_record(s: Seq<Dice>, owner: AccountId) -> bool {
    exists|i: int| 0 <= i < s.len() && s[i].owner == owner
}

/// Index of the record keyed by `owner`; meaningful when `has_record`
/// holds and, under `unique_owners`, uniquely determined.
pub open spec fn record_at(s: Seq<Dice>, owner: AccountId) -> int {
    choose|i: int| 0 <= i < s.len() && s[i].owner == owner
}

/// Under unique owners, any index holding `owner` is the index
/// `record_at` denotes.
pub proof fn lemma_record_at_unique(s: Seq<Dice>, owner: AccountId, i: int)
    requires
        unique_owners(s),
        0 <= i < s.len(),
        s[i].owner == owner,
    ensures
        has_record(s, owner),
        record_at(s, owner) == i,
{
    assert(has_record(s, owner));
    let j = record_at(s, owner);
    if i != j {
        if i < j {
            assert(s[i].owner != s[j].owner);
        } else {
            assert(s[j].owner != s[i].owner);
        }
    }
}

/// Removing the record keyed by `owner` leaves no record under that key:
/// uniqueness makes the removed one the only witness.
pub proof fn lemma_remove_erases_record(s: Seq<Dice>, owner: AccountId, i: int)
    requires
        unique_owners(s),
        0 <= i < s.len(),
        s[i].owner == owner,
    ensures
        !has_record(s.remove(i), owner),
        unique_owners(s.remove(i)),
{
    let r = s.remove(i);
    assert forall|k: int| 0 <= k < r.len() implies r[k].owner != owner by {
        if k < i {
            assert(r[k] == s[k]);
        } else {
            assert(r[k] == s[k + 1]);
        }
    }
}

impl DiceStore {
    /// An empty table, as the storage substrate starts out.
    pub fn new() -> (r: DiceStore)
        ensures
            r.records@.len() == 0,
            store_wf(r.records@),
    {
        DiceStore { records: Vec::new() }
    }

    /// Looks the owner's record up, as the storage collaborator does by
    /// key: the index of the live record, or `None` if there is none.
    pub fn find(&self, owner: AccountId) -> (r: Option<usize>)
        ensures
            match r {
                Some(i) => i < self.records@.len() && self.records@[i as int].owner == owner
                    && has_record(self.records@, owner),
                None => !has_record(self.records@, owner),
            },
    {
        let n = self.records.len();
        let mut i: usize = 0;
        while i < n
            invariant
                n == self.records@.len(),
                i <= n,
                forall|k: int| 0 <= k < i ==> self.records@[k].owner != owner,
            decreases n - i,
        {
            if self.records[i].owner == owner {
                return Some(i);
            }
            i = i + 1;
        }
        None
    }
}

} // verus!
