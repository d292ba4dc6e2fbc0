use vstd::prelude::*;

use crate::account_id::AccountId;
use crate::dice::Dice;
use crate::dice_store::{
    has_record, lemma_record_at_unique, lemma_remove_erases_record, record_at, store_wf, DiceStore,
};
use crate::error::Error;
use crate::settle_dice::spec_settle;

verus! {

/// Input bundle of the claim operation: the signing player, who owns the
/// record being consumed.
pub struct ClaimDice {
    pub player: AccountId,
}

/// Functional model of claiming. A missing record is `RecordNotFound`, a
/// pending one `NotYetSettled`; otherwise the settled face is returned and
/// the record is destroyed — its key freed and its reserved resources
/// returned to the owner by the storage collaborator.
pub open spec fn spec_claim(s: Seq<Dice>, owner: AccountId) -> (Seq<Dice>, Result<u8, Error>) {
    if !has_record(s, owner) {
        (s, Err(Error::RecordNotFound))
    } else {
        let i = record_at(s, owner);
        if s[i].face == 0 {
            (s, Err(Error::NotYetSettled))
        } else {
            (s.remove(i), Ok(s[i].face))
        }
    }
}

/// Claims the owner's settled record: returns its face and removes the
/// record. The store moves exactly as the functional model `spec_claim`
/// says.
pub fn handler(ctx: &ClaimDice, store: &mut DiceStore) -> (r: Result<u8, Error>)
    requires
        store_wf(old(store).records@),
    ensures
        final(store).records@ == spec_claim(old(store).records@, ctx.player).0,
        r == spec_claim(old(store).records@, ctx.player).1,
        store_wf(final(store).records@),
{
    let i = match store.find(ctx.player) {
        None => {
            return Err(Error::RecordNotFound);
        },
        Some(i) => i,
    };
    let ghost s0 = store.records@;
    proof {
        lemma_record_at_unique(s0, ctx.player, i as int);
    }
    let record = store.records[i];
    if record.face == 0 {
        return Err(Error::NotYetSettled);
    }
    store.records.remove(i);
    proof {
        let s1 = store.records@;
        assert forall|a: int, b: int| 0 <= a < b < s1.len() implies s1[a].owner != s1[b].owner by {
            if a < i as int {
                assert(s1[a] == s0[a]);
            } else {
                assert(s1[a] == s0[a + 1]);
            }
            if b < i as int {
                assert(s1[b] == s0[b]);
            } else {
                assert(s1[b] == s0[b + 1]);
            }
        }
        assert forall|k: int| 0 <= k < s1.len() implies s1[k].face <= 6 by {
            if k < i as int {
                assert(s1[k] == s0[k]);
            } else {
                assert(s1[k] == s0[k + 1]);
            }
        }
    }
    Ok(record.face)
}

/// Claiming is exactly-once: a successful claim returns the settled,
/// nonzero face of the owner's record, and against the resulting store
/// both a second claim and any settlement attempt under the same key fail
/// with `RecordNotFound`.
pub proof fn lemma_claim_exactly_once(
    s: Seq<Dice>,
    owner: AccountId,
    source: AccountId,
    payload: Seq<u8>,
)
    requires
        store_wf(s),
        (spec_claim(s, owner).1 is Ok),
    ensures
        spec_claim(s, owner).1 == Ok::<u8, Error>(s[record_at(s, owner)].face),
        s[record_at(s, owner)].face != 0,
        spec_claim(spec_claim(s, owner).0, owner).1 == Err::<u8, Error>(Error::RecordNotFound),
        spec_settle(spec_claim(s, owner).0, source, owner, payload).1 == Err::<(), Error>(
            Error::RecordNotFound,
        ),
{
    let i = record_at(s, owner);
    assert(0 <= i < s.len() && s[i].owner == owner);
    lemma_remove_erases_record(s, owner, i);
}

} // verus!
