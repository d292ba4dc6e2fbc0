use vstd::prelude::*;

use vstd::pervasive::VecAdditionalExecFns;

use crate::account_id::AccountId;
use crate::dice::Dice;
use crate::dice_store::{has_record, lemma_record_at_unique, record_at, store_wf, DiceStore};
use crate::error::Error;

verus! {

/// Length of the randomness payload the oracle collaborator publishes:
/// either 32 zero bytes (not produced yet) or a verified random 32-byte
/// value.
pub const PAYLOAD_LEN: usize = 32;

/// Input bundle of the settlement callback, treated as untrusted: the
/// source that claims to have produced randomness, the key (owner) of the
/// record it wants to settle, and the payload published for that source.
pub struct SettleDice {
    pub callback_source: AccountId,
    pub callback_record_key: AccountId,
    pub payload: Vec<u8>,
}

/// The all-zero payload is the oracle network's sentinel for "result not
/// produced yet".
pub open spec fn all_zero(payload: Seq<u8>) -> bool {
    forall|i: int| 0 <= i < payload.len() ==> payload[i] == 0
}

/// The face a payload settles to: its first byte reduced modulo six, then
/// offset by one — the full numeric contract, modulo bias accepted.
pub open spec fn face_of(payload: Seq<u8>) -> u8 {
    (payload[0] % 6 + 1) as u8
}

/// Functional model of settlement. The record must exist and must be
/// bound to the calling source; an all-zero payload is a designed
/// success-with-no-effect; a settled record is never overwritten; and a
/// settling write changes the face alone.
pub open spec fn spec_settle(
    s: Seq<Dice>,
    source: AccountId,
    key: AccountId,
    payload: Seq<u8>,
) -> (Seq<Dice>, Result<(), Error>) {
    if !has_record(s, key) {
        (s, Err(Error::RecordNotFound))
    } else {
        let i = record_at(s, key);
        if s[i].bound_source != source {
            (s, Err(Error::SourceMismatch))
        } else if all_zero(payload) {
            (s, Ok(()))
        } else if s[i].face != 0 {
            (s, Err(Error::AlreadySettled))
        } else {
            (
                s.update(i, Dice { owner: s[i].owner, face: face_of(payload), bound_source: s[i].bound_source }),
                Ok(()),
            )
        }
    }
}

/// Whether every payload byte is zero.
pub fn payload_all_zero(payload: &Vec<u8>) -> (r: bool)
    ensures
        r == all_zero(payload@),
{
    let n = payload.len();
    let mut i: usize = 0;
    while i < n
        invariant
            n == payload@.len(),
            i <= n,
            forall|k: int| 0 <= k < i ==> payload@[k] == 0,
        decreases n - i,
    {
        if payload[i] != 0 {
            proof {
                assert(payload@[i as int] != 0);
            }
            return false;
        }
        i = i + 1;
    }
    true
}

/// Settles the record the callback names, after authenticating the
/// callback's source against the binding recorded at request time. The
/// store moves exactly as the functional model `spec_settle` says.
pub fn handler(ctx: &SettleDice, store: &mut DiceStore) -> (r: Result<(), Error>)
    requires
        store_wf(old(store).records@),
        ctx.payload@.len() == PAYLOAD_LEN,
    ensures
        final(store).records@ == spec_settle(
            old(store).records@,
            ctx.callback_source,
            ctx.callback_record_key,
            ctx.payload@,
        ).0,
        r == spec_settle(
            old(store).records@,
            ctx.callback_source,
            ctx.callback_record_key,
            ctx.payload@,
        ).1,
        store_wf(final(store).records@),
{
    let i = match store.find(ctx.callback_record_key) {
        None => {
            return Err(Error::RecordNotFound);
        },
        Some(i) => i,
    };
    let ghost s0 = store.records@;
    proof {
        lemma_record_at_unique(s0, ctx.callback_record_key, i as int);
    }
    let record = store.records[i];
    if record.bound_source != ctx.callback_source {
        return Err(Error::SourceMismatch);
    }
    if payload_all_zero(&ctx.payload) {
        return Ok(());
    }
    if record.face != 0 {
        return Err(Error::AlreadySettled);
    }
    let face: u8 = ctx.payload[0] % 6 + 1;
    store.records.set(
        i,
        Dice { owner: record.owner, face, bound_source: record.bound_source },
    );
    proof {
        let s1 = store.records@;
        assert forall|a: int, b: int| 0 <= a < b < s1.len() implies s1[a].owner != s1[b].owner by {
            assert(s1[a].owner == s0[a].owner);
            assert(s1[b].owner == s0[b].owner);
        }
    }
    Ok(())
}

/// Settlement is single-use: when a nonzero payload settles a record, the
/// same callback replayed against the resulting store is rejected with
/// `AlreadySettled` and changes nothing.
pub proof fn lemma_settle_exactly_once(
    s: Seq<Dice>,
    source: AccountId,
    key: AccountId,
    payload: Seq<u8>,
)
    requires
        store_wf(s),
        !all_zero(payload),
        (spec_settle(s, source, key, payload).1 is Ok),
    ensures
        spec_settle(spec_settle(s, source, key, payload).0, source, key, payload).0
            == spec_settle(s, source, key, payload).0,
        spec_settle(spec_settle(s, source, key, payload).0, source, key, payload).1
            == Err::<(), Error>(Error::AlreadySettled),
{
    let i = record_at(s, key);
    assert(0 <= i < s.len() && s[i].owner == key);
    let s1 = spec_settle(s, source, key, payload).0;
    assert(s1[i].face == face_of(payload));
    assert(face_of(payload) != 0);
    assert forall|a: int, b: int| 0 <= a < b < s1.len() implies s1[a].owner != s1[b].owner by {
        assert(s1[a].owner == s[a].owner);
        assert(s1[b].owner == s[b].owner);
    }
    lemma_record_at_unique(s1, key, i);
}

/// Anti-spoofing: a callback whose source differs from the record's bound
/// source is rejected with `SourceMismatch`, whatever the payload holds,
/// and changes nothing.
pub proof fn lemma_spoofed_source_rejected(
    s: Seq<Dice>,
    source: AccountId,
    key: AccountId,
    payload: Seq<u8>,
)
    requires
        store_wf(s),
        has_record(s, key),
        s[record_at(s, key)].bound_source != source,
    ensures
        spec_settle(s, source, key, payload).0 == s,
        spec_settle(s, source, key, payload).1 == Err::<(), Error>(Error::SourceMismatch),
{
}

} // verus!
