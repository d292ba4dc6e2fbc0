use vstd::prelude::*;

use crate::account_id::AccountId;
use crate::dice::Dice;
use crate::dice_store::{has_record, store_wf, DiceStore};
use crate::error::Error;
use crate::global_state::{registry_wf, GlobalState};
use crate::rotation::advance_cursor;
use crate::vrf_account_list::VrfAccountList;

verus! {

/// Input bundle of the request dispatch: the requesting player, the
/// registry's own key, and the controlling authority currently declared by
/// the source the cursor points at — read at dispatch time, because
/// authority can change between enlargement and use.
pub struct CreateDice {
    pub player: AccountId,
    pub list_key: AccountId,
    pub source_authority: AccountId,
}

/// The action a successful dispatch hands to the oracle collaborator: ask
/// `source` for randomness, register the settlement entry point as the
/// callback carrying exactly the record's key and the source identifier,
/// and sign the outer invocation with the two bumps.
#[derive(Clone, Copy, PartialEq, Eq, Structural, Debug)]
pub struct RandomnessRequest {
    pub source: AccountId,
    pub record_key: AccountId,
    pub switchboard_state_bump: u8,
    pub permission_bump: u8,
}

/// Creates a pending outcome record for the player, bound to the source
/// at the cursor, and advances the cursor — atomically: any failure leaves
/// the registry and the record table exactly as they were, and only a
/// fully successful dispatch consumes a rotation slot.
pub fn handler(
    ctx: &CreateDice,
    permission_bump: u8,
    global_state: &mut GlobalState,
    vrf_account_list: &VrfAccountList,
    store: &mut DiceStore,
) -> (r: Result<RandomnessRequest, Error>)
    requires
        registry_wf(*old(global_state), *vrf_account_list),
        store_wf(old(store).records@),
    ensures
        registry_wf(*final(global_state), *vrf_account_list),
        store_wf(final(store).records@),
        has_record(old(store).records@, ctx.player) ==> r == Err::<RandomnessRequest, Error>(
            Error::DuplicatePendingRequest,
        ),
        !has_record(old(store).records@, ctx.player) && vrf_account_list.list@.len() == 0 ==> r
            == Err::<RandomnessRequest, Error>(Error::EmptyPool),
        !has_record(old(store).records@, ctx.player) && vrf_account_list.list@.len() > 0
            && ctx.source_authority != ctx.list_key ==> r == Err::<RandomnessRequest, Error>(
            Error::SourceAuthorityMismatch,
        ),
        (r is Err) ==> *final(global_state) == *old(global_state) && final(store).records@ == old(
            store,
        ).records@,
        (r is Ok) <==> !has_record(old(store).records@, ctx.player)
            && vrf_account_list.list@.len() > 0 && ctx.source_authority == ctx.list_key,
        (r is Ok) ==> r == Ok::<RandomnessRequest, Error>(
            RandomnessRequest {
                source: vrf_account_list.list@[old(global_state).vrf_account_pointer as int],
                record_key: ctx.player,
                switchboard_state_bump: old(global_state).switchboard_state_bump,
                permission_bump: permission_bump,
            },
        ),
        (r is Ok) ==> final(store).records@ == old(store).records@.push(
            Dice {
                owner: ctx.player,
                face: 0,
                bound_source: vrf_account_list.list@[old(global_state).vrf_account_pointer as int],
            },
        ),
        (r is Ok) ==> *final(global_state) == (GlobalState {
            vrf_account_pointer: advance_cursor(
                old(global_state).vrf_account_pointer as int,
                old(global_state).vrf_pool_size as int,
            ) as u32,
            ..*old(global_state)
        }),
{
    match store.find(ctx.player) {
        Some(_) => {
            return Err(Error::DuplicatePendingRequest);
        },
        None => {},
    }
    if vrf_account_list.list.len() == 0 {
        return Err(Error::EmptyPool);
    }
    let cursor = global_state.vrf_account_pointer;
    let source = vrf_account_list.list[cursor as usize];
    if ctx.source_authority != ctx.list_key {
        return Err(Error::SourceAuthorityMismatch);
    }

    let ghost s0 = store.records@;
    store.records.push(Dice { owner: ctx.player, face: 0, bound_source: source });
    proof {
        let s1 = store.records@;
        assert forall|a: int, b: int| 0 <= a < b < s1.len() implies s1[a].owner != s1[b].owner by {
            if b < s1.len() - 1 {
                assert(s1[a] == s0[a]);
                assert(s1[b] == s0[b]);
            } else {
                assert(s1[a] == s0[a]);
            }
        }
    }

    global_state.vrf_account_pointer = (cursor + 1) % global_state.vrf_pool_size;

    Ok(
        RandomnessRequest {
            source,
            record_key: ctx.player,
            switchboard_state_bump: global_state.switchboard_state_bump,
            permission_bump,
        },
    )
}

} // verus!
