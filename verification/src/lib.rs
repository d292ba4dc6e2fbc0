//! Pooled-die core: a growable pool of external verifiable-randomness
//! sources with a rotating cursor, per-player outcome records bound to the
//! source that was asked, authenticated settlement of the returned random
//! bytes into a die face, and exactly-once claiming of a settled face.
//!
//! Every operation is a transition on plain values; the storage substrate
//! and the oracle network are collaborators behind this boundary and are
//! handed values in, and actions out, by the callers of these functions.

use vstd::prelude::*;

pub mod account_id;
pub mod claim_dice;
pub mod create_dice;
pub mod dice;
pub mod dice_store;
pub mod enlarge_pool;
pub mod error;
pub mod global_state;
pub mod initialize;
pub mod rotation;
pub mod settle_dice;
pub mod vrf_account_list;

pub use crate::account_id::AccountId;
pub use crate::claim_dice::ClaimDice;
pub use crate::create_dice::{CreateDice, RandomnessRequest};
pub use crate::dice::Dice;
pub use crate::dice_store::DiceStore;
pub use crate::enlarge_pool::{EnlargePool, SourceCandidate};
pub use crate::error::Error;
pub use crate::global_state::GlobalState;
pub use crate::initialize::Initialize;
pub use crate::settle_dice::SettleDice;
pub use crate::vrf_account_list::VrfAccountList;

use crate::claim_dice::spec_claim;
use crate::dice_store::{has_record, store_wf};
use crate::enlarge_pool::{all_authorized, keys_of};
use crate::global_state::registry_wf;
use crate::rotation::advance_cursor;
use crate::settle_dice::{spec_settle, PAYLOAD_LEN};

verus! {

/// Creates the registry once; the signer becomes the administrator.
pub fn initialize(ctx: &Initialize, switchboard_state_bump: u8) -> (r: (
    GlobalState,
    VrfAccountList,
))
    ensures
        r.0.admin == ctx.admin,
        r.0.switchboard_state_bump == switchboard_state_bump,
        r.0.vrf_account_pointer == 0,
        r.0.vrf_pool_size == 0,
        r.1.list@.len() == 0,
        registry_wf(r.0, r.1),
{
    crate::initialize::handler(ctx, switchboard_state_bump)
}

/// Appends the offered sources to the pool; administrator only, all
/// candidates must name this registry as authority, and a rejected batch
/// changes nothing.
pub fn enlarge_pool(
    ctx: &EnlargePool,
    global_state: &mut GlobalState,
    vrf_account_list: &mut VrfAccountList,
) -> (r: Result<(), Error>)
    requires
        registry_wf(*old(global_state), *old(vrf_account_list)),
        old(vrf_account_list).list@.len() + ctx.new_sources@.len() <= u32::MAX,
    ensures
        registry_wf(*final(global_state), *final(vrf_account_list)),
        ctx.admin != old(global_state).admin ==> r == Err::<(), Error>(Error::Unauthorized),
        ctx.admin == old(global_state).admin && !all_authorized(ctx.new_sources@, ctx.list_key)
            ==> r == Err::<(), Error>(Error::InvalidSourceAuthority),
        (r is Err) ==> *final(global_state) == *old(global_state)
            && final(vrf_account_list).list@ == old(vrf_account_list).list@,
        (r is Ok) <==> ctx.admin == old(global_state).admin
            && all_authorized(ctx.new_sources@, ctx.list_key),
        (r is Ok) ==> final(vrf_account_list).list@ == old(vrf_account_list).list@ + keys_of(
            ctx.new_sources@,
        ),
        (r is Ok) ==> *final(global_state) == (GlobalState {
            vrf_pool_size: (old(global_state).vrf_pool_size + ctx.new_sources@.len()) as u32,
            ..*old(global_state)
        }),
{
    crate::enlarge_pool::handler(ctx, global_state, vrf_account_list)
}

/// Creates a pending record bound to the source at the cursor and
/// advances the cursor; atomic on any failure.
pub fn create_dice(
    ctx: &CreateDice,
    permission_bump: u8,
    global_state: &mut GlobalState,
    vrf_account_list: &VrfAccountList,
    store: &mut DiceStore,
) -> (r: Result<RandomnessRequest, Error>)
    requires
        registry_wf(*old(global_state), *vrf_account_list),
        store_wf(old(store).records@),
    ensures
        registry_wf(*final(global_state), *vrf_account_list),
        store_wf(final(store).records@),
        has_record(old(store).records@, ctx.player) ==> r == Err::<RandomnessRequest, Error>(
            Error::DuplicatePendingRequest,
        ),
        !has_record(old(store).records@, ctx.player) && vrf_account_list.list@.len() == 0 ==> r
            == Err::<RandomnessRequest, Error>(Error::EmptyPool),
        !has_record(old(store).records@, ctx.player) && vrf_account_list.list@.len() > 0
            && ctx.source_authority != ctx.list_key ==> r == Err::<RandomnessRequest, Error>(
            Error::SourceAuthorityMismatch,
        ),
        (r is Err) ==> *final(global_state) == *old(global_state) && final(store).records@ == old(
            store,
        ).records@,
        (r is Ok) <==> !has_record(old(store).records@, ctx.player)
            && vrf_account_list.list@.len() > 0 && ctx.source_authority == ctx.list_key,
        (r is Ok) ==> r == Ok::<RandomnessRequest, Error>(
            RandomnessRequest {
                source: vrf_account_list.list@[old(global_state).vrf_account_pointer as int],
                record_key: ctx.player,
                switchboard_state_bump: old(global_state).switchboard_state_bump,
                permission_bump: permission_bump,
            },
        ),
        (r is Ok) ==> final(store).records@ == old(store).records@.push(
            Dice {
                owner: ctx.player,
                face: 0,
                bound_source: vrf_account_list.list@[old(global_state).vrf_account_pointer as int],
            },
        ),
        (r is Ok) ==> *final(global_state) == (GlobalState {
            vrf_account_pointer: advance_cursor(
                old(global_state).vrf_account_pointer as int,
                old(global_state).vrf_pool_size as int,
            ) as u32,
            ..*old(global_state)
        }),
{
    crate::create_dice::handler(ctx, permission_bump, global_state, vrf_account_list, store)
}

/// Settles the record the callback names, after authenticating the
/// callback's source against the record's binding.
pub fn settle_dice(ctx: &SettleDice, store: &mut DiceStore) -> (r: Result<(), Error>)
    requires
        store_wf(old(store).records@),
        ctx.payload@.len() == PAYLOAD_LEN,
    ensures
        final(store).records@ == spec_settle(
            old(store).records@,
            ctx.callback_source,
            ctx.callback_record_key,
            ctx.payload@,
        ).0,
        r == spec_settle(
            old(store).records@,
            ctx.callback_source,
            ctx.callback_record_key,
            ctx.payload@,
        ).1,
        store_wf(final(store).records@),
{
    crate::settle_dice::handler(ctx, store)
}

/// Consumes the owner's settled record exactly once: returns the face and
/// destroys the record.
pub fn claim_dice(ctx: &ClaimDice, store: &mut DiceStore) -> (r: Result<u8, Error>)
    requires
        store_wf(old(store).records@),
    ensures
        final(store).records@ == spec_claim(old(store).records@, ctx.player).0,
        r == spec_claim(old(store).records@, ctx.player).1,
        store_wf(final(store).records@),
{
    crate::claim_dice::handler(ctx, store)
}

} // verus!
