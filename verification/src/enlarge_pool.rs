use vstd::prelude::*;

use crate::account_id::AccountId;
use crate::error::Error;
use crate::global_state::{registry_wf, GlobalState};
use crate::vrf_account_list::VrfAccountList;

verus! {

/// One source offered for enlargement: its identifier together with the
/// controlling authority its account declares, as read by the caller from
/// the candidate account.
#[derive(Clone, Copy, PartialEq, Eq, Structural, Debug)]
pub struct SourceCandidate {
    pub key: AccountId,
    pub authority: AccountId,
}

/// Input bundle of the enlargement operation: the signing identity, the
/// registry's own key (which every candidate must declare as authority),
/// and the candidates in the order they are to be appended.
pub struct EnlargePool {
    pub admin: AccountId,
    pub list_key: AccountId,
    pub new_sources: Vec<SourceCandidate>,
}

/// Every candidate declares `list_key` — this registry — as its
/// controlling authority.
pub open spec fn all_authorized(cands: Seq<SourceCandidate>, list_key: AccountId) -> bool {
    forall|i: int| 0 <= i < cands.len() ==> cands[i].authority == list_key
}

/// The identifiers of the candidates, in offer order.
pub open spec fn keys_of(cands: Seq<SourceCandidate>) -> Seq<AccountId> {
    cands.map_values(|c: SourceCandidate| c.key)
}

/// Enlarges the pool: only the administrator may, every candidate must
/// declare this registry as its authority, and on success all candidates
/// are appended in order while existing entries keep their indices. On any
/// failure the registry and the pool are left untouched; backing-storage
/// growth and its cost are the caller's follow-up with the storage
/// collaborator.
pub fn handler(
    ctx: &EnlargePool,
    global_state: &mut GlobalState,
    vrf_account_list: &mut VrfAccountList,
) -> (r: Result<(), Error>)
    requires
        registry_wf(*old(global_state), *old(vrf_account_list)),
        old(vrf_account_list).list@.len() + ctx.new_sources@.len() <= u32::MAX,
    ensures
        registry_wf(*final(global_state), *final(vrf_account_list)),
        ctx.admin != old(global_state).admin ==> r == Err::<(), Error>(Error::Unauthorized),
        ctx.admin == old(global_state).admin && !all_authorized(ctx.new_sources@, ctx.list_key)
            ==> r == Err::<(), Error>(Error::InvalidSourceAuthority),
        (r is Err) ==> *final(global_state) == *old(global_state)
            && final(vrf_account_list).list@ == old(vrf_account_list).list@,
        (r is Ok) <==> ctx.admin == old(global_state).admin
            && all_authorized(ctx.new_sources@, ctx.list_key),
        (r is Ok) ==> final(vrf_account_list).list@
            == old(vrf_account_list).list@ + keys_of(ctx.new_sources@),
        (r is Ok) ==> *final(global_state) == (GlobalState {
            vrf_pool_size: (old(global_state).vrf_pool_size + ctx.new_sources@.len()) as u32,
            ..*old(global_state)
        }),
{
    if ctx.admin != global_state.admin {
        return Err(Error::Unauthorized);
    }

    let n = ctx.new_sources.len();

    // Authority check over all candidates first, so that a rejected batch
    // leaves the pool untouched.
    let mut i: usize = 0;
    while i < n
        invariant
            n == ctx.new_sources@.len(),
            i <= n,
            forall|k: int| 0 <= k < i ==> ctx.new_sources@[k].authority == ctx.list_key,
            *global_state == *old(global_state),
            vrf_account_list.list@ == old(vrf_account_list).list@,
            ctx.admin == global_state.admin,
            registry_wf(*global_state, *vrf_account_list),
        decreases n - i,
    {
        if ctx.new_sources[i].authority != ctx.list_key {
            return Err(Error::InvalidSourceAuthority);
        }
        i = i + 1;
    }

    let ghost old_list = vrf_account_list.list@;
    let mut j: usize = 0;
    while j < n
        invariant
            n == ctx.new_sources@.len(),
            j <= n,
            old_list == old(vrf_account_list).list@,
            vrf_account_list.list@ == old_list + keys_of(ctx.new_sources@.subrange(0, j as int)),
            *global_state == *old(global_state),
            ctx.admin == global_state.admin,
            all_authorized(ctx.new_sources@, ctx.list_key),
        decreases n - j,
    {
        let ghost before = vrf_account_list.list@;
        vrf_account_list.list.push(ctx.new_sources[j].key);
        proof {
            assert(ctx.new_sources@.subrange(0, j + 1 as int)
                =~= ctx.new_sources@.subrange(0, j as int).push(ctx.new_sources@[j as int]));
            assert(keys_of(ctx.new_sources@.subrange(0, j + 1 as int))
                =~= keys_of(ctx.new_sources@.subrange(0, j as int)).push(
                ctx.new_sources@[j as int].key,
            ));
            assert(vrf_account_list.list@
                =~= old_list + keys_of(ctx.new_sources@.subrange(0, j + 1 as int)));
        }
        j = j + 1;
    }

    proof {
        assert(ctx.new_sources@.subrange(0, n as int) =~= ctx.new_sources@);
    }

    global_state.vrf_pool_size = global_state.vrf_pool_size + n as u32;

    Ok(())
}

} // verus!
