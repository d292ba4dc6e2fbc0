use vstd::prelude::*;

use crate::account_id::AccountId;
use crate::vrf_account_list::VrfAccountList;

verus! {

/// Singleton registry header: the administrator allowed to enlarge the
/// pool, the rotation cursor (`vrf_account_pointer`), the externally
/// tracked pool-size counter, and the bump the outer invocation layer
/// needs when forwarding a randomness request.
#[derive(Clone, Copy, PartialEq, Eq, Structural, Debug)]
pub struct GlobalState {
    pub admin: AccountId,
    pub vrf_account_pointer: u32,
    pub vrf_pool_size: u32,
    pub switchboard_state_bump: u8,
}

/// Well-formedness of the registry: the counter mirrors the pool's length
/// and the cursor stays inside the pool (pinned to zero while the pool is
/// empty). Established at initialization and preserved by every operation.
pub open spec fn registry_wf(gs: GlobalState, pool: VrfAccountList) -> bool {
    &&& gs.vrf_pool_size == pool.list@.len()
    &&& pool.list@.len() > 0 ==> gs.vrf_account_pointer < gs.vrf_pool_size
    &&& pool.list@.len() == 0 ==> gs.vrf_account_pointer == 0
}

} // verus!
