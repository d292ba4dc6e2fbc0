use vstd::prelude::*;

use crate::account_id::AccountId;
use crate::global_state::{registry_wf, GlobalState};
use crate::vrf_account_list::VrfAccountList;

verus! {

/// Input bundle of system initialization: the signing identity, which
/// becomes the administrator.
pub struct Initialize {
    pub admin: AccountId,
}

/// Creates the registry once, at system initialization: the signer
/// becomes the administrator, the pool starts empty, and the cursor at
/// zero.
pub fn handler(ctx: &Initialize, switchboard_state_bump: u8) -> (r: (GlobalState, VrfAccountList))
    ensures
        r.0.admin == ctx.admin,
        r.0.switchboard_state_bump == switchboard_state_bump,
        r.0.vrf_account_pointer == 0,
        r.0.vrf_pool_size == 0,
        r.1.list@.len() == 0,
        registry_wf(r.0, r.1),
{
    let global_state = GlobalState {
        admin: ctx.admin,
        vrf_account_pointer: 0,
        vrf_pool_size: 0,
        switchboard_state_bump,
    };
    let vrf_account_list = VrfAccountList { list: Vec::new() };
    (global_state, vrf_account_list)
}

} // verus!
