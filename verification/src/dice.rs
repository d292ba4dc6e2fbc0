use vstd::prelude::*;

use crate::account_id::AccountId;

verus! {

/// Per-player outcome record. `face == 0` means the request is still
/// pending; a face in `1..=6` means it settled. `bound_source` names the
/// single pool entry whose callback may settle this record.
#[derive(Clone, Copy, PartialEq, Eq, Structural, Debug)]
pub struct Dice {
    pub owner: AccountId,
    pub face: u8,
    pub bound_source: AccountId,
}

} // verus!
