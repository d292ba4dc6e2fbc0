use vstd::prelude::*;

use crate::account_id::AccountId;

verus! {

/// The pool: an ordered, append-only sequence of oracle source
/// identifiers. Entries are never reordered or removed, so an index handed
/// out once stays valid for the registry's lifetime.
pub struct VrfAccountList {
    pub list: Vec<AccountId>,
}

} // verus!
