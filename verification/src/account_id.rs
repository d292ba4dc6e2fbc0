use vstd::prelude::*;

verus! {

/// Opaque identifier of an external account: a player identity, an oracle
/// source, the registry itself, or the administrator. The core only ever
/// compares identifiers for equality.
#[derive(Clone, Copy, PartialEq, Eq, Structural, Debug)]
pub struct AccountId {
    pub value: u64,
}

} // verus!
