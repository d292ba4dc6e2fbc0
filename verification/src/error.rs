use vstd::prelude::*;

verus! {

/// Failure kinds. Each operation surfaces a violated precondition as one of
/// these, terminal for the triggering transaction; none is retried here.
#[derive(Clone, Copy, PartialEq, Eq, Structural, Debug)]
pub enum Error {
    /// The identity asking to enlarge the pool is not the administrator.
    Unauthorized,
    /// A candidate source offered at enlargement does not declare this
    /// registry as its controlling authority.
    InvalidSourceAuthority,
    /// The source selected at dispatch time no longer declares this
    /// registry as its controlling authority.
    SourceAuthorityMismatch,
    /// A settlement callback arrived from a source other than the one the
    /// record's request was bound to.
    SourceMismatch,
    /// A request was made while the pool holds no sources.
    EmptyPool,
    /// The owner already has an outcome record in flight.
    DuplicatePendingRequest,
    /// The record's face was already written; settlement is single-use.
    AlreadySettled,
    /// The record is still pending, so there is nothing to claim.
    NotYetSettled,
    /// No outcome record exists under the given key.
    RecordNotFound,
}

} // verus!
