use vstd::prelude::*;

verus! {

/// Every way an operation on a community can fail.  Each failure aborts the
/// whole operation: no partial state change survives an `Err`.
#[derive(Clone, Copy, Debug, PartialEq, Eq, Structural)]
pub enum CommunityError {
    /// The caller is neither the owner nor the parent authority.
    AuthorizationDenied,
    /// The configured access condition evaluated to deny.
    AccessConditionRejected,
    /// The required anti-replay payment marker (exactly one unit) was absent.
    ReplayProofMissing,
    /// A lifecycle operation ran before the state was initialized.
    NotInitialized,
    /// A one-time lifecycle operation ran twice.
    AlreadyInitialized,
    /// A storage refund came out negative: usage shrank unexpectedly or the
    /// attached deposit does not cover the measured growth.
    StorageAccountingError,
}

/// The reason string each error kind surfaces to callers.
pub open spec fn spec_message(e: CommunityError) -> Seq<char> {
    match e {
        CommunityError::AuthorizationDenied => "authorization denied: owner or parent authority required"@,
        CommunityError::AccessConditionRejected => "access condition rejected the actor"@,
        CommunityError::ReplayProofMissing => "anti-replay proof missing: attach exactly one unit"@,
        CommunityError::NotInitialized => "state is not initialized"@,
        CommunityError::AlreadyInitialized => "state is already initialized"@,
        CommunityError::StorageAccountingError => "storage accounting error: refund would be negative"@,
    }
}

impl CommunityError {
    /// A distinguishable, human-readable reason for this failure.
    pub fn message(&self) -> (r: &'static str)
        ensures
            r@ == spec_message(*self),
    {
        match self {
            CommunityError::AuthorizationDenied => "authorization denied: owner or parent authority required",
            CommunityError::AccessConditionRejected => "access condition rejected the actor",
            CommunityError::ReplayProofMissing => "anti-replay proof missing: attach exactly one unit",
            CommunityError::NotInitialized => "state is not initialized",
            CommunityError::AlreadyInitialized => "state is already initialized",
            CommunityError::StorageAccountingError => "storage accounting error: refund would be negative",
        }
    }
}

} // verus!
