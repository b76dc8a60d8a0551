//! Administrative surface: the free-form configuration store, ownership
//! transfer, contract deletion and code upgrade.
//!
//! Every mutating operation here demands the anti-replay proof and an
//! administrative caller — the owner or the parent authority; `upgrade` is
//! for the parent authority alone.  The library only decides; actually
//! deleting state, transferring the residual balance or deploying new code
//! is the surrounding layer's work, done only on an `Ok`.

use vstd::prelude::*;

use crate::Community;
use crate::ANTI_REPLAY_UNIT;
use crate::errors::CommunityError;
use crate::utils::spec_parent_bytes;

verus! {

use vstd::utf8::encode_utf8;

impl Community {
    /// The free-form string configuration store.
    pub fn get_args(&self) -> (r: &Vec<(String, String)>)
        ensures
            r@ == self.spec_args(),
    {
        &self.args
    }

    /// Replaces the whole configuration store with a new keyed mapping; its
    /// keys must be distinct.  Requires the anti-replay proof and an
    /// administrative caller; on any error nothing changes.
    pub fn set_args(
        &mut self,
        caller: &String,
        current_account: &String,
        args: Vec<(String, String)>,
        attached_deposit: u128,
    ) -> (r: Result<(), CommunityError>)
        requires
            old(self).wf(),
            crate::unique_arg_keys(args@),
        ensures
            final(self).wf(),
            attached_deposit != ANTI_REPLAY_UNIT ==> r == Err::<(), CommunityError>(
                CommunityError::ReplayProofMissing,
            ) && *final(self) == *old(self),
            attached_deposit == ANTI_REPLAY_UNIT && !old(self).spec_is_admin(
                caller@,
                current_account@,
            ) ==> r == Err::<(), CommunityError>(CommunityError::AuthorizationDenied) && *final(self)
                == *old(self),
            attached_deposit == ANTI_REPLAY_UNIT && old(self).spec_is_admin(
                caller@,
                current_account@,
            ) ==> {
                &&& r is Ok
                &&& final(self).spec_args() == args@
                &&& final(self).spec_owner() == old(self).spec_owner()
                &&& final(self).spec_public_key() == old(self).spec_public_key()
                &&& final(self).spec_public_filter() == old(self).spec_public_filter()
                &&& final(self).spec_encryption_filter() == old(self).spec_encryption_filter()
                &&& final(self).spec_relationship_filter() == old(self).spec_relationship_filter()
                &&& final(self).spec_access() == old(self).spec_access()
                &&& final(self).spec_drip() == old(self).spec_drip()
                &&& final(self).spec_reports() == old(self).spec_reports()
                &&& final(self).spec_roles() == old(self).spec_roles()
                &&& final(self).spec_relationships() == old(self).spec_relationships()
            },
    {
        if attached_deposit != ANTI_REPLAY_UNIT {
            return Err(CommunityError::ReplayProofMissing);
        }
        if !self.is_admin(caller, current_account) {
            return Err(CommunityError::AuthorizationDenied);
        }
        self.args = args;
        Ok(())
    }

    /// Transfers ownership to `account_id`.  Requires the anti-replay proof
    /// and an administrative caller; on any error nothing changes.
    pub fn set_owner(
        &mut self,
        caller: &String,
        current_account: &String,
        account_id: String,
        attached_deposit: u128,
    ) -> (r: Result<(), CommunityError>)
        requires
            old(self).wf(),
        ensures
            final(self).wf(),
            attached_deposit != ANTI_REPLAY_UNIT ==> r == Err::<(), CommunityError>(
                CommunityError::ReplayProofMissing,
            ) && *final(self) == *old(self),
            attached_deposit == ANTI_REPLAY_UNIT && !old(self).spec_is_admin(
                caller@,
                current_account@,
            ) ==> r == Err::<(), CommunityError>(CommunityError::AuthorizationDenied) && *final(self)
                == *old(self),
            attached_deposit == ANTI_REPLAY_UNIT && old(self).spec_is_admin(
                caller@,
                current_account@,
            ) ==> {
                &&& r is Ok
                &&& final(self).spec_owner() == account_id@
                &&& final(self).spec_public_key() == old(self).spec_public_key()
                &&& final(self).spec_public_filter() == old(self).spec_public_filter()
                &&& final(self).spec_encryption_filter() == old(self).spec_encryption_filter()
                &&& final(self).spec_relationship_filter() == old(self).spec_relationship_filter()
                &&& final(self).spec_access() == old(self).spec_access()
                &&& final(self).spec_drip() == old(self).spec_drip()
                &&& final(self).spec_reports() == old(self).spec_reports()
                &&& final(self).spec_roles() == old(self).spec_roles()
                &&& final(self).spec_relationships() == old(self).spec_relationships()
                &&& final(self).spec_args() == old(self).spec_args()
            },
    {
        if attached_deposit != ANTI_REPLAY_UNIT {
            return Err(CommunityError::ReplayProofMissing);
        }
        if !self.is_admin(caller, current_account) {
            return Err(CommunityError::AuthorizationDenied);
        }
        self.owner_id = account_id;
        Ok(())
    }

    /// Decides whether `caller` may irreversibly delete this community's
    /// state and claim the residual balance: allowed exactly for an
    /// administrative caller presenting the anti-replay proof.  The actual
    /// removal and transfer happen outside the library, only on `Ok`.
    pub fn del_contract(
        &self,
        caller: &String,
        current_account: &String,
        attached_deposit: u128,
    ) -> (r: Result<(), CommunityError>)
        ensures
            r is Ok <==> attached_deposit == ANTI_REPLAY_UNIT && self.spec_is_admin(
                caller@,
                current_account@,
            ),
            attached_deposit != ANTI_REPLAY_UNIT ==> r == Err::<(), CommunityError>(
                CommunityError::ReplayProofMissing,
            ),
            attached_deposit == ANTI_REPLAY_UNIT && !self.spec_is_admin(caller@, current_account@)
                ==> r == Err::<(), CommunityError>(CommunityError::AuthorizationDenied),
    {
        if attached_deposit != ANTI_REPLAY_UNIT {
            return Err(CommunityError::ReplayProofMissing);
        }
        if !self.is_admin(caller, current_account) {
            return Err(CommunityError::AuthorizationDenied);
        }
        Ok(())
    }

}

/// Decides whether `caller` may replace the code of the contract hosted at
/// `current_account`: the parent authority alone.  Deploying the new code
/// bytes happens outside the library, only on `Ok`.
pub fn upgrade(caller: &String, current_account: &String) -> (r: Result<(), CommunityError>)
    ensures
        r is Ok <==> spec_parent_bytes(encode_utf8(current_account@)) == Some(
            encode_utf8(caller@),
        ),
        r is Err ==> r->Err_0 == CommunityError::AuthorizationDenied,
{
    if crate::utils::is_parent(caller.as_str(), current_account.as_str()) {
        Ok(())
    } else {
        Err(CommunityError::AuthorizationDenied)
    }
}

} // verus!
