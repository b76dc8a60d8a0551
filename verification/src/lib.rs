//! Persistent state and accounting core of a community entity: a membership
//! registry gated by configurable access rules, a continuous token-accrual
//! ("drip") engine rewarding members over time, a role/permission model, and
//! seeded bloom filters backing fast probabilistic membership queries.
//!
//! The `Community` aggregate owns one instance of each subsystem; every
//! mutation goes through one of its operations, applied sequentially, and
//! each operation either fully commits or fails with a distinguishable error
//! and no state change.  Callers are authenticated by the surrounding
//! transport layer, which passes the caller's identity, the attached deposit
//! and the current time in as plain values.

pub mod access;
pub mod bloom;
pub mod drip;
pub mod errors;
pub mod owner;
pub mod role;
pub mod utils;

use vstd::prelude::*;

use crate::access::Access;
use crate::access::RelationshipFact;
use crate::access::spec_holds;
use crate::bloom::Bloom;
use crate::drip::Drip;
use crate::errors::CommunityError;
use crate::role::Role;
use crate::role::RoleRegistry;
use crate::utils::spec_parent_bytes;
use crate::utils::spec_storage_refund;
use crate::utils::storage_refund;

verus! {

use vstd::string::StringSliceAdditionalSpecFns;
use vstd::utf8::encode_utf8;

/// The exact deposit that serves as the anti-replay proof: one indivisible
/// unit of value attached to the call.
pub const ANTI_REPLAY_UNIT: u128 = 1;

/// Bytes of persistent storage a member record occupies beyond the account
/// id itself (checkpoint, balance and keying overhead).
pub const MEMBER_STORAGE_OVERHEAD: u64 = 40;

/// How many items each filter is sized for.
pub const FILTER_EXPECTED_ITEMS: u64 = 1_000_000;

/// Each filter's target false-positive rate, in parts per million.
pub const FILTER_FP_PPM: u64 = 100_000;

/// What a freshly constructed filter of the community looks like: salted by
/// `seed`, sized by the standard formulas for `FILTER_EXPECTED_ITEMS` items
/// at the `FILTER_FP_PPM` target rate, and with every bit clear.
pub open spec fn spec_fresh_filter(f: Bloom, seed: Seq<u8>) -> bool {
    &&& f.spec_seed() == seed
    &&& f.spec_k() == crate::bloom::spec_hash_count(FILTER_FP_PPM)
    &&& f.spec_bits().len() == crate::bloom::spec_bit_count(
        FILTER_EXPECTED_ITEMS,
        crate::bloom::spec_hash_count(FILTER_FP_PPM),
    )
    &&& forall|j: int| 0 <= j < f.spec_bits().len() ==> !f.spec_bits()[j]
}

/// Whether the configuration store holds each key at most once, as a keyed
/// mapping must.
pub open spec fn unique_arg_keys(args: Seq<(String, String)>) -> bool {
    forall|i: int, j: int| 0 <= i < j < args.len() ==> args[i].0@ != args[j].0@
}

/// One report filed against an account's content: the community only
/// carries these as a (account, content-hash)-keyed table; it never computes
/// over them.
pub struct ReportEntry {
    /// The account the report is about.
    pub account: String,
    /// The hash of the reported content.
    pub content_hash: String,
    /// The report itself.
    pub report: String,
}

/// The whole persistent state of one community.
pub struct Community {
    owner_id: String,
    public_key: String,
    public_bloom_filter: Bloom,
    encryption_bloom_filter: Bloom,
    relationship_bloom_filter: Bloom,
    access: Option<Access>,
    reports: Vec<ReportEntry>,
    drip: Drip,
    roles: RoleRegistry,
    relationships: Vec<RelationshipFact>,
    args: Vec<(String, String)>,
}

/// The previous state layout: no relationship filter, no drip engine, no
/// roles, and a plain member table.
pub struct OldCommunity {
    /// The owning identity.
    pub owner_id: String,
    /// The community's public key.
    pub public_key: String,
    /// The public membership filter.
    pub public_bloom_filter: Bloom,
    /// The encrypted-membership filter.
    pub encryption_bloom_filter: Bloom,
    /// The optional access gate.
    pub access: Option<Access>,
    /// The legacy member table, cleared by migration.
    pub members: Vec<(String, u32)>,
}

impl Community {
    /// The owning identity.
    pub closed spec fn spec_owner(&self) -> Seq<char> {
        self.owner_id@
    }

    /// The community's public key.
    pub closed spec fn spec_public_key(&self) -> Seq<char> {
        self.public_key@
    }

    /// The public membership filter.
    pub closed spec fn spec_public_filter(&self) -> Bloom {
        self.public_bloom_filter
    }

    /// The encrypted-membership filter.
    pub closed spec fn spec_encryption_filter(&self) -> Bloom {
        self.encryption_bloom_filter
    }

    /// The relationship filter.
    pub closed spec fn spec_relationship_filter(&self) -> Bloom {
        self.relationship_bloom_filter
    }

    /// The optional access gate.
    pub closed spec fn spec_access(&self) -> Option<Access> {
        self.access
    }

    /// The report table.
    pub closed spec fn spec_reports(&self) -> Seq<ReportEntry> {
        self.reports@
    }

    /// The accrual engine.
    pub closed spec fn spec_drip(&self) -> Drip {
        self.drip
    }

    /// The role table.
    pub closed spec fn spec_roles(&self) -> RoleRegistry {
        self.roles
    }

    /// The recorded relationship facts.
    pub closed spec fn spec_relationships(&self) -> Seq<RelationshipFact> {
        self.relationships@
    }

    /// The free-form configuration store.
    pub closed spec fn spec_args(&self) -> Seq<(String, String)> {
        self.args@
    }

    /// Every subsystem is well-formed and the configuration store is a
    /// proper keyed mapping.
    pub open spec fn wf(&self) -> bool {
        &&& self.spec_drip().wf()
        &&& self.spec_roles().wf()
        &&& self.spec_public_filter().wf()
        &&& self.spec_encryption_filter().wf()
        &&& self.spec_relationship_filter().wf()
        &&& unique_arg_keys(self.spec_args())
    }

    /// Whether `caller` may perform administrative actions: the owner, or
    /// the parent authority (the community's account id with its first
    /// dot-separated segment removed).
    pub open spec fn spec_is_admin(&self, caller: Seq<char>, current_account: Seq<char>) -> bool {
        caller == self.spec_owner() || spec_parent_bytes(encode_utf8(current_account)) == Some(
            encode_utf8(caller),
        )
    }

    /// Whether the configured access gate lets `caller` join: with no access
    /// gate everyone is allowed; with one, its condition must hold.
    pub open spec fn spec_join_allowed(&self, caller: Seq<char>) -> bool {
        match self.spec_access() {
            None => true,
            Some(a) => spec_holds(a.condition, caller, self.spec_roles(), self.spec_relationships()),
        }
    }

    /// The storage growth a join by `caller` causes: one member record, or
    /// nothing when `caller` already is a member.
    pub open spec fn spec_join_bytes(&self, caller: Seq<char>) -> int {
        if self.spec_drip().spec_is_member(caller) {
            0
        } else {
            encode_utf8(caller).len() + MEMBER_STORAGE_OVERHEAD
        }
    }

    /// A fresh community owned by `owner_id`: empty filters seeded
    /// "public", "encrypt" and "relationship", no access gate, no roles, no
    /// facts, no reports, no configuration, and the owner joined to the
    /// accrual engine with a checkpoint at `now`.
    pub fn new(owner_id: String, public_key: String, now: u64) -> (r: Community)
        ensures
            r.wf(),
            r.spec_owner() == owner_id@,
            r.spec_public_key() == public_key@,
            r.spec_access() is None,
            r.spec_roles().spec_entries().len() == 0,
            r.spec_relationships().len() == 0,
            r.spec_args().len() == 0,
            r.spec_reports().len() == 0,
            r.spec_drip().spec_time() == now,
            r.spec_drip().spec_members().len() == 1,
            r.spec_drip().spec_members()[0].account@ == owner_id@,
            r.spec_drip().spec_members()[0].checkpoint == now,
            r.spec_drip().spec_members()[0].accrued == 0,
            spec_fresh_filter(r.spec_public_filter(), "public".spec_bytes()),
            spec_fresh_filter(r.spec_encryption_filter(), "encrypt".spec_bytes()),
            spec_fresh_filter(r.spec_relationship_filter(), "relationship".spec_bytes()),
    {
        let mut drip = Drip::new();
        drip.join(&owner_id, now);
        Community {
            owner_id,
            public_key,
            public_bloom_filter: Bloom::new_for_fp_rate_with_seed(
                FILTER_EXPECTED_ITEMS,
                FILTER_FP_PPM,
                "public",
            ),
            encryption_bloom_filter: Bloom::new_for_fp_rate_with_seed(
                FILTER_EXPECTED_ITEMS,
                FILTER_FP_PPM,
                "encrypt",
            ),
            relationship_bloom_filter: Bloom::new_for_fp_rate_with_seed(
                FILTER_EXPECTED_ITEMS,
                FILTER_FP_PPM,
                "relationship",
            ),
            access: None,
            reports: Vec::new(),
            drip,
            roles: RoleRegistry::new(),
            relationships: Vec::new(),
            args: Vec::new(),
        }
    }

    /// Transforms the previous state layout into the current one.  Only the
    /// owning identity may migrate.  The legacy member table is cleared; the
    /// owner, public key, both carried filters and the access gate move over
    /// unchanged; the relationship filter, the accrual engine, the roles and
    /// everything else start empty.
    pub fn migrate(old_state: &mut OldCommunity, caller: &String) -> (r: Result<
        Community,
        CommunityError,
    >)
        ensures
            caller@ != old(old_state).owner_id@ ==> r == Err::<Community, CommunityError>(
                CommunityError::AuthorizationDenied,
            ) && *final(old_state) == *old(old_state),
            caller@ == old(old_state).owner_id@ ==> {
                &&& r is Ok
                &&& final(old_state).members@.len() == 0
                &&& final(old_state).owner_id == old(old_state).owner_id
                &&& final(old_state).public_key == old(old_state).public_key
                &&& final(old_state).public_bloom_filter == old(old_state).public_bloom_filter
                &&& final(old_state).encryption_bloom_filter == old(
                    old_state,
                ).encryption_bloom_filter
                &&& final(old_state).access is None
                &&& {
                    let c = r->Ok_0;
                    &&& c.spec_owner() == old(old_state).owner_id@
                    &&& c.spec_public_key() == old(old_state).public_key@
                    &&& c.spec_public_filter().spec_bits() == old(
                        old_state,
                    ).public_bloom_filter.spec_bits()
                    &&& c.spec_public_filter().spec_k() == old(
                        old_state,
                    ).public_bloom_filter.spec_k()
                    &&& c.spec_public_filter().spec_seed() == old(
                        old_state,
                    ).public_bloom_filter.spec_seed()
                    &&& c.spec_encryption_filter().spec_bits() == old(
                        old_state,
                    ).encryption_bloom_filter.spec_bits()
                    &&& c.spec_encryption_filter().spec_k() == old(
                        old_state,
                    ).encryption_bloom_filter.spec_k()
                    &&& c.spec_encryption_filter().spec_seed() == old(
                        old_state,
                    ).encryption_bloom_filter.spec_seed()
                    &&& c.spec_access() == old(old_state).access
                    &&& spec_fresh_filter(
                        c.spec_relationship_filter(),
                        "relationship".spec_bytes(),
                    )
                    &&& c.spec_drip().spec_members().len() == 0
                    &&& c.spec_drip().spec_time() == 0
                    &&& c.spec_roles().spec_entries().len() == 0
                    &&& c.spec_relationships().len() == 0
                    &&& c.spec_args().len() == 0
                    &&& c.spec_reports().len() == 0
                    &&& (old(old_state).public_bloom_filter.wf()
                        && old(old_state).encryption_bloom_filter.wf() ==> c.wf())
                }
            },
    {
        if !(*caller == old_state.owner_id) {
            return Err(CommunityError::AuthorizationDenied);
        }
        old_state.members.clear();
        let this = Community {
            owner_id: old_state.owner_id.clone(),
            public_key: old_state.public_key.clone(),
            public_bloom_filter: old_state.public_bloom_filter.duplicate(),
            encryption_bloom_filter: old_state.encryption_bloom_filter.duplicate(),
            relationship_bloom_filter: Bloom::new_for_fp_rate_with_seed(
                FILTER_EXPECTED_ITEMS,
                FILTER_FP_PPM,
                "relationship",
            ),
            access: old_state.access.take(),
            reports: Vec::new(),
            drip: Drip::new(),
            roles: RoleRegistry::new(),
            relationships: Vec::new(),
            args: Vec::new(),
        };
        Ok(this)
    }

    /// An actor joins the community.  With an access gate configured the
    /// gate's condition must allow the actor; a passing actor (or any actor,
    /// without a gate) is registered in the accrual engine with a checkpoint
    /// at `now` and marked in the public filter.  The attached deposit must
    /// cover the storage growth; whatever exceeds it is returned.  On any
    /// error nothing changes.
    pub fn join(&mut self, caller: &String, attached_deposit: u128, now: u64) -> (r: Result<
        u128,
        CommunityError,
    >)
        requires
            old(self).wf(),
            now >= old(self).spec_drip().spec_time(),
            encode_utf8(caller@).len() <= usize::MAX,
            encode_utf8(caller@).len() + MEMBER_STORAGE_OVERHEAD <= u64::MAX,
        ensures
            final(self).wf(),
            !old(self).spec_join_allowed(caller@) ==> r == Err::<u128, CommunityError>(
                CommunityError::AccessConditionRejected,
            ) && *final(self) == *old(self),
            old(self).spec_join_allowed(caller@) ==> {
                let paid = spec_storage_refund(
                    0,
                    old(self).spec_join_bytes(caller@) as u64,
                    attached_deposit,
                );
                match paid {
                    Err(e) => r == Err::<u128, CommunityError>(e) && *final(self) == *old(self),
                    Ok(refund) => {
                        &&& r == Ok::<u128, CommunityError>(refund)
                        &&& Drip::spec_joined(
                            old(self).spec_drip(),
                            final(self).spec_drip(),
                            caller@,
                            now,
                        )
                        &&& Bloom::spec_inserted(
                            old(self).spec_public_filter(),
                            final(self).spec_public_filter(),
                            encode_utf8(caller@),
                        )
                        &&& final(self).spec_public_filter().spec_contains(encode_utf8(caller@))
                        &&& final(self).spec_owner() == old(self).spec_owner()
                        &&& final(self).spec_public_key() == old(self).spec_public_key()
                        &&& final(self).spec_encryption_filter() == old(
                            self,
                        ).spec_encryption_filter()
                        &&& final(self).spec_relationship_filter() == old(
                            self,
                        ).spec_relationship_filter()
                        &&& final(self).spec_access() == old(self).spec_access()
                        &&& final(self).spec_reports() == old(self).spec_reports()
                        &&& final(self).spec_roles() == old(self).spec_roles()
                        &&& final(self).spec_relationships() == old(self).spec_relationships()
                        &&& final(self).spec_args() == old(self).spec_args()
                    },
                }
            },
    {
        let allowed = match &self.access {
            None => true,
            Some(a) => match a.check_permission(caller, &self.roles, &self.relationships) {
                Ok(_) => true,
                Err(_) => false,
            },
        };
        if !allowed {
            return Err(CommunityError::AccessConditionRejected);
        }
        let delta: u64 = if self.drip.is_member(caller) {
            0
        } else {
            caller.as_str().len() as u64 + MEMBER_STORAGE_OVERHEAD
        };
        let refund = match storage_refund(0, delta, attached_deposit) {
            Ok(x) => x,
            Err(e) => {
                return Err(e);
            },
        };
        self.drip.join(caller, now);
        self.public_bloom_filter.insert(caller.as_str());
        Ok(refund)
    }

    /// An actor leaves the community: its accrual record is removed and the
    /// pending balance forfeited.  Requires the anti-replay proof — exactly
    /// one unit of value attached — and fails with nothing changed when it
    /// is missing.  The filters keep their bits: they support no deletion.
    pub fn quit(&mut self, caller: &String, attached_deposit: u128) -> (r: Result<
        (),
        CommunityError,
    >)
        requires
            old(self).wf(),
        ensures
            final(self).wf(),
            attached_deposit != ANTI_REPLAY_UNIT ==> r == Err::<(), CommunityError>(
                CommunityError::ReplayProofMissing,
            ) && *final(self) == *old(self),
            attached_deposit == ANTI_REPLAY_UNIT ==> {
                &&& r is Ok
                &&& Drip::spec_quitted(old(self).spec_drip(), final(self).spec_drip(), caller@)
                &&& !final(self).spec_drip().spec_is_member(caller@)
                &&& final(self).spec_owner() == old(self).spec_owner()
                &&& final(self).spec_public_key() == old(self).spec_public_key()
                &&& final(self).spec_public_filter() == old(self).spec_public_filter()
                &&& final(self).spec_encryption_filter() == old(self).spec_encryption_filter()
                &&& final(self).spec_relationship_filter() == old(self).spec_relationship_filter()
                &&& final(self).spec_access() == old(self).spec_access()
                &&& final(self).spec_reports() == old(self).spec_reports()
                &&& final(self).spec_roles() == old(self).spec_roles()
                &&& final(self).spec_relationships() == old(self).spec_relationships()
                &&& final(self).spec_args() == old(self).spec_args()
            },
    {
        if attached_deposit != ANTI_REPLAY_UNIT {
            return Err(CommunityError::ReplayProofMissing);
        }
        self.drip.quit(caller);
        Ok(())
    }

    /// Settles the caller's accrual up to `now`, returns the whole balance
    /// and resets it to zero; a non-member collects zero.  Requires the
    /// anti-replay proof and fails with nothing changed when it is missing.
    pub fn collect_drip(&mut self, caller: &String, attached_deposit: u128, now: u64) -> (r: Result<
        u128,
        CommunityError,
    >)
        requires
            old(self).wf(),
            now >= old(self).spec_drip().spec_time(),
            old(self).spec_drip().spec_pending(caller@, now) <= u128::MAX,
        ensures
            final(self).wf(),
            attached_deposit != ANTI_REPLAY_UNIT ==> r == Err::<u128, CommunityError>(
                CommunityError::ReplayProofMissing,
            ) && *final(self) == *old(self),
            attached_deposit == ANTI_REPLAY_UNIT ==> {
                &&& r == Ok::<u128, CommunityError>(
                    old(self).spec_drip().spec_pending(caller@, now) as u128,
                )
                &&& Drip::spec_collected(
                    old(self).spec_drip(),
                    final(self).spec_drip(),
                    caller@,
                    now,
                )
                &&& final(self).spec_owner() == old(self).spec_owner()
                &&& final(self).spec_public_key() == old(self).spec_public_key()
                &&& final(self).spec_public_filter() == old(self).spec_public_filter()
                &&& final(self).spec_encryption_filter() == old(self).spec_encryption_filter()
                &&& final(self).spec_relationship_filter() == old(self).spec_relationship_filter()
                &&& final(self).spec_access() == old(self).spec_access()
                &&& final(self).spec_reports() == old(self).spec_reports()
                &&& final(self).spec_roles() == old(self).spec_roles()
                &&& final(self).spec_relationships() == old(self).spec_relationships()
                &&& final(self).spec_args() == old(self).spec_args()
            },
    {
        if attached_deposit != ANTI_REPLAY_UNIT {
            return Err(CommunityError::ReplayProofMissing);
        }
        let amt = self.drip.get_and_clear_drip(caller, now);
        Ok(amt)
    }

    /// Installs, replaces or removes the access gate.  Requires the
    /// anti-replay proof and an administrative caller.
    pub fn set_access(
        &mut self,
        caller: &String,
        current_account: &String,
        access: Option<Access>,
        attached_deposit: u128,
    ) -> (r: Result<(), CommunityError>)
        requires
            old(self).wf(),
        ensures
            final(self).wf(),
            attached_deposit != ANTI_REPLAY_UNIT ==> r == Err::<(), CommunityError>(
                CommunityError::ReplayProofMissing,
            ) && *final(self) == *old(self),
            attached_deposit == ANTI_REPLAY_UNIT && !old(self).spec_is_admin(
                caller@,
                current_account@,
            ) ==> r == Err::<(), CommunityError>(CommunityError::AuthorizationDenied) && *final(self)
                == *old(self),
            attached_deposit == ANTI_REPLAY_UNIT && old(self).spec_is_admin(
                caller@,
                current_account@,
            ) ==> {
                &&& r is Ok
                &&& final(self).spec_access() == access
                &&& final(self).spec_owner() == old(self).spec_owner()
                &&& final(self).spec_public_key() == old(self).spec_public_key()
                &&& final(self).spec_public_filter() == old(self).spec_public_filter()
                &&& final(self).spec_encryption_filter() == old(self).spec_encryption_filter()
                &&& final(self).spec_relationship_filter() == old(self).spec_relationship_filter()
                &&& final(self).spec_drip() == old(self).spec_drip()
                &&& final(self).spec_reports() == old(self).spec_reports()
                &&& final(self).spec_roles() == old(self).spec_roles()
                &&& final(self).spec_relationships() == old(self).spec_relationships()
                &&& final(self).spec_args() == old(self).spec_args()
            },
    {
        if attached_deposit != ANTI_REPLAY_UNIT {
            return Err(CommunityError::ReplayProofMissing);
        }
        if !self.is_admin(caller, current_account) {
            return Err(CommunityError::AuthorizationDenied);
        }
        self.access = access;
        Ok(())
    }

    /// Creates or replaces a role.  Requires the anti-replay proof and an
    /// administrative caller.
    pub fn set_role(
        &mut self,
        caller: &String,
        current_account: &String,
        name: &String,
        role: Role,
        attached_deposit: u128,
    ) -> (r: Result<(), CommunityError>)
        requires
            old(self).wf(),
        ensures
            final(self).wf(),
            attached_deposit != ANTI_REPLAY_UNIT ==> r == Err::<(), CommunityError>(
                CommunityError::ReplayProofMissing,
            ) && *final(self) == *old(self),
            attached_deposit == ANTI_REPLAY_UNIT && !old(self).spec_is_admin(
                caller@,
                current_account@,
            ) ==> r == Err::<(), CommunityError>(CommunityError::AuthorizationDenied) && *final(self)
                == *old(self),
            attached_deposit == ANTI_REPLAY_UNIT && old(self).spec_is_admin(
                caller@,
                current_account@,
            ) ==> {
                &&& r is Ok
                &&& final(self).spec_roles().spec_has_role(name@)
                &&& final(self).spec_roles().spec_entries()[final(self).spec_roles().spec_index_of(
                    name@,
                )].role == role
                &&& final(self).spec_owner() == old(self).spec_owner()
                &&& final(self).spec_public_key() == old(self).spec_public_key()
                &&& final(self).spec_public_filter() == old(self).spec_public_filter()
                &&& final(self).spec_encryption_filter() == old(self).spec_encryption_filter()
                &&& final(self).spec_relationship_filter() == old(self).spec_relationship_filter()
                &&& final(self).spec_access() == old(self).spec_access()
                &&& final(self).spec_drip() == old(self).spec_drip()
                &&& final(self).spec_reports() == old(self).spec_reports()
                &&& final(self).spec_relationships() == old(self).spec_relationships()
                &&& final(self).spec_args() == old(self).spec_args()
            },
    {
        if attached_deposit != ANTI_REPLAY_UNIT {
            return Err(CommunityError::ReplayProofMissing);
        }
        if !self.is_admin(caller, current_account) {
            return Err(CommunityError::AuthorizationDenied);
        }
        let ghost pre_roles = self.roles;
        self.roles.set_role(name, role);
        proof {
            if pre_roles.spec_has_role(name@) {
                let i = pre_roles.spec_index_of(name@);
                crate::role::lemma_role_index_is(self.roles, name@, i);
            } else {
                let n = pre_roles.spec_entries().len() as int;
                crate::role::lemma_role_index_is(self.roles, name@, n);
            }
        }
        Ok(())
    }

    /// Records a relationship fact and marks the account in the
    /// relationship filter, keeping the fast pre-check in step with the
    /// authoritative fact list.  Requires the anti-replay proof and an
    /// administrative caller.
    pub fn add_relationship(
        &mut self,
        caller: &String,
        current_account: &String,
        fact: RelationshipFact,
        attached_deposit: u128,
    ) -> (r: Result<(), CommunityError>)
        requires
            old(self).wf(),
        ensures
            final(self).wf(),
            attached_deposit != ANTI_REPLAY_UNIT ==> r == Err::<(), CommunityError>(
                CommunityError::ReplayProofMissing,
            ) && *final(self) == *old(self),
            attached_deposit == ANTI_REPLAY_UNIT && !old(self).spec_is_admin(
                caller@,
                current_account@,
            ) ==> r == Err::<(), CommunityError>(CommunityError::AuthorizationDenied) && *final(self)
                == *old(self),
            attached_deposit == ANTI_REPLAY_UNIT && old(self).spec_is_admin(
                caller@,
                current_account@,
            ) ==> {
                &&& r is Ok
                &&& final(self).spec_relationships() == old(self).spec_relationships().push(fact)
                &&& Bloom::spec_inserted(
                    old(self).spec_relationship_filter(),
                    final(self).spec_relationship_filter(),
                    encode_utf8(fact.account@),
                )
                &&& final(self).spec_owner() == old(self).spec_owner()
                &&& final(self).spec_public_key() == old(self).spec_public_key()
                &&& final(self).spec_public_filter() == old(self).spec_public_filter()
                &&& final(self).spec_encryption_filter() == old(self).spec_encryption_filter()
                &&& final(self).spec_access() == old(self).spec_access()
                &&& final(self).spec_drip() == old(self).spec_drip()
                &&& final(self).spec_reports() == old(self).spec_reports()
                &&& final(self).spec_roles() == old(self).spec_roles()
                &&& final(self).spec_args() == old(self).spec_args()
            },
    {
        if attached_deposit != ANTI_REPLAY_UNIT {
            return Err(CommunityError::ReplayProofMissing);
        }
        if !self.is_admin(caller, current_account) {
            return Err(CommunityError::AuthorizationDenied);
        }
        self.relationship_bloom_filter.insert(fact.account.as_str());
        self.relationships.push(fact);
        Ok(())
    }

    /// Whether the public filter marks `item`; a fast pre-check, never the
    /// authoritative membership answer.
    pub fn public_filter_contains(&self, item: &str) -> (r: bool)
        requires
            self.wf(),
        ensures
            r == self.spec_public_filter().spec_contains(item.spec_bytes()),
    {
        self.public_bloom_filter.contains(item)
    }

    /// Whether the encryption filter marks `item`.
    pub fn encryption_filter_contains(&self, item: &str) -> (r: bool)
        requires
            self.wf(),
        ensures
            r == self.spec_encryption_filter().spec_contains(item.spec_bytes()),
    {
        self.encryption_bloom_filter.contains(item)
    }

    /// Whether the relationship filter marks `item`.
    pub fn relationship_filter_contains(&self, item: &str) -> (r: bool)
        requires
            self.wf(),
        ensures
            r == self.spec_relationship_filter().spec_contains(item.spec_bytes()),
    {
        self.relationship_bloom_filter.contains(item)
    }

    /// Looks a role up by name.
    pub fn get_role(&self, name: &String) -> (r: Option<&Role>)
        requires
            self.wf(),
        ensures
            match r {
                Some(role) => self.spec_roles().spec_has_role(name@) && *role == self.spec_roles()
                    .spec_entries()[self.spec_roles().spec_index_of(name@)].role,
                None => !self.spec_roles().spec_has_role(name@),
            },
    {
        self.roles.get_role(name)
    }

    /// Whether the role named `name` grants `p`.
    pub fn has_permission(&self, name: &String, p: crate::role::Permission) -> (r: bool)
        requires
            self.wf(),
        ensures
            r == self.spec_roles().spec_role_has_permission(name@, p),
    {
        self.roles.has_permission(name, p)
    }

    /// The owning identity.
    pub fn owner_id(&self) -> (r: &String)
        ensures
            r@ == self.spec_owner(),
    {
        &self.owner_id
    }

    /// The community's public key.
    pub fn public_key(&self) -> (r: &String)
        ensures
            r@ == self.spec_public_key(),
    {
        &self.public_key
    }

    /// Whether an access gate is configured.
    pub fn has_access_gate(&self) -> (r: bool)
        ensures
            r == (self.spec_access() is Some),
    {
        match &self.access {
            Some(_) => true,
            None => false,
        }
    }

    /// The number of active members.
    pub fn member_count(&self) -> (r: usize)
        ensures
            r == self.spec_drip().spec_members().len(),
    {
        self.drip.member_count()
    }

    /// Whether `account` is an active member.
    pub fn is_member(&self, account: &String) -> (r: bool)
        ensures
            r == self.spec_drip().spec_is_member(account@),
    {
        self.drip.is_member(account)
    }

    /// The latest time the accrual engine has seen; operations that read
    /// the clock never take an earlier one.
    pub fn clock(&self) -> (r: u64)
        ensures
            r == self.spec_drip().spec_time(),
    {
        self.drip.time()
    }

    /// What a collect at `now` would pay `account`, without settling
    /// anything: `None` exactly when the amount would not fit the widest
    /// integer the engine can pay.
    pub fn pending_reward(&self, account: &String, now: u64) -> (r: Option<u128>)
        requires
            self.wf(),
            now >= self.spec_drip().spec_time(),
        ensures
            match r {
                Some(x) => self.spec_drip().spec_pending(account@, now) <= u128::MAX && x == self
                    .spec_drip().spec_pending(account@, now),
                None => self.spec_drip().spec_pending(account@, now) > u128::MAX,
            },
    {
        self.drip.pending(account, now)
    }

    /// Whether `caller` may administer this community from
    /// `current_account`.
    pub(crate) fn is_admin(&self, caller: &String, current_account: &String) -> (r: bool)
        ensures
            r == self.spec_is_admin(caller@, current_account@),
    {
        if self.owner_id == *caller {
            true
        } else {
            crate::utils::is_parent(caller.as_str(), current_account.as_str())
        }
    }
}

} // verus!
