use community::access::{Access, Condition, Relationship, RelationshipFact};
use community::drip::DRIP_EMISSION_RATE;
use community::errors::CommunityError;
use community::utils::storage_refund;
use community::Community;

const YOCTO_PER_BYTE: u128 = 10_000_000_000_000_000_000;

fn fresh(now: u64) -> Community {
    Community::new("alice.near".to_string(), "ed25519:pubkey".to_string(), now)
}

fn join_cost(account: &str) -> u128 {
    (account.len() as u128 + 40) * YOCTO_PER_BYTE
}

#[test]
fn join_then_quit_then_collect_pays_zero() {
    let mut c = fresh(100);
    let bob = "bob.near".to_string();
    let refund = c.join(&bob, join_cost("bob.near"), 100).unwrap();
    assert_eq!(refund, 0);
    assert!(c.is_member(&bob));
    c.quit(&bob, 1).unwrap();
    assert!(!c.is_member(&bob));
    let amount = c.collect_drip(&bob, 1, 100).unwrap();
    assert_eq!(amount, 0);
}

#[test]
fn collect_pays_elapsed_times_rate_then_zero() {
    let mut c = fresh(100);
    let bob = "bob.near".to_string();
    c.join(&bob, join_cost("bob.near"), 100).unwrap();
    let amount = c.collect_drip(&bob, 1, 150).unwrap();
    assert_eq!(amount, 50 * DRIP_EMISSION_RATE as u128);
    let again = c.collect_drip(&bob, 1, 150).unwrap();
    assert_eq!(again, 0);
}

#[test]
fn owner_is_joined_at_creation() {
    let mut c = fresh(100);
    let alice = "alice.near".to_string();
    assert!(c.is_member(&alice));
    assert_eq!(c.member_count(), 1);
    let amount = c.collect_drip(&alice, 1, 110).unwrap();
    assert_eq!(amount, 10 * DRIP_EMISSION_RATE as u128);
}

#[test]
fn join_refunds_excess_deposit() {
    let mut c = fresh(100);
    let bob = "bob.near".to_string();
    let deposit = join_cost("bob.near") + 12_345;
    let refund = c.join(&bob, deposit, 100).unwrap();
    assert_eq!(refund, 12_345);
}

#[test]
fn join_with_insufficient_deposit_fails_and_changes_nothing() {
    let mut c = fresh(100);
    let bob = "bob.near".to_string();
    let err = c.join(&bob, join_cost("bob.near") - 1, 100).unwrap_err();
    assert_eq!(err, CommunityError::StorageAccountingError);
    assert!(!c.is_member(&bob));
    assert_eq!(c.member_count(), 1);
}

#[test]
fn second_join_is_a_noop_and_keeps_accrual() {
    let mut c = fresh(100);
    let bob = "bob.near".to_string();
    c.join(&bob, join_cost("bob.near"), 100).unwrap();
    // A member's second join grows nothing, so the whole deposit comes back
    // and the original checkpoint is kept.
    let refund = c.join(&bob, 7, 130).unwrap();
    assert_eq!(refund, 7);
    assert_eq!(c.member_count(), 2);
    let amount = c.collect_drip(&bob, 1, 150).unwrap();
    assert_eq!(amount, 50 * DRIP_EMISSION_RATE as u128);
}

#[test]
fn join_marks_public_filter() {
    let mut c = fresh(100);
    let bob = "bob.near".to_string();
    assert!(!c.public_filter_contains("bob.near"));
    c.join(&bob, join_cost("bob.near"), 100).unwrap();
    assert!(c.public_filter_contains("bob.near"));
    // Quitting does not clear filter bits: filters support no deletion.
    c.quit(&bob, 1).unwrap();
    assert!(c.public_filter_contains("bob.near"));
}

#[test]
fn access_condition_rejects_actor_without_role() {
    let mut c = fresh(100);
    let owner = "alice.near".to_string();
    let host = "community.alice.near".to_string();
    c.set_access(
        &owner,
        &host,
        Some(Access { condition: Condition::HasRole("member".to_string()) }),
        1,
    )
    .unwrap();
    let mallory = "mallory.near".to_string();
    let err = c.join(&mallory, join_cost("mallory.near"), 100).unwrap_err();
    assert_eq!(err, CommunityError::AccessConditionRejected);
    assert!(!c.is_member(&mallory));
    assert_eq!(c.member_count(), 1);
    assert!(!c.public_filter_contains("mallory.near"));
}

#[test]
fn access_condition_admits_role_holder() {
    let mut c = fresh(100);
    let owner = "alice.near".to_string();
    let host = "community.alice.near".to_string();
    let bob = "bob.near".to_string();
    c.set_role(
        &owner,
        &host,
        &"member".to_string(),
        community::role::Role { permissions: vec![community::role::Permission::Read], members: vec![bob.clone()] },
        1,
    )
    .unwrap();
    c.set_access(
        &owner,
        &host,
        Some(Access { condition: Condition::HasRole("member".to_string()) }),
        1,
    )
    .unwrap();
    c.join(&bob, join_cost("bob.near"), 100).unwrap();
    assert!(c.is_member(&bob));
}

#[test]
fn condition_tree_with_relationship_and_negation() {
    let mut c = fresh(100);
    let owner = "alice.near".to_string();
    let host = "community.alice.near".to_string();
    let bob = "bob.near".to_string();
    let carol = "carol.near".to_string();
    c.add_relationship(
        &owner,
        &host,
        RelationshipFact {
            account: bob.clone(),
            kind: "follows".to_string(),
            target: owner.clone(),
        },
        1,
    )
    .unwrap();
    let follows_owner = Condition::Related(Relationship {
        kind: "follows".to_string(),
        target: owner.clone(),
    });
    let gate = Condition::Or(
        Box::new(follows_owner),
        Box::new(Condition::And(
            Box::new(Condition::HasRole("member".to_string())),
            Box::new(Condition::Not(Box::new(Condition::HasRole("banned".to_string())))),
        )),
    );
    c.set_access(&owner, &host, Some(Access { condition: gate }), 1).unwrap();
    c.join(&bob, join_cost("bob.near"), 100).unwrap();
    assert!(c.is_member(&bob));
    let err = c.join(&carol, join_cost("carol.near"), 100).unwrap_err();
    assert_eq!(err, CommunityError::AccessConditionRejected);
    assert!(!c.is_member(&carol));
}

#[test]
fn quit_and_collect_without_proof_fail_and_change_nothing() {
    let mut c = fresh(100);
    let bob = "bob.near".to_string();
    c.join(&bob, join_cost("bob.near"), 100).unwrap();
    let err = c.quit(&bob, 0).unwrap_err();
    assert_eq!(err, CommunityError::ReplayProofMissing);
    assert!(c.is_member(&bob));
    let err = c.collect_drip(&bob, 0, 150).unwrap_err();
    assert_eq!(err, CommunityError::ReplayProofMissing);
    let err = c.collect_drip(&bob, 2, 150).unwrap_err();
    assert_eq!(err, CommunityError::ReplayProofMissing);
    // The balance was untouched: a proper collect still pays in full.
    let amount = c.collect_drip(&bob, 1, 150).unwrap();
    assert_eq!(amount, 50 * DRIP_EMISSION_RATE as u128);
}

#[test]
fn refund_formula_is_exact_and_rejects_shrinkage() {
    assert_eq!(storage_refund(0, 48, 48 * YOCTO_PER_BYTE + 5), Ok(5));
    assert_eq!(storage_refund(0, 0, 7), Ok(7));
    // A deposit short of the measured growth is a negative refund.
    assert_eq!(
        storage_refund(0, 48, 48 * YOCTO_PER_BYTE - 1),
        Err(CommunityError::StorageAccountingError)
    );
    // So is storage usage shrinking during a state-growing operation.
    assert_eq!(storage_refund(10, 9, 1_000_000), Err(CommunityError::StorageAccountingError));
}

#[test]
fn pending_reward_previews_without_settling() {
    let mut c = fresh(100);
    let bob = "bob.near".to_string();
    c.join(&bob, join_cost("bob.near"), 100).unwrap();
    assert_eq!(c.pending_reward(&bob, 130), Some(30 * DRIP_EMISSION_RATE as u128));
    // Previewing settles nothing: the full amount is still collectable.
    let amount = c.collect_drip(&bob, 1, 130).unwrap();
    assert_eq!(amount, 30 * DRIP_EMISSION_RATE as u128);
    assert_eq!(c.pending_reward(&bob, 130), Some(0));
    let stranger = "zelda.near".to_string();
    assert_eq!(c.pending_reward(&stranger, 130), Some(0));
}

#[test]
fn error_messages_are_distinguishable() {
    let errors = [
        CommunityError::AuthorizationDenied,
        CommunityError::AccessConditionRejected,
        CommunityError::ReplayProofMissing,
        CommunityError::NotInitialized,
        CommunityError::AlreadyInitialized,
        CommunityError::StorageAccountingError,
    ];
    for (i, a) in errors.iter().enumerate() {
        assert!(!a.message().is_empty());
        for (j, b) in errors.iter().enumerate() {
            if i != j {
                assert_ne!(a.message(), b.message());
            }
        }
    }
    assert_eq!(
        CommunityError::ReplayProofMissing.message(),
        "anti-replay proof missing: attach exactly one unit"
    );
}
