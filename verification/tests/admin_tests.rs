use community::access::{Access, Condition};
use community::bloom::Bloom;
use community::errors::CommunityError;
use community::owner::upgrade;
use community::role::{Permission, Role};
use community::{Community, OldCommunity};

const YOCTO_PER_BYTE: u128 = 10_000_000_000_000_000_000;

fn join_cost(account: &str) -> u128 {
    (account.len() as u128 + 40) * YOCTO_PER_BYTE
}

#[test]
fn non_owner_cannot_administer() {
    let mut c = Community::new("alice.near".to_string(), "pk".to_string(), 0);
    let mallory = "mallory.near".to_string();
    let host = "community.alice.near".to_string();

    let err = c
        .set_owner(&mallory, &host, "mallory.near".to_string(), 1)
        .unwrap_err();
    assert_eq!(err, CommunityError::AuthorizationDenied);
    assert_eq!(c.owner_id().as_str(), "alice.near");

    let err = c
        .set_args(&mallory, &host, vec![("k".to_string(), "v".to_string())], 1)
        .unwrap_err();
    assert_eq!(err, CommunityError::AuthorizationDenied);
    assert!(c.get_args().is_empty());

    let err = c.del_contract(&mallory, &host, 1).unwrap_err();
    assert_eq!(err, CommunityError::AuthorizationDenied);
}

#[test]
fn admin_ops_require_anti_replay_proof() {
    let mut c = Community::new("alice.near".to_string(), "pk".to_string(), 0);
    let owner = "alice.near".to_string();
    let host = "community.alice.near".to_string();
    let err = c
        .set_owner(&owner, &host, "bob.near".to_string(), 0)
        .unwrap_err();
    assert_eq!(err, CommunityError::ReplayProofMissing);
    assert_eq!(c.owner_id().as_str(), "alice.near");
    let err = c.del_contract(&owner, &host, 0).unwrap_err();
    assert_eq!(err, CommunityError::ReplayProofMissing);
}

#[test]
fn owner_can_administer() {
    let mut c = Community::new("alice.near".to_string(), "pk".to_string(), 0);
    let owner = "alice.near".to_string();
    let host = "community.alice.near".to_string();

    c.set_args(&owner, &host, vec![("theme".to_string(), "dark".to_string())], 1)
        .unwrap();
    let args = c.get_args();
    assert_eq!(args.len(), 1);
    assert_eq!(args[0].0, "theme");
    assert_eq!(args[0].1, "dark");

    c.del_contract(&owner, &host, 1).unwrap();

    c.set_owner(&owner, &host, "bob.near".to_string(), 1).unwrap();
    assert_eq!(c.owner_id().as_str(), "bob.near");
}

#[test]
fn parent_authority_can_administer() {
    let mut c = Community::new("alice.near".to_string(), "pk".to_string(), 0);
    let parent = "factory.near".to_string();
    let host = "community.factory.near".to_string();
    c.set_owner(&parent, &host, "carol.near".to_string(), 1).unwrap();
    assert_eq!(c.owner_id().as_str(), "carol.near");
    // A grandparent is not the parent authority.
    let grandparent = "near".to_string();
    let deep_host = "a.b.near".to_string();
    let err = c
        .set_owner(&grandparent, &deep_host, "x.near".to_string(), 1)
        .unwrap_err();
    assert_eq!(err, CommunityError::AuthorizationDenied);
}

#[test]
fn upgrade_is_parent_only() {
    let parent = "factory.near".to_string();
    let host = "community.factory.near".to_string();
    upgrade(&parent, &host).unwrap();
    let owner = "alice.near".to_string();
    let err = upgrade(&owner, &host).unwrap_err();
    assert_eq!(err, CommunityError::AuthorizationDenied);
    let topless = "factory".to_string();
    let err = upgrade(&topless, &topless).unwrap_err();
    assert_eq!(err, CommunityError::AuthorizationDenied);
}

#[test]
fn roles_set_get_and_permissions() {
    let mut c = Community::new("alice.near".to_string(), "pk".to_string(), 0);
    let owner = "alice.near".to_string();
    let host = "community.alice.near".to_string();
    let name = "moderators".to_string();
    c.set_role(
        &owner,
        &host,
        &name,
        Role {
            permissions: vec![Permission::Read, Permission::Moderate],
            members: vec!["bob.near".to_string()],
        },
        1,
    )
    .unwrap();
    let role = c.get_role(&name).unwrap();
    assert_eq!(role.permissions.len(), 2);
    assert_eq!(role.members[0], "bob.near");
    assert!(c.has_permission(&name, Permission::Moderate));
    assert!(!c.has_permission(&name, Permission::Admin));
    assert!(c.get_role(&"absent".to_string()).is_none());
    assert!(!c.has_permission(&"absent".to_string(), Permission::Read));

    // Replacing a role overwrites its permission set.
    c.set_role(
        &owner,
        &host,
        &name,
        Role { permissions: vec![Permission::Read], members: vec![] },
        1,
    )
    .unwrap();
    assert!(!c.has_permission(&name, Permission::Moderate));
}

#[test]
fn migration_clears_legacy_table_and_carries_fields_over() {
    let mut public = Bloom::new_for_fp_rate_with_seed(1000, 10_000, "public");
    public.insert("bob.near");
    let encryption = Bloom::new_for_fp_rate_with_seed(1000, 10_000, "encrypt");
    let mut old = OldCommunity {
        owner_id: "alice.near".to_string(),
        public_key: "pk".to_string(),
        public_bloom_filter: public,
        encryption_bloom_filter: encryption,
        access: Some(Access { condition: Condition::HasRole("member".to_string()) }),
        members: vec![("bob.near".to_string(), 1), ("carol.near".to_string(), 2)],
    };

    let err = match Community::migrate(&mut old, &"mallory.near".to_string()) {
        Err(e) => e,
        Ok(_) => panic!("expected the migration to be denied"),
    };
    assert_eq!(err, CommunityError::AuthorizationDenied);
    assert_eq!(old.members.len(), 2);

    let mut c = Community::migrate(&mut old, &"alice.near".to_string()).unwrap();
    assert!(old.members.is_empty());
    assert_eq!(c.owner_id().as_str(), "alice.near");
    assert_eq!(c.public_key().as_str(), "pk");
    // The public and encryption filters carry their bits over.
    assert!(c.public_filter_contains("bob.near"));
    assert!(!c.encryption_filter_contains("bob.near"));
    // The access gate carries over; drip, roles and the relationship filter
    // start empty.
    assert!(c.has_access_gate());
    assert_eq!(c.member_count(), 0);
    assert!(c.get_role(&"member".to_string()).is_none());
    assert!(!c.relationship_filter_contains("bob.near"));
    // The carried gate still gates joining.
    let err = c.join(&"dave.near".to_string(), join_cost("dave.near"), 5).unwrap_err();
    assert_eq!(err, CommunityError::AccessConditionRejected);
}
