use signing::config::{EcdsaCurve, EcdsaKeyIds, ParseEcdsaKeyIdError};
use signing::error::GatewayError;
use signing::identity::Identity;
use signing::state::{GatewayState, InitArgs};

fn id(b: u8) -> Identity {
    Identity::new(vec![b, b, b])
}

fn init_with(owners: Vec<Identity>, key: &str, delegate: Option<Identity>) -> GatewayState {
    GatewayState::init(InitArgs {
        key_id: key.to_string(),
        metrics_canister: delegate,
        owners,
    })
    .unwrap()
}

fn owner_bytes(s: &GatewayState) -> Vec<Vec<u8>> {
    s.owners.iter().map(|o| o.bytes.clone()).collect()
}

#[test]
fn key_tiers_resolve_to_distinct_keys() {
    let dev = EcdsaKeyIds::try_from("dfx_test_key".to_string()).unwrap();
    let test = EcdsaKeyIds::try_from("test_key_1".to_string()).unwrap();
    let prod = EcdsaKeyIds::try_from("key_1".to_string()).unwrap();
    assert_eq!(dev, EcdsaKeyIds::TestKeyLocalDevelopment);
    assert_eq!(test, EcdsaKeyIds::TestKey1);
    assert_eq!(prod, EcdsaKeyIds::ProductionKey1);
    assert_eq!(dev.to_key_id().name, "dfx_test_key");
    assert_eq!(test.to_key_id().name, "test_key_1");
    assert_eq!(prod.to_key_id().name, "key_1");
    assert_eq!(prod.to_key_id().curve, EcdsaCurve::Secp256k1);
}

#[test]
fn unknown_key_tier_is_refused() {
    for name in ["", "key_2", "test_key_2", "KEY_1", "dfx_test_key "] {
        assert_eq!(
            EcdsaKeyIds::try_from(name.to_string()),
            Err(ParseEcdsaKeyIdError::UnknownKeyId)
        );
        let r = GatewayState::init(InitArgs {
            key_id: name.to_string(),
            metrics_canister: None,
            owners: vec![id(1)],
        });
        assert!(matches!(r, Err(ParseEcdsaKeyIdError::UnknownKeyId)));
    }
}

#[test]
fn init_keeps_owners_in_order() {
    let s = init_with(vec![id(2), id(1), id(2)], "key_1", Some(id(9)));
    assert_eq!(owner_bytes(&s), vec![vec![2, 2, 2], vec![1, 1, 1], vec![2, 2, 2]]);
    assert_eq!(s.key_id.name, "key_1");
    assert_eq!(s.key_id.curve, EcdsaCurve::Secp256k1);
    assert_eq!(s.metrics_canister.as_ref().unwrap().bytes, vec![9, 9, 9]);
}

#[test]
fn non_owner_is_refused_everywhere() {
    let mut s = init_with(vec![id(1)], "test_key_1", Some(id(7)));
    let b = id(2);
    assert!(!s.is_owner(&b));
    assert!(matches!(s.require_owner(&b), Err(GatewayError::NotAuthorized)));
    assert!(matches!(s.add_owner(&b, id(3)), Err(GatewayError::NotAuthorized)));
    assert!(matches!(s.remove_owner(&b, &id(1)), Err(GatewayError::NotAuthorized)));
    assert!(matches!(s.set_metrics(&b, None), Err(GatewayError::NotAuthorized)));
    assert!(matches!(s.sign(&b, vec![0; 32]), Err(GatewayError::NotAuthorized)));
    assert!(matches!(s.sign(&b, vec![0; 5]), Err(GatewayError::NotAuthorized)));
    assert_eq!(owner_bytes(&s), vec![vec![1, 1, 1]]);
    assert_eq!(s.metrics_canister.as_ref().unwrap().bytes, vec![7, 7, 7]);
}

#[test]
fn owner_operations_succeed() {
    let mut s = init_with(vec![id(1)], "test_key_1", None);
    let a = id(1);
    assert!(s.require_owner(&a).is_ok());
    assert!(s.add_owner(&a, id(2)).is_ok());
    assert!(s.is_owner(&id(2)));
    assert!(s.set_metrics(&a, Some(id(5))).is_ok());
    assert_eq!(s.metrics_canister.as_ref().unwrap().bytes, vec![5, 5, 5]);
    assert!(s.remove_owner(&a, &id(2)).is_ok());
    assert!(!s.is_owner(&id(2)));
    assert_eq!(owner_bytes(&s), vec![vec![1, 1, 1]]);
}

#[test]
fn duplicate_owner_added_twice_removed_at_once() {
    let mut s = init_with(vec![id(1), id(4)], "test_key_1", None);
    let a = id(1);
    assert!(s.add_owner(&a, id(2)).is_ok());
    assert!(s.add_owner(&a, id(2)).is_ok());
    let twice = owner_bytes(&s).iter().filter(|b| **b == vec![2, 2, 2]).count();
    assert_eq!(twice, 2);
    assert_eq!(s.owners.len(), 4);
    assert!(s.remove_owner(&a, &id(2)).is_ok());
    assert_eq!(owner_bytes(&s), vec![vec![1, 1, 1], vec![4, 4, 4]]);
}

#[test]
fn last_owner_can_remove_itself() {
    let mut s = init_with(vec![id(1)], "dfx_test_key", None);
    let a = id(1);
    assert!(s.remove_owner(&a, &a).is_ok());
    assert!(s.owners.is_empty());
    assert!(matches!(s.add_owner(&a, id(1)), Err(GatewayError::NotAuthorized)));
}

#[test]
fn removing_an_absent_owner_changes_nothing() {
    let mut s = init_with(vec![id(1), id(3)], "dfx_test_key", None);
    assert!(s.remove_owner(&id(1), &id(8)).is_ok());
    assert_eq!(owner_bytes(&s), vec![vec![1, 1, 1], vec![3, 3, 3]]);
}

#[test]
fn identities_differ_by_length_too() {
    let a = Identity::new(vec![1, 2]);
    let b = Identity::new(vec![1, 2, 0]);
    assert!(!a.same_as(&b));
    assert!(a.same_as(&a.copy()));
    let s = init_with(vec![a], "key_1", None);
    assert!(!s.is_owner(&b));
}

#[test]
fn metrics_readers_are_owners_and_the_delegate() {
    let mut s = init_with(vec![id(1)], "test_key_1", Some(id(7)));
    assert!(s.require_metrics_reader(&id(1)).is_ok());
    assert!(s.require_metrics_reader(&id(7)).is_ok());
    assert!(matches!(s.require_metrics_reader(&id(8)), Err(GatewayError::NotAuthorized)));
    assert!(matches!(
        s.require_metrics_reader(&Identity::new(vec![7, 7])),
        Err(GatewayError::NotAuthorized)
    ));
    assert!(s.set_metrics(&id(1), None).is_ok());
    assert!(matches!(s.require_metrics_reader(&id(7)), Err(GatewayError::NotAuthorized)));
    assert!(s.require_metrics_reader(&id(1)).is_ok());
}

#[test]
fn upgrade_round_trip_keeps_every_field() {
    let mut s = init_with(vec![id(3), id(1), id(3)], "key_1", Some(id(6)));
    assert!(s.add_owner(&id(1), id(1)).is_ok());
    let saved = s.pre_upgrade();
    let mut restored = init_with(vec![id(9)], "dfx_test_key", None);
    restored.post_upgrade(saved);
    assert_eq!(owner_bytes(&restored), owner_bytes(&s));
    assert_eq!(
        owner_bytes(&restored),
        vec![vec![3, 3, 3], vec![1, 1, 1], vec![3, 3, 3], vec![1, 1, 1]]
    );
    assert_eq!(restored.key_id.name, "key_1");
    assert_eq!(restored.key_id.curve, EcdsaCurve::Secp256k1);
    assert_eq!(restored.metrics_canister.as_ref().unwrap().bytes, vec![6, 6, 6]);
    assert!(!restored.is_owner(&id(9)));
}
