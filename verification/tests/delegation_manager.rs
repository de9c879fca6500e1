use delegated_execution::delegation_manager::{
    DataKey, Delegation, DelegationChange, DelegationError, DelegationEvent, DelegationManager,
    DelegationMetadata, DelegationStatus, Pair,
};
use delegated_execution::ledger::{Address, AddressKind, Env};

fn address(n: u128) -> Address {
    Address { kind: AddressKind::Account, high: 0, low: n }
}

fn owner() -> Address {
    address(1)
}

fn delegate() -> Address {
    address(2)
}

fn env_signed(timestamp: u64, signers: Vec<Address>) -> Env {
    Env {
        timestamp,
        contract: Address { kind: AddressKind::Contract, high: 0, low: 100 },
        invoker: None,
        signers,
        inner_signers: Vec::new(),
    }
}

fn env_at(timestamp: u64) -> Env {
    env_signed(timestamp, vec![owner(), delegate(), address(3)])
}

fn metadata(label: &str) -> DelegationMetadata {
    DelegationMetadata {
        label: label.to_string(),
        strategy_id: None,
        description: None,
        tags: Vec::new(),
    }
}

fn done<T>(result: Result<T, DelegationError>) -> T {
    match result {
        Ok(value) => value,
        Err(error) => panic!("{}", error.message()),
    }
}

fn create(manager: &mut DelegationManager, now: u64, expires_at: Option<u64>) -> u64 {
    done(manager.create_delegation(
        &env_at(now),
        owner(),
        delegate(),
        metadata("Agent Executor"),
        expires_at,
    ))
}

fn record(manager: &mut DelegationManager, id: u64) -> Delegation {
    manager.get_delegation(id).unwrap()
}

#[test]
fn test_v3_lifecycle_and_validation() {
    let mut manager = DelegationManager::new();
    let details = DelegationMetadata {
        label: "Agent Executor".to_string(),
        strategy_id: Some(42),
        description: Some("Test Desc".to_string()),
        tags: Vec::new(),
    };
    let expires_at = Some(4600);
    let id =
        done(manager.create_delegation(&env_at(1000), owner(), delegate(), details, expires_at));
    assert_eq!(id, 1);

    let delegation = record(&mut manager, id);
    assert_eq!(delegation.version, 1);
    assert_eq!(delegation.created_at, 1000);
    assert_eq!(delegation.updated_at, 1000);
    assert_eq!(delegation.expires_at, expires_at);
    assert_eq!(delegation.metadata.strategy_id, Some(42));
    assert_eq!(delegation.status, DelegationStatus::Pending);
    assert_eq!(manager.is_active_delegation(&env_at(1000), id), Ok(false));

    // The delegation counts once the delegate accepts it, which is a version of its own
    done(manager.accept_delegation(&env_at(1000), id));
    assert!(manager.delegation_exists(id));
    assert_eq!(manager.is_active_delegation(&env_at(1000), id), Ok(true));
    assert_eq!(manager.is_delegation_valid(&env_at(1000), id), Ok(true));
    assert!(!manager.is_paused(id));
    assert!(!manager.is_revoked(id));
    assert!(!manager.is_expired(&env_at(1000), id));
    assert_eq!(manager.get_owner(id).unwrap(), owner());
    assert_eq!(manager.get_delegate(id).unwrap(), delegate());
    assert_eq!(manager.get_delegate_status(id).unwrap(), DelegationStatus::Active);

    done(manager.pause_delegation(&env_at(2000), id));
    let delegation = record(&mut manager, id);
    assert_eq!(delegation.status, DelegationStatus::Paused);
    assert_eq!(delegation.version, 3);
    assert_eq!(delegation.paused_at, Some(2000));
    assert_eq!(delegation.updated_at, 2000);
    assert_eq!(manager.is_active_delegation(&env_at(2000), id), Ok(false));
    assert!(manager.is_paused(id));

    done(manager.resume_delegation(&env_at(3000), id));
    let delegation = record(&mut manager, id);
    assert_eq!(delegation.status, DelegationStatus::Active);
    assert_eq!(delegation.version, 4);
    assert_eq!(delegation.resumed_at, Some(3000));
    assert_eq!(delegation.updated_at, 3000);

    let details = DelegationMetadata {
        label: "New Executor Label".to_string(),
        strategy_id: Some(99),
        description: None,
        tags: Vec::new(),
    };
    done(manager.update_metadata(&env_at(3000), id, details));
    let delegation = record(&mut manager, id);
    assert_eq!(delegation.metadata.label, "New Executor Label");
    assert_eq!(delegation.version, 5);

    assert!(manager.is_expired(&env_at(5000), id));
    assert_eq!(manager.is_active_delegation(&env_at(5000), id), Ok(false));
    assert_eq!(record(&mut manager, id).status, DelegationStatus::Expired);

    done(manager.revoke_delegation(&env_at(5000), id));
    let delegation = record(&mut manager, id);
    assert_eq!(delegation.status, DelegationStatus::Revoked);
    assert_eq!(delegation.version, 7);
    assert_eq!(delegation.revoked_at, Some(5000));
}

#[test]
#[should_panic(expected = "expiry must be in the future")]
fn test_invalid_expiry_creation() {
    let mut manager = DelegationManager::new();
    create(&mut manager, 1000, Some(900));
}

#[test]
#[should_panic(expected = "duplicate active/paused delegation not allowed")]
fn test_duplicate_prevention_v3() {
    let mut manager = DelegationManager::new();
    create(&mut manager, 1000, None);
    create(&mut manager, 1000, None);
}

#[test]
fn test_allow_recreation_after_revoked_or_expired() {
    let mut manager = DelegationManager::new();
    let _id_1 = create(&mut manager, 1000, Some(1500));

    let id_2 = create(&mut manager, 2000, None);
    assert_eq!(id_2, 2);

    done(manager.revoke_delegation(&env_at(2000), id_2));

    let id_3 = create(&mut manager, 2000, None);
    assert_eq!(id_3, 3);
}

#[test]
fn test_events_v2() {
    let mut manager = DelegationManager::new();
    let _id = done(manager.create_delegation(
        &env_at(1000),
        owner(),
        delegate(),
        metadata("Agent"),
        None,
    ));
    assert!(manager.events.len() > 0);
}

#[test]
fn every_change_publishes_its_event() {
    let mut manager = DelegationManager::new();
    let id = create(&mut manager, 1000, Some(4600));
    done(manager.accept_delegation(&env_at(1001), id));
    done(manager.pause_delegation(&env_at(1002), id));
    done(manager.resume_delegation(&env_at(1003), id));
    done(manager.update_metadata(&env_at(1004), id, metadata("again")));
    assert_eq!(manager.check_and_expire(&env_at(4600), id), Ok(true));
    done(manager.renounce_delegation(&env_at(4601), id));
    let second = create(&mut manager, 4602, None);
    done(manager.revoke_delegation(&env_at(4603), second));
    let topics: Vec<&str> = manager.events.iter().map(|event| event.change.topic()).collect();
    assert_eq!(
        topics,
        vec![
            "delegation_created",
            "delegation_accepted",
            "delegation_paused",
            "delegation_resumed",
            "delegation_updated",
            "delegation_expired",
            "delegation_renounced",
            "delegation_created",
            "delegation_revoked",
        ]
    );
    assert_eq!(
        manager.events[1],
        DelegationEvent {
            change: DelegationChange::Accepted,
            delegation_id: id,
            owner: owner(),
            delegate: delegate(),
            timestamp: 1001,
            version: 2,
        }
    );
}

#[test]
fn refusals_have_their_reasons_and_change_nothing() {
    let mut manager = DelegationManager::new();
    let now = env_at(1000);
    let nobody = env_signed(1000, Vec::new());
    assert_eq!(
        manager.create_delegation(&nobody, owner(), delegate(), metadata("a"), None),
        Err(DelegationError::Unauthorized(owner()))
    );
    assert_eq!(
        manager.create_delegation(&now, owner(), owner(), metadata("a"), None),
        Err(DelegationError::SelfDelegation)
    );
    assert_eq!(
        manager.create_delegation(&now, owner(), delegate(), metadata("a"), Some(1000)),
        Err(DelegationError::ExpiryNotInFuture)
    );
    assert_eq!(manager.accept_delegation(&now, 1), Err(DelegationError::DelegationNotFound));
    assert!(manager.events.is_empty());
    assert!(manager.extended.is_empty());

    let id = create(&mut manager, 1000, Some(2000));
    let by_owner = env_signed(1000, vec![owner()]);
    let by_delegate = env_signed(1000, vec![delegate()]);
    assert_eq!(
        manager.accept_delegation(&by_owner, id),
        Err(DelegationError::Unauthorized(delegate()))
    );
    assert_eq!(
        manager.revoke_delegation(&by_delegate, id),
        Err(DelegationError::Unauthorized(owner()))
    );
    assert_eq!(
        manager.renounce_delegation(&by_owner, id),
        Err(DelegationError::Unauthorized(delegate()))
    );
    assert_eq!(manager.pause_delegation(&now, id), Err(DelegationError::NotActive));
    assert_eq!(manager.emergency_pause(&now, id), Err(DelegationError::NotActive));
    assert_eq!(manager.resume_delegation(&now, id), Err(DelegationError::NotPaused));
    assert_eq!(
        manager.accept_delegation(&env_at(2000), id),
        Err(DelegationError::AcceptExpired)
    );
    done(manager.accept_delegation(&now, id));
    assert_eq!(manager.accept_delegation(&now, id), Err(DelegationError::NotPending));
    assert_eq!(manager.pause_delegation(&env_at(2000), id), Err(DelegationError::PauseExpired));
    assert_eq!(manager.resume_delegation(&env_at(2000), id), Err(DelegationError::ResumeExpired));
    assert_eq!(
        manager.update_metadata(&env_at(2000), id, metadata("late")),
        Err(DelegationError::UpdateExpired)
    );
    // What was refused at the time of expiry left the delegation active
    assert_eq!(record(&mut manager, id).status, DelegationStatus::Active);
    assert_eq!(record(&mut manager, id).version, 2);
    done(manager.revoke_delegation(&now, id));
    assert_eq!(manager.revoke_delegation(&now, id), Err(DelegationError::AlreadyRevoked));
    assert_eq!(manager.renounce_delegation(&now, id), Err(DelegationError::AlreadyRevoked));
    assert_eq!(
        manager.update_metadata(&now, id, metadata("late")),
        Err(DelegationError::UpdateRevoked)
    );
}

#[test]
fn versions_do_not_wrap() {
    let mut manager = DelegationManager::new();
    let id = create(&mut manager, 1000, Some(2000));
    let mut delegation = record(&mut manager, id);
    delegation.version = u32::MAX;
    manager.delegations.insert(id, delegation);
    assert_eq!(
        manager.accept_delegation(&env_at(1000), id),
        Err(DelegationError::VersionOverflow)
    );
    assert_eq!(
        manager.check_and_expire(&env_at(2000), id),
        Err(DelegationError::VersionOverflow)
    );
    assert_eq!(
        manager.verify_authority(&env_at(2000), owner(), delegate()),
        Err(DelegationError::VersionOverflow)
    );
    assert_eq!(DelegationError::VersionOverflow.message(), "version overflow");
    manager.counter = Some(u64::MAX);
    assert_eq!(
        manager.create_delegation(&env_at(2000), owner(), address(3), metadata("a"), None),
        Err(DelegationError::VersionOverflow)
    );
}

#[test]
fn authority_follows_the_delegation() {
    let mut manager = DelegationManager::new();
    let id = create(&mut manager, 1000, Some(2000));
    let authority = |manager: &mut DelegationManager, now: u64| {
        done(manager.verify_authority(&env_at(now), owner(), delegate()))
    };
    assert!(!authority(&mut manager, 1000));
    done(manager.accept_delegation(&env_at(1000), id));
    assert!(authority(&mut manager, 1999));
    assert_eq!(
        manager.get_active_delegation_id(&env_at(1999), owner(), delegate()),
        Ok(Some(id))
    );
    let active = done(manager.get_active_delegation(&env_at(1999), owner(), delegate()));
    assert_eq!(active.unwrap().id, id);
    assert!(!done(manager.verify_authority(&env_at(1999), delegate(), owner())));

    done(manager.pause_delegation(&env_at(1999), id));
    assert!(!authority(&mut manager, 1999));
    assert_eq!(done(manager.get_active_delegation(&env_at(1999), owner(), delegate())), None);
    let by_pair = done(manager.get_delegation_by_pair(&env_at(1999), owner(), delegate()));
    assert_eq!(by_pair.unwrap().status, DelegationStatus::Paused);
    done(manager.resume_delegation(&env_at(1999), id));

    assert!(!authority(&mut manager, 2000));
    assert_eq!(record(&mut manager, id).status, DelegationStatus::Expired);
    assert_eq!(
        manager.get_active_delegation_id(&env_at(2000), owner(), delegate()),
        Ok(None)
    );
    assert_eq!(done(manager.get_delegation_by_pair(&env_at(2000), owner(), delegate())), None);
}

#[test]
fn expiry_is_found_once() {
    let mut manager = DelegationManager::new();
    let id = create(&mut manager, 1000, Some(2000));
    assert_eq!(manager.check_and_expire(&env_at(1999), id), Ok(false));
    assert_eq!(manager.check_and_expire(&env_at(2000), id), Ok(true));
    assert_eq!(manager.check_and_expire(&env_at(2000), id), Ok(false));
    assert_eq!(manager.check_and_expire(&env_at(2000), 7), Ok(false));
    assert!(manager.is_expired(&env_at(0), id));
}

#[test]
fn a_stale_registration_is_cleared() {
    let mut manager = DelegationManager::new();
    let id = create(&mut manager, 1000, Some(2000));
    done(manager.revoke_delegation(&env_at(1000), id));
    let pair = Pair { owner: owner(), delegate: delegate() };
    manager.active.insert(pair, id);
    assert_eq!(
        manager.get_active_delegation_id(&env_at(2000), owner(), delegate()),
        Ok(None)
    );
    assert!(manager.active.get(&pair).is_none());
}

#[test]
fn several_delegations_are_read_in_order() {
    let mut manager = DelegationManager::new();
    let first = create(&mut manager, 1000, None);
    let second = done(manager.create_delegation(
        &env_at(1000),
        owner(),
        address(3),
        metadata("other"),
        None,
    ));
    let before = manager.extended.len();
    let found = manager.get_delegations(&vec![second, 9, first]);
    assert_eq!(found.len(), 3);
    assert_eq!(found[0].as_ref().unwrap().delegate, address(3));
    assert!(found[1].is_none());
    assert_eq!(found[2].as_ref().unwrap().id, first);
    assert_eq!(
        manager.extended[before..].to_vec(),
        vec![DataKey::Delegation(second), DataKey::Delegation(first)]
    );
}

#[test]
fn entries_that_are_used_live_longer() {
    let mut manager = DelegationManager::new();
    let id = create(&mut manager, 1000, None);
    assert_eq!(
        manager.extended,
        vec![
            DataKey::Counter,
            DataKey::Delegation(id),
            DataKey::ActiveDelegation(owner(), delegate()),
        ]
    );
    assert!(!manager.delegation_exists(8));
    assert_eq!(manager.extended.len(), 3);
}

#[test]
fn messages_are_those_of_the_refusals() {
    let messages: Vec<&str> = vec![
        DelegationError::Unauthorized(owner()),
        DelegationError::SelfDelegation,
        DelegationError::ExpiryNotInFuture,
        DelegationError::DelegationNotFound,
        DelegationError::AcceptExpired,
        DelegationError::NotPending,
        DelegationError::AlreadyRevoked,
        DelegationError::PauseExpired,
        DelegationError::NotActive,
        DelegationError::ResumeExpired,
        DelegationError::NotPaused,
        DelegationError::UpdateRevoked,
        DelegationError::UpdateExpired,
    ]
    .iter()
    .map(|error| error.message())
    .collect();
    assert_eq!(
        messages,
        vec![
            "not authorized",
            "owner cannot delegate to self",
            "expiry must be in the future",
            "delegation does not exist",
            "cannot accept an expired delegation",
            "delegation must be pending to accept",
            "delegation already revoked",
            "cannot pause an expired delegation",
            "delegation must be active to pause",
            "cannot resume an expired delegation",
            "delegation must be paused to resume",
            "cannot update metadata of a revoked delegation",
            "cannot update metadata of an expired delegation",
        ]
    );
}

#[test]
fn other_pairs_are_left_alone() {
    let mut manager = DelegationManager::new();
    let first = create(&mut manager, 1000, Some(2000));
    let second = done(manager.create_delegation(
        &env_at(1000),
        owner(),
        address(3),
        metadata("Other"),
        Some(2000),
    ));
    done(manager.accept_delegation(&env_at(1000), first));
    done(manager.accept_delegation(&env_at(1000), second));
    let before = record(&mut manager, second);
    done(manager.pause_delegation(&env_at(1100), first));
    assert_eq!(manager.check_and_expire(&env_at(2500), first), Ok(true));
    done(manager.revoke_delegation(&env_at(2600), first));
    assert_eq!(record(&mut manager, second), before);
    assert_eq!(
        manager.active.get(&Pair { owner: owner(), delegate: address(3) }),
        Some(&second)
    );
    assert_eq!(manager.active.get(&Pair { owner: owner(), delegate: delegate() }), None);
}

#[test]
fn a_second_expiry_check_changes_nothing() {
    let mut manager = DelegationManager::new();
    let id = create(&mut manager, 1000, Some(2000));
    assert_eq!(manager.check_and_expire(&env_at(2000), id), Ok(true));
    let once = record(&mut manager, id);
    let events = manager.events.len();
    assert_eq!(manager.check_and_expire(&env_at(2000), id), Ok(false));
    assert_eq!(manager.is_active_delegation(&env_at(2000), id), Ok(false));
    assert_eq!(record(&mut manager, id), once);
    assert_eq!(manager.events.len(), events);
    assert_eq!(manager.check_and_expire(&env_at(2000), 99), Ok(false));
}
