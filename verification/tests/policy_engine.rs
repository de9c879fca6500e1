use delegated_execution::delegation_manager::{
    DelegationError, DelegationManager, DelegationMetadata, DelegationStatus, Pair,
};
use delegated_execution::ledger::{Address, AddressKind, Env};
use delegated_execution::policy_engine::delegation_manager_client::DelegationManagerInterface;
use delegated_execution::policy_engine::{
    PolicyChange, PolicyEngine, PolicyError, PolicyEvent, PolicyParams, PolicyStatus,
    ValidationResult,
};

fn address(n: u128) -> Address {
    Address { kind: AddressKind::Account, high: 0, low: n }
}

fn contract(n: u128) -> Address {
    Address { kind: AddressKind::Contract, high: 0, low: n }
}

fn admin() -> Address {
    address(1)
}

fn owner() -> Address {
    address(2)
}

fn delegate() -> Address {
    address(3)
}

fn router() -> Address {
    contract(4)
}

fn manager_address() -> Address {
    contract(5)
}

fn env_signed(timestamp: u64, signers: Vec<Address>) -> Env {
    Env {
        timestamp,
        contract: contract(6),
        invoker: None,
        signers,
        inner_signers: Vec::new(),
    }
}

fn env_at(timestamp: u64) -> Env {
    env_signed(timestamp, vec![admin(), owner(), delegate(), router()])
}

#[derive(Clone)]
struct MockDelegationManager {
    delegations: Vec<(u64, bool, bool, Address)>,
}

impl MockDelegationManager {
    fn new() -> MockDelegationManager {
        MockDelegationManager { delegations: Vec::new() }
    }

    fn set_delegation(&mut self, id: u64, exists: bool, active: bool, owner: Address) {
        self.delegations.push((id, exists, active, owner));
    }

    fn find(&self, id: u64) -> Option<&(u64, bool, bool, Address)> {
        self.delegations.iter().find(|entry| entry.0 == id)
    }
}

impl DelegationManagerInterface for MockDelegationManager {
    type State = MockDelegationManager;

    fn state(&self) -> MockDelegationManager {
        self.clone()
    }

    fn ask_exists(
        state: MockDelegationManager,
        delegation_id: u64,
    ) -> (MockDelegationManager, bool) {
        let answer = state.find(delegation_id).map(|entry| entry.1).unwrap_or(false);
        (state, answer)
    }

    fn ask_active(
        state: MockDelegationManager,
        _now: u64,
        delegation_id: u64,
    ) -> Result<(MockDelegationManager, bool), DelegationError> {
        let answer = state.find(delegation_id).map(|entry| entry.2).unwrap_or(false);
        Ok((state, answer))
    }

    fn ask_owner(
        state: MockDelegationManager,
        delegation_id: u64,
    ) -> (MockDelegationManager, Option<Address>) {
        let answer = state.find(delegation_id).map(|entry| entry.3);
        (state, answer)
    }

    fn delegation_exists(&mut self, _env: &Env, delegation_id: u64) -> bool {
        Self::ask_exists(self.state(), delegation_id).1
    }

    fn is_active_delegation(
        &mut self,
        env: &Env,
        delegation_id: u64,
    ) -> Result<bool, DelegationError> {
        Self::ask_active(self.state(), env.timestamp, delegation_id).map(|asked| asked.1)
    }

    fn get_owner(&mut self, _env: &Env, delegation_id: u64) -> Option<Address> {
        Self::ask_owner(self.state(), delegation_id).1
    }

    fn duplicate(&self) -> MockDelegationManager {
        self.clone()
    }
}

fn done<T>(result: Result<T, PolicyError>) -> T {
    match result {
        Ok(value) => value,
        Err(error) => panic!("{}", error.message()),
    }
}

fn params(valid_until: Option<u64>, per_tx: u128, per_day: u128, metadata: &str) -> PolicyParams {
    PolicyParams {
        strategy_id: Some(1),
        valid_from: 1000,
        valid_until,
        max_notional_per_tx: per_tx,
        max_notional_per_day: per_day,
        allowed_assets: Vec::new(),
        denied_assets: Vec::new(),
        allowed_protocols: Vec::new(),
        denied_protocols: Vec::new(),
        metadata: metadata.to_string(),
    }
}

fn engine() -> PolicyEngine {
    let mut engine = PolicyEngine::new();
    done(engine.initialize(manager_address(), admin()));
    engine
}

fn create(engine: &mut PolicyEngine, params: PolicyParams) -> u64 {
    done(engine.create_policy(&env_at(1000), owner(), delegate(), params))
}

fn rejected(reason: &str) -> Result<ValidationResult, PolicyError> {
    Ok(ValidationResult::Rejected(reason.to_string()))
}

#[test]
fn test_create_and_update_policy() {
    let mut client = engine();
    assert_eq!(client.get_admin(), Ok(admin()));
    assert_eq!(client.get_delegation_manager(), Ok(manager_address()));

    let mut first = params(Some(5000), 500, 2000, "Test Policy V1");
    first.strategy_id = Some(101);
    let policy_id = create(&mut client, first);
    assert_eq!(policy_id, 1);

    let policy = client.get_policy(policy_id).unwrap();
    assert_eq!(policy.id, 1);
    assert_eq!(policy.status, PolicyStatus::Pending);
    assert_eq!(policy.owner, owner());
    assert_eq!(policy.delegate, delegate());
    assert_eq!(policy.params.strategy_id, Some(101));
    assert_eq!(policy.params.max_notional_per_tx, 500);

    let mut updated = params(Some(6000), 1000, 4000, "Test Policy V2");
    updated.strategy_id = Some(101);
    updated.valid_from = 1200;
    done(client.update_policy(&env_at(1000), policy_id, updated));

    let policy = client.get_policy(policy_id).unwrap();
    assert_eq!(policy.params.valid_from, 1200);
    assert_eq!(policy.params.valid_until, Some(6000));
    assert_eq!(policy.params.max_notional_per_tx, 1000);
    assert_eq!(policy.params.max_notional_per_day, 4000);
    assert_eq!(policy.params.metadata, "Test Policy V2");
    assert_eq!(policy.version, 2);
}

#[test]
fn test_lifecycle_and_assignment() {
    let env = env_at(1000);
    let mut manager = MockDelegationManager::new();
    manager.set_delegation(1, true, true, owner());
    let mut client = engine();

    let mut terms = params(None, 100, 500, "Lifecycle Policy");
    terms.strategy_id = None;
    let policy_id = create(&mut client, terms);

    let policy = client.get_policy(policy_id).unwrap();
    assert_eq!(policy.status, PolicyStatus::Pending);

    done(client.accept_policy(&env, policy_id));
    let policy = client.get_policy(policy_id).unwrap();
    assert_eq!(policy.status, PolicyStatus::Active);

    done(client.assign_policy_to_delegation(&env, &mut manager, policy_id, 1));

    let assigned_policies = client.get_policies_by_delegation(1);
    assert_eq!(assigned_policies.len(), 1);
    assert_eq!(assigned_policies[0].id, policy_id);

    let active_policy = done(client.get_active_policy(&env, 1)).unwrap();
    assert_eq!(active_policy.id, policy_id);

    done(client.pause_policy(&env, policy_id));
    let policy = client.get_policy(policy_id).unwrap();
    assert_eq!(policy.status, PolicyStatus::Paused);

    done(client.resume_policy(&env, policy_id));
    let policy = client.get_policy(policy_id).unwrap();
    assert_eq!(policy.status, PolicyStatus::Active);

    done(client.revoke_policy(&env, policy_id));
    let policy = client.get_policy(policy_id).unwrap();
    assert_eq!(policy.status, PolicyStatus::Revoked);

    let active_policy_after_revocation = done(client.get_active_policy(&env, 1));
    assert!(active_policy_after_revocation.is_none());
}

#[test]
fn test_validation_paths() {
    let env = env_at(1000);
    let asset_a = address(11);
    let asset_b = address(12);
    let protocol_x = address(13);
    let protocol_y = address(14);
    let mut manager = MockDelegationManager::new();
    manager.set_delegation(1, true, true, owner());
    manager.set_delegation(2, true, false, owner());

    let mut client = engine();
    done(client.set_execution_router(&env, router()));
    assert_eq!(client.get_execution_router(), Some(router()));

    let mut terms = params(Some(2000), 250, 300, "Val Policy");
    terms.strategy_id = None;
    terms.allowed_assets.push(asset_a);
    terms.denied_assets.push(asset_b);
    terms.allowed_protocols.push(protocol_x);
    terms.denied_protocols.push(protocol_y);
    let policy_id = create(&mut client, terms);
    done(client.accept_policy(&env, policy_id));
    done(client.assign_policy_to_delegation(&env, &mut manager, policy_id, 1));

    assert_eq!(client.get_remaining_daily_limit(1, 1500), 300);

    let res = client.validate_action(&env, &mut manager, 1, asset_a, protocol_x, 50, 1500);
    assert_eq!(res, Ok(ValidationResult::Approved));

    done(client.record_action(&env, 1, 50, 1500));
    assert_eq!(client.get_remaining_daily_limit(1, 1500), 250);

    let res = client.validate_action(&env, &mut manager, 1, asset_a, protocol_x, 200, 1500);
    assert_eq!(res, Ok(ValidationResult::Approved));

    done(client.record_action(&env, 1, 200, 1500));
    assert_eq!(client.get_remaining_daily_limit(1, 1500), 50);

    let res = client.validate_action(&env, &mut manager, 1, asset_a, protocol_x, 60, 1500);
    assert_eq!(res, rejected("amount exceeds daily limit"));

    let res = client.validate_action(&env, &mut manager, 2, asset_a, protocol_x, 50, 1500);
    assert_eq!(res, rejected("delegation not active"));

    let res = client.validate_action(&env, &mut manager, 99, asset_a, protocol_x, 50, 1500);
    assert_eq!(res, rejected("delegation does not exist"));

    let res = client.validate_action(&env, &mut manager, 1, asset_a, protocol_x, 50, 900);
    assert_eq!(res, rejected("policy not yet valid"));

    let res = client.validate_action(&env, &mut manager, 1, asset_a, protocol_x, 50, 2100);
    assert_eq!(res, rejected("policy expired"));

    let other_asset = address(15);
    let res = client.validate_action(&env, &mut manager, 1, other_asset, protocol_x, 50, 1500);
    assert_eq!(res, rejected("asset not allowed"));

    let res = client.validate_action(&env, &mut manager, 1, asset_b, protocol_x, 50, 1500);
    assert_eq!(res, rejected("asset denied"));

    let other_protocol = address(16);
    let res = client.validate_action(&env, &mut manager, 1, asset_a, other_protocol, 50, 1500);
    assert_eq!(res, rejected("protocol not allowed"));

    let res = client.validate_action(&env, &mut manager, 1, asset_a, protocol_y, 50, 1500);
    assert_eq!(res, rejected("protocol denied"));

    let res = client.validate_action(&env, &mut manager, 1, asset_a, protocol_x, 300, 1500);
    assert_eq!(res, rejected("amount exceeds max_notional_per_tx"));
}

#[test]
#[should_panic(expected = "Execution Router not set")]
fn test_record_action_fails_without_router() {
    let mut client = engine();
    done(client.record_action(&env_at(1000), 1, 100, 1000));
}

#[test]
#[should_panic(expected = "cannot assign policy to an inactive delegation")]
fn test_assign_policy_inactive_delegation_fails() {
    let mut manager = MockDelegationManager::new();
    manager.set_delegation(1, true, false, owner());
    let mut client = engine();
    let policy_id = create(&mut client, params(Some(5000), 500, 2000, "Test Policy"));
    done(client.accept_policy(&env_at(1000), policy_id));
    done(client.assign_policy_to_delegation(&env_at(1000), &mut manager, policy_id, 1));
}

#[test]
#[should_panic(expected = "delegation already has an active policy")]
fn test_prevent_multiple_active_policies() {
    let env = env_at(1000);
    let mut manager = MockDelegationManager::new();
    manager.set_delegation(1, true, true, owner());
    let mut client = engine();

    let p1 = create(&mut client, params(Some(5000), 500, 2000, "Test Policy"));
    done(client.accept_policy(&env, p1));
    done(client.assign_policy_to_delegation(&env, &mut manager, p1, 1));

    let p2 = create(&mut client, params(Some(5000), 500, 2000, "Test Policy"));
    done(client.accept_policy(&env, p2));
    done(client.assign_policy_to_delegation(&env, &mut manager, p2, 1));
}

#[test]
fn test_lazy_policy_expiry() {
    let env = env_at(1000);
    let mut manager = MockDelegationManager::new();
    manager.set_delegation(1, true, true, owner());
    let mut client = engine();

    let p1 = create(&mut client, params(Some(2000), 500, 2000, "Test Policy"));
    done(client.accept_policy(&env, p1));
    done(client.assign_policy_to_delegation(&env, &mut manager, p1, 1));

    assert!(done(client.get_active_policy(&env, 1)).is_some());

    let later = env_at(3000);
    assert!(done(client.get_active_policy(&later, 1)).is_none());

    let policy = client.get_policy(p1).unwrap();
    assert_eq!(policy.status, PolicyStatus::Expired);
}

#[test]
fn a_policy_lasts_through_its_last_second() {
    let env = env_at(1000);
    let mut manager = MockDelegationManager::new();
    manager.set_delegation(1, true, true, owner());
    let mut client = engine();
    let id = create(&mut client, params(Some(2000), 500, 2000, "p"));
    done(client.accept_policy(&env, id));
    done(client.assign_policy_to_delegation(&env, &mut manager, id, 1));
    let last = env_at(2000);
    assert!(done(client.get_active_policy(&last, 1)).is_some());
    assert_eq!(
        client.validate_action(&last, &mut manager, 1, address(9), address(9), 1, 2000),
        Ok(ValidationResult::Approved)
    );
    assert!(done(client.get_active_policy(&env_at(2001), 1)).is_none());
    let policy = client.get_policy(id).unwrap();
    assert_eq!(policy.version, 3);
    assert_eq!(policy.updated_at, 2001);
    assert_eq!(client.events.last().unwrap().topic(), "policy_expired");
}

#[test]
fn an_expired_policy_makes_way() {
    let env = env_at(1000);
    let mut manager = MockDelegationManager::new();
    manager.set_delegation(1, true, true, owner());
    let mut client = engine();
    let p1 = create(&mut client, params(Some(2000), 500, 2000, "p1"));
    let p2 = create(&mut client, params(None, 500, 2000, "p2"));
    done(client.accept_policy(&env, p1));
    done(client.accept_policy(&env, p2));
    done(client.assign_policy_to_delegation(&env, &mut manager, p1, 1));
    let later = env_at(2500);
    done(client.assign_policy_to_delegation(&later, &mut manager, p2, 1));
    assert_eq!(client.get_policy(p1).unwrap().status, PolicyStatus::Active);
    assert_eq!(client.get_policy(p1).unwrap().version, 2);
    assert_eq!(done(client.get_active_policy(&later, 1)).unwrap().id, p2);
    let ids: Vec<u64> = client.get_policies_by_delegation(1).iter().map(|p| p.id).collect();
    assert_eq!(ids, vec![p1, p2]);
}

#[test]
fn a_pending_policy_counts_once_accepted() {
    let env = env_at(1000);
    let mut manager = MockDelegationManager::new();
    manager.set_delegation(1, true, true, owner());
    let mut client = engine();
    let id = create(&mut client, params(None, 500, 2000, "p"));
    done(client.assign_policy_to_delegation(&env, &mut manager, id, 1));
    assert!(done(client.get_active_policy(&env, 1)).is_none());
    assert_eq!(
        client.validate_action(&env, &mut manager, 1, address(9), address(9), 1, 1000),
        rejected("no active policy assigned")
    );
    done(client.accept_policy(&env, id));
    assert_eq!(done(client.get_active_policy(&env, 1)).unwrap().id, id);
    done(client.pause_policy(&env, id));
    assert_eq!(
        client.validate_action(&env, &mut manager, 1, address(9), address(9), 1, 1000),
        rejected("policy not active")
    );
}

#[test]
fn unassigning_takes_the_policy_away() {
    let env = env_at(1000);
    let mut manager = MockDelegationManager::new();
    manager.set_delegation(1, true, true, owner());
    let mut client = engine();
    let first = create(&mut client, params(None, 500, 2000, "first"));
    let second = create(&mut client, params(None, 500, 2000, "second"));
    done(client.accept_policy(&env, first));
    done(client.assign_policy_to_delegation(&env, &mut manager, first, 1));
    done(client.assign_policy_to_delegation(&env, &mut manager, second, 1));
    done(client.unassign_policy(&env, first));
    assert_eq!(client.get_policy(first).unwrap().delegation_id, None);
    let ids: Vec<u64> = client.get_policies_by_delegation(1).iter().map(|p| p.id).collect();
    assert_eq!(ids, vec![second]);
    assert!(done(client.get_active_policy(&env, 1)).is_none());
    let unchanged = client.events.len();
    done(client.unassign_policy(&env, first));
    assert_eq!(client.events.len(), unchanged);
}

#[test]
fn engine_refusals_have_their_reasons() {
    let env = env_at(1000);
    let nobody = env_signed(1000, Vec::new());
    let mut manager = MockDelegationManager::new();
    manager.set_delegation(1, true, true, owner());
    manager.set_delegation(2, true, true, delegate());
    let mut fresh = PolicyEngine::new();
    assert_eq!(fresh.get_admin(), Err(PolicyError::NotInitialized));
    assert_eq!(fresh.get_delegation_manager(), Err(PolicyError::NotInitialized));
    assert_eq!(fresh.set_execution_router(&env, router()), Err(PolicyError::NotInitialized));
    assert_eq!(
        fresh.validate_action(&env, &mut manager, 1, address(9), address(9), 1, 1000),
        rejected("Delegation Manager not initialized")
    );
    let orphan = create(&mut fresh, params(None, 1, 1, "p"));
    assert_eq!(
        fresh.assign_policy_to_delegation(&env, &mut manager, orphan, 1),
        Err(PolicyError::NotInitialized)
    );

    let mut client = engine();
    assert_eq!(
        client.initialize(manager_address(), admin()),
        Err(PolicyError::AlreadyInitialized)
    );
    assert_eq!(
        client.set_execution_router(&nobody, router()),
        Err(PolicyError::Unauthorized(admin()))
    );
    assert_eq!(
        client.create_policy(&nobody, owner(), delegate(), params(None, 1, 1, "p")),
        Err(PolicyError::Unauthorized(owner()))
    );
    assert_eq!(
        client.create_policy(&env, owner(), delegate(), params(Some(1000), 1, 1, "p")),
        Err(PolicyError::ValidUntilNotInFuture)
    );
    assert_eq!(client.accept_policy(&env, 1), Err(PolicyError::PolicyNotFound));
    let id = create(&mut client, params(None, 500, 2000, "p"));
    assert_eq!(client.accept_policy(&nobody, id), Err(PolicyError::Unauthorized(delegate())));
    assert_eq!(client.pause_policy(&nobody, id), Err(PolicyError::Unauthorized(owner())));
    assert_eq!(client.pause_policy(&env, id), Err(PolicyError::NotActive));
    assert_eq!(client.resume_policy(&env, id), Err(PolicyError::NotPaused));
    assert_eq!(
        client.assign_policy_to_delegation(&env, &mut manager, id, 7),
        Err(PolicyError::DelegationNotFound)
    );
    assert_eq!(
        client.assign_policy_to_delegation(&env, &mut manager, id, 2),
        Err(PolicyError::OwnerMismatch)
    );
    done(client.accept_policy(&env, id));
    assert_eq!(client.accept_policy(&env, id), Err(PolicyError::NotPending));
    done(client.set_execution_router(&env, router()));
    assert_eq!(client.record_action(&nobody, 1, 1, 1), Err(PolicyError::Unauthorized(router())));
    assert_eq!(client.record_action(&env, 1, 1, 1), Err(PolicyError::NoActivePolicy));
    assert_eq!(client.get_remaining_daily_limit(1, 1), 0);
    done(client.revoke_policy(&env, id));
    assert_eq!(client.revoke_policy(&env, id), Err(PolicyError::AlreadyRevoked));
    assert_eq!(
        client.update_policy(&env, id, params(None, 1, 1, "p")),
        Err(PolicyError::UpdateRevoked)
    );
    client.counter = Some(u64::MAX);
    assert_eq!(
        client.create_policy(&env, owner(), delegate(), params(None, 1, 1, "p")),
        Err(PolicyError::Overflow)
    );
    assert_eq!(PolicyError::Overflow.message(), "attempt to add with overflow");
    assert_eq!(
        PolicyError::Delegation(DelegationError::VersionOverflow).message(),
        "version overflow"
    );
}

#[test]
fn sums_that_do_not_fit_are_refused() {
    let env = env_at(1000);
    let mut manager = MockDelegationManager::new();
    manager.set_delegation(1, true, true, owner());
    let mut client = engine();
    done(client.set_execution_router(&env, router()));
    let id = create(&mut client, params(None, u128::MAX, u128::MAX, "p"));
    done(client.accept_policy(&env, id));
    done(client.assign_policy_to_delegation(&env, &mut manager, id, 1));
    done(client.record_action(&env, 1, u128::MAX, 1000));
    assert_eq!(
        client.validate_action(&env, &mut manager, 1, address(9), address(9), 1, 1000),
        Err(PolicyError::Overflow)
    );
    assert_eq!(client.record_action(&env, 1, 1, 1000), Err(PolicyError::Overflow));
    assert_eq!(client.get_remaining_daily_limit(1, 1000), 0);
}

#[test]
fn limits_start_anew_each_day() {
    let env = env_at(1000);
    let mut manager = MockDelegationManager::new();
    manager.set_delegation(1, true, true, owner());
    let mut client = engine();
    done(client.set_execution_router(&env, router()));
    let id = create(&mut client, params(None, 100, 100, "p"));
    done(client.accept_policy(&env, id));
    done(client.assign_policy_to_delegation(&env, &mut manager, id, 1));
    done(client.record_action(&env, 1, 70, 86399));
    assert_eq!(client.get_remaining_daily_limit(1, 0), 30);
    assert_eq!(client.get_remaining_daily_limit(1, 86399), 30);
    assert_eq!(client.get_remaining_daily_limit(1, 86400), 100);
}

#[test]
fn every_policy_change_publishes_its_event() {
    let env = env_at(1000);
    let mut manager = MockDelegationManager::new();
    manager.set_delegation(1, true, true, owner());
    let mut client = engine();
    let id = create(&mut client, params(None, 100, 100, "p"));
    done(client.accept_policy(&env, id));
    done(client.assign_policy_to_delegation(&env, &mut manager, id, 1));
    done(client.pause_policy(&env, id));
    done(client.resume_policy(&env, id));
    done(client.update_policy(&env, id, params(None, 1, 1, "q")));
    done(client.revoke_policy(&env, id));
    let topics: Vec<&str> = client.events.iter().map(|event| event.topic()).collect();
    assert_eq!(
        topics,
        vec![
            "policy_created",
            "policy_updated",
            "policy_assigned",
            "policy_paused",
            "policy_resumed",
            "policy_updated",
            "policy_revoked",
        ]
    );
    assert_eq!(
        client.events[2],
        PolicyEvent::Assigned { policy_id: id, delegation_id: 1, timestamp: 1000, version: 2 }
    );
    assert_eq!(
        client.events[6],
        PolicyEvent::Changed {
            change: PolicyChange::Revoked,
            policy_id: id,
            owner: owner(),
            delegate: delegate(),
            timestamp: 1000,
            version: 6,
        }
    );
}

#[test]
fn other_policies_are_left_alone() {
    let env = env_at(1000);
    let mut manager = MockDelegationManager::new();
    manager.set_delegation(1, true, true, owner());
    manager.set_delegation(2, true, true, owner());
    let mut client = engine();
    let first = create(&mut client, params(None, 500, 2000, "first"));
    let second = create(&mut client, params(None, 500, 2000, "second"));
    done(client.accept_policy(&env, first));
    done(client.accept_policy(&env, second));
    done(client.assign_policy_to_delegation(&env, &mut manager, first, 1));
    done(client.assign_policy_to_delegation(&env, &mut manager, second, 2));
    let before = client.get_policy(second).unwrap();
    done(client.pause_policy(&env, first));
    done(client.update_policy(&env, first, params(None, 1, 1, "changed")));
    done(client.unassign_policy(&env, first));
    done(client.revoke_policy(&env, first));
    assert_eq!(client.get_policy(second).unwrap(), before);
    assert_eq!(done(client.get_active_policy(&env, 2)).unwrap().id, second);
    let ids: Vec<u64> = client.get_policies_by_delegation(2).iter().map(|p| p.id).collect();
    assert_eq!(ids, vec![second]);
    assert_eq!(client.get_remaining_daily_limit(2, 1000), 2000);
}

#[test]
fn only_another_active_policy_is_in_the_way() {
    let env = env_at(1000);
    let mut manager = MockDelegationManager::new();
    manager.set_delegation(1, true, true, owner());
    manager.set_delegation(2, true, true, owner());
    let mut client = engine();
    let p1 = create(&mut client, params(None, 500, 2000, "p1"));
    let p2 = create(&mut client, params(None, 500, 2000, "p2"));
    let p3 = create(&mut client, params(None, 500, 2000, "p3"));
    done(client.accept_policy(&env, p1));
    done(client.accept_policy(&env, p2));
    done(client.accept_policy(&env, p3));

    // The same policy again
    done(client.assign_policy_to_delegation(&env, &mut manager, p1, 1));
    done(client.assign_policy_to_delegation(&env, &mut manager, p1, 1));
    let ids: Vec<u64> = client.get_policies_by_delegation(1).iter().map(|p| p.id).collect();
    assert_eq!(ids, vec![p1, p1]);
    assert_eq!(
        client.assign_policy_to_delegation(&env, &mut manager, p2, 1),
        Err(PolicyError::AlreadyActivePolicy)
    );

    // A revoked policy that was left behind
    done(client.assign_policy_to_delegation(&env, &mut manager, p1, 2));
    done(client.revoke_policy(&env, p1));
    assert_eq!(done(client.get_active_policy(&env, 1)).unwrap().id, p1);
    done(client.assign_policy_to_delegation(&env, &mut manager, p2, 1));
    assert_eq!(done(client.get_active_policy(&env, 1)).unwrap().id, p2);

    // A paused policy
    done(client.pause_policy(&env, p2));
    done(client.assign_policy_to_delegation(&env, &mut manager, p3, 1));
    assert_eq!(done(client.get_active_policy(&env, 1)).unwrap().id, p3);
    assert_eq!(client.get_policy(p2).unwrap().status, PolicyStatus::Paused);

    // Once it is taken away, none counts
    done(client.unassign_policy(&env, p3));
    assert!(done(client.get_active_policy(&env, 1)).is_none());
}

#[test]
fn an_accepted_policy_takes_over() {
    let env = env_at(1000);
    let mut manager = MockDelegationManager::new();
    manager.set_delegation(1, true, true, owner());
    let mut client = engine();
    let p1 = create(&mut client, params(None, 500, 2000, "p1"));
    let p2 = create(&mut client, params(None, 500, 2000, "p2"));
    done(client.accept_policy(&env, p1));
    done(client.assign_policy_to_delegation(&env, &mut manager, p1, 1));
    done(client.assign_policy_to_delegation(&env, &mut manager, p2, 1));
    assert_eq!(done(client.get_active_policy(&env, 1)).unwrap().id, p1);
    done(client.accept_policy(&env, p2));
    assert_eq!(done(client.get_active_policy(&env, 1)).unwrap().id, p2);
    assert_eq!(client.get_policy(p1).unwrap().status, PolicyStatus::Active);
}

#[test]
fn asking_about_an_action_marks_a_lapsed_delegation() {
    let mut manager = DelegationManager::new();
    let details = DelegationMetadata {
        label: "d".to_string(),
        strategy_id: None,
        description: None,
        tags: Vec::new(),
    };
    let env = env_at(1000);
    let id = manager
        .create_delegation(&env, owner(), delegate(), details, Some(2000))
        .unwrap();
    manager.accept_delegation(&env, id).unwrap();
    let mut client = engine();
    let policy = create(&mut client, params(None, 500, 2000, "p"));
    done(client.accept_policy(&env, policy));
    done(client.assign_policy_to_delegation(&env, &mut manager, policy, id));

    let later = env_at(2000);
    let events = manager.events.len();
    // A refusal leaves the manager as it was
    let second = create(&mut client, params(None, 500, 2000, "q"));
    assert_eq!(
        client.assign_policy_to_delegation(&later, &mut manager, second, id),
        Err(PolicyError::InactiveDelegation)
    );
    assert_eq!(manager.get_delegate_status(id), Some(DelegationStatus::Active));
    assert_eq!(manager.events.len(), events);

    assert_eq!(
        client.validate_action(&later, &mut manager, id, address(9), address(9), 1, 2000),
        rejected("delegation not active")
    );
    assert_eq!(manager.get_delegate_status(id), Some(DelegationStatus::Expired));
    assert_eq!(manager.events.len(), events + 1);
    assert_eq!(manager.events[events].change.topic(), "delegation_expired");
    let pair = Pair { owner: owner(), delegate: delegate() };
    assert_eq!(manager.active.get(&pair), None);
}
