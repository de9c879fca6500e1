use delegated_execution::delegation_manager::{
    DelegationError, DelegationManager, DelegationMetadata,
};
use delegated_execution::execution_router::{
    Answers, ExecutionEvent, ExecutionIntent, ExecutionRouter, ExecutionStage, ExecutionStatus,
    Managers, PolicySummary, Query, RouterError, Settlement, Step,
};
use delegated_execution::ledger::{Address, AddressKind, Bytes32, Env};
use delegated_execution::policy_engine::{
    PolicyEngine, PolicyError, PolicyParams, PolicyStatus, ValidationResult,
};

fn address(n: u128) -> Address {
    Address { kind: AddressKind::Account, high: 0, low: n }
}

fn contract(n: u128) -> Address {
    Address { kind: AddressKind::Contract, high: 0, low: n }
}

fn router_env(signers: Vec<Address>) -> Env {
    Env {
        timestamp: 0,
        contract: contract(103),
        invoker: None,
        signers,
        inner_signers: Vec::new(),
    }
}

fn make_intent_hash(val: u8) -> Bytes32 {
    Bytes32 { high: (val as u128) << 120, low: 0 }
}

struct TestFixture {
    now: u64,
    admin: Address,
    owner: Address,
    delegate: Address,
    asset: Address,
    protocol: Address,
    target: Address,
    managers: Managers,
    pe: PolicyEngine,
    er: ExecutionRouter,
    delegation_id: u64,
    policy_id: u64,
}

impl TestFixture {
    fn env_of(&self, contract_id: Address) -> Env {
        Env {
            timestamp: self.now,
            contract: contract_id,
            invoker: None,
            signers: vec![self.admin, self.owner, self.delegate],
            inner_signers: Vec::new(),
        }
    }

    fn setup() -> TestFixture {
        let dm_id = contract(101);
        let pe_id = contract(102);
        let er_id = contract(103);
        let mut f = TestFixture {
            now: 1000,
            admin: address(1),
            owner: address(2),
            delegate: address(3),
            asset: address(4),
            protocol: address(5),
            target: address(6),
            managers: Managers {
                asked_by_router: DelegationManager::new(),
                asked_by_engine: None,
            },
            pe: PolicyEngine::new(),
            er: ExecutionRouter::new(),
            delegation_id: 0,
            policy_id: 0,
        };
        f.pe.initialize(dm_id, f.admin).unwrap();
        f.er.initialize(f.admin, dm_id, pe_id).unwrap();
        let env = f.env_of(pe_id);
        f.pe.set_execution_router(&env, er_id).unwrap();

        let dm_meta = DelegationMetadata {
            label: "Test Delegation".to_string(),
            strategy_id: Some(1),
            description: None,
            tags: Vec::new(),
        };
        f.delegation_id = f
            .managers
            .asked_by_router
            .create_delegation(&env, f.owner, f.delegate, dm_meta, Some(20000))
            .unwrap();
        f.managers.asked_by_router.accept_delegation(&env, f.delegation_id).unwrap();

        let pe_params = PolicyParams {
            strategy_id: Some(1),
            valid_from: 1000,
            valid_until: Some(15000),
            max_notional_per_tx: 1000,
            max_notional_per_day: 5000,
            allowed_assets: Vec::new(),
            denied_assets: Vec::new(),
            allowed_protocols: Vec::new(),
            denied_protocols: Vec::new(),
            metadata: "Test Policy".to_string(),
        };
        f.policy_id = f.pe.create_policy(&env, f.owner, f.delegate, pe_params).unwrap();
        f.pe.accept_policy(&env, f.policy_id).unwrap();
        f.pe
            .assign_policy_to_delegation(
                &env,
                &mut f.managers.asked_by_router,
                f.policy_id,
                f.delegation_id,
            )
            .unwrap();
        f
    }

    fn intent(&self, expiry: u64) -> ExecutionIntent {
        ExecutionIntent {
            intent_hash: make_intent_hash(1),
            delegation_id: self.delegation_id,
            policy_id: self.policy_id,
            delegate: self.delegate,
            asset: self.asset,
            protocol: self.protocol,
            action_type: "swap".to_string(),
            amount: 500,
            target: self.target,
            payload_hash: make_intent_hash(99),
            nonce: 1,
            timestamp: 1000,
            expiry,
        }
    }

    fn env(&self) -> Env {
        self.env_of(contract(103))
    }

    fn try_execute(&mut self, intent: &ExecutionIntent) -> Result<u64, RouterError> {
        let env = self.env();
        self.er.execute_intent(&env, &mut self.managers, &mut self.pe, intent)
    }

    fn execute(&mut self, intent: &ExecutionIntent) -> u64 {
        match self.try_execute(intent) {
            Ok(id) => id,
            Err(error) => panic!("{}", error.message()),
        }
    }

    fn simulate(&mut self, intent: &ExecutionIntent) -> Result<ValidationResult, RouterError> {
        let env = self.env();
        self.er.simulate_intent(&env, &mut self.managers, &mut self.pe, intent)
    }

    fn reason(&self, execution_id: u64) -> String {
        let record = self.er.get_execution(execution_id).unwrap();
        assert_eq!(record.status, ExecutionStatus::Rejected);
        record.rejection_reason.unwrap()
    }
}

#[test]
fn test_successful_execution() {
    let mut f = TestFixture::setup();
    let intent_hash = make_intent_hash(1);
    let intent = f.intent(2000);

    let exec_id = f.execute(&intent);
    assert_eq!(exec_id, 1);

    let record = f.er.get_execution(exec_id).unwrap();
    assert_eq!(record.execution_id, 1);
    assert_eq!(record.intent_hash, intent_hash);
    assert_eq!(record.status, ExecutionStatus::Executed);
    assert_eq!(record.amount, 500);

    let record_by_hash = f.er.get_execution_by_hash(intent_hash).unwrap();
    assert_eq!(record_by_hash.execution_id, 1);

    assert!(f.er.execution_exists(exec_id));
    assert_eq!(f.er.get_execution_status(exec_id), Some(ExecutionStatus::Executed));
}

#[test]
#[should_panic(expected = "intent hash already seen")]
fn test_replay_prevention() {
    let mut f = TestFixture::setup();
    let intent = f.intent(2000);
    f.execute(&intent);
    f.execute(&intent);
}

#[test]
fn test_invalid_authority() {
    let mut f = TestFixture::setup();
    let mut intent = f.intent(2000);
    intent.delegate = address(77);

    let exec_id = f.execute(&intent);
    let record = f.er.get_execution(exec_id).unwrap();
    assert_eq!(record.status, ExecutionStatus::Rejected);
    assert!(record.rejection_reason.is_some());
}

#[test]
fn test_invalid_policy() {
    let mut f = TestFixture::setup();
    let mut intent = f.intent(2000);
    intent.policy_id = f.policy_id + 1;

    let exec_id = f.execute(&intent);
    let record = f.er.get_execution(exec_id).unwrap();
    assert_eq!(record.status, ExecutionStatus::Rejected);
    assert_eq!(record.rejection_reason.unwrap(), "policy mismatch");
}

#[test]
fn test_expired_delegation() {
    let mut f = TestFixture::setup();
    let intent = f.intent(30000);
    f.now = 21000;

    let exec_id = f.execute(&intent);
    let record = f.er.get_execution(exec_id).unwrap();
    assert_eq!(record.status, ExecutionStatus::Rejected);
    assert_eq!(record.rejection_reason.unwrap(), "delegation not active");
}

#[test]
fn test_expired_policy() {
    let mut f = TestFixture::setup();
    let intent = f.intent(30000);
    f.now = 16000;

    let exec_id = f.execute(&intent);
    let record = f.er.get_execution(exec_id).unwrap();
    assert_eq!(record.status, ExecutionStatus::Rejected);
    assert_eq!(record.rejection_reason.unwrap(), "policy expired");
}

#[test]
fn test_expired_intent() {
    let mut f = TestFixture::setup();
    let intent = f.intent(2000);
    f.now = 2500;

    let exec_id = f.execute(&intent);
    let record = f.er.get_execution(exec_id).unwrap();
    assert_eq!(record.status, ExecutionStatus::Rejected);
    assert_eq!(record.rejection_reason.unwrap(), "intent expired");
}

#[test]
fn test_simulation_path() {
    let mut f = TestFixture::setup();
    let intent = f.intent(2000);

    let result = f.simulate(&intent).unwrap();
    assert!(matches!(result, ValidationResult::Approved));

    assert!(!f.er.execution_exists(1));

    let mut bad_intent = intent.clone();
    bad_intent.amount = 10000;
    let result_bad = f.simulate(&bad_intent).unwrap();
    assert!(matches!(result_bad, ValidationResult::Rejected(_)));
}

#[test]
#[should_panic]
fn test_unauthorized_router_dependencies_update() {
    let mut er = ExecutionRouter::new();
    er.initialize(address(1), contract(2), contract(3)).unwrap();
    let env = router_env(Vec::new());
    er.set_delegation_manager(&env, contract(4)).unwrap();
}

#[test]
fn an_execution_is_charged_and_announced() {
    let mut f = TestFixture::setup();
    let intent = f.intent(2000);
    let before = f.pe.get_remaining_daily_limit(f.delegation_id, 1000);
    assert_eq!(before, 5000);
    let id = f.execute(&intent);
    assert_eq!(f.pe.get_remaining_daily_limit(f.delegation_id, 1000), 4500);
    let topics: Vec<&str> = f.er.events.iter().map(|event| event.stage.topic()).collect();
    assert_eq!(
        topics,
        vec![
            "execution_requested",
            "execution_validated",
            "execution_approved",
            "execution_executed",
        ]
    );
    assert_eq!(
        f.er.events[3],
        ExecutionEvent {
            stage: ExecutionStage::Executed,
            execution_id: id,
            intent_hash: make_intent_hash(1),
            delegation_id: f.delegation_id,
            policy_id: f.policy_id,
            amount: 500,
            timestamp: 1000,
        }
    );
}

#[test]
fn a_rejection_is_not_charged_but_takes_the_hash() {
    let mut f = TestFixture::setup();
    let mut intent = f.intent(2000);
    intent.amount = 1001;
    let id = f.execute(&intent);
    assert_eq!(f.reason(id), "amount exceeds max_notional_per_tx");
    assert_eq!(f.pe.get_remaining_daily_limit(f.delegation_id, 1000), 5000);
    assert_eq!(f.er.events.len(), 3);
    assert_eq!(f.er.events[2].stage.topic(), "execution_rejected");
    intent.amount = 500;
    assert_eq!(f.try_execute(&intent), Err(RouterError::IntentAlreadySeen));
    assert_eq!(f.simulate(&intent).unwrap(), ValidationResult::Rejected(
        "intent hash already seen".to_string()
    ));
    assert_eq!(f.er.counter, Some(1));
}

#[test]
fn an_expired_replay_is_recorded_as_rejected() {
    let mut f = TestFixture::setup();
    let intent = f.intent(2000);
    let first = f.execute(&intent);
    f.now = 2000;
    let second = f.execute(&intent);
    assert_eq!(f.reason(second), "intent expired");
    assert_eq!(f.er.get_execution_status(first), Some(ExecutionStatus::Executed));
    assert_eq!(f.er.get_execution_by_hash(make_intent_hash(1)).unwrap().execution_id, second);
}

#[test]
fn the_daily_limit_ends_the_day() {
    let mut f = TestFixture::setup();
    for n in 1..=6u8 {
        let mut intent = f.intent(2000);
        intent.intent_hash = make_intent_hash(n);
        intent.amount = 1000;
        let id = f.execute(&intent);
        let status = f.er.get_execution_status(id).unwrap();
        if n <= 5 {
            assert_eq!(status, ExecutionStatus::Executed);
        } else {
            assert_eq!(f.reason(id), "amount exceeds daily limit");
        }
    }
    assert_eq!(f.pe.get_remaining_daily_limit(f.delegation_id, 1000), 0);
}

#[test]
fn a_paused_delegation_or_policy_stops_execution() {
    let mut f = TestFixture::setup();
    let env = f.env();
    f.managers.asked_by_router.pause_delegation(&env, f.delegation_id).unwrap();
    let intent = f.intent(2000);
    let id = f.execute(&intent);
    assert_eq!(f.reason(id), "delegation not active");

    f.managers.asked_by_router.resume_delegation(&env, f.delegation_id).unwrap();
    f.pe.pause_policy(&env, f.policy_id).unwrap();
    let mut again = f.intent(2000);
    again.intent_hash = make_intent_hash(2);
    let id = f.execute(&again);
    assert_eq!(f.reason(id), "policy not active");

    f.pe.revoke_policy(&env, f.policy_id).unwrap();
    again.intent_hash = make_intent_hash(3);
    let id = f.execute(&again);
    assert_eq!(f.reason(id), "no active policy assigned");
}

#[test]
fn the_lapse_of_a_delegation_is_kept() {
    let mut f = TestFixture::setup();
    f.now = 20000;
    let intent = f.intent(30000);
    let id = f.execute(&intent);
    assert_eq!(f.reason(id), "delegation not active");
    assert_eq!(f.managers.asked_by_router.events.last().unwrap().change.topic(), "delegation_expired");
}

#[test]
fn an_aborted_execution_leaves_no_trace() {
    let mut f = TestFixture::setup();
    let intent = f.intent(30000);
    f.er.counter = Some(u64::MAX);
    f.now = 20000;
    let extended = f.managers.asked_by_router.extended.len();
    let events = f.managers.asked_by_router.events.len();
    assert_eq!(f.try_execute(&intent), Err(RouterError::Overflow));
    assert_eq!(f.managers.asked_by_router.extended.len(), extended);
    assert_eq!(f.managers.asked_by_router.events.len(), events);
    assert!(f.er.get_execution_by_hash(make_intent_hash(1)).is_none());

    let mut f = TestFixture::setup();
    let mut delegation = f.managers.asked_by_router.get_delegation(f.delegation_id).unwrap();
    delegation.version = u32::MAX;
    f.managers.asked_by_router.delegations.insert(f.delegation_id, delegation);
    f.now = 20000;
    let intent = f.intent(30000);
    assert_eq!(
        f.try_execute(&intent),
        Err(RouterError::Delegation(DelegationError::VersionOverflow))
    );
}

#[test]
fn only_the_registered_router_can_charge() {
    let mut f = TestFixture::setup();
    let intent = f.intent(2000);
    let env = f.env_of(contract(104));
    assert_eq!(
        f.er.execute_intent(&env, &mut f.managers, &mut f.pe, &intent),
        Err(RouterError::Policy(PolicyError::Unauthorized(contract(103))))
    );
    assert!(!f.er.execution_exists(1));
    assert_eq!(f.pe.get_remaining_daily_limit(f.delegation_id, 1000), 5000);
}

#[test]
fn the_configuration_belongs_to_the_admin() {
    let mut er = ExecutionRouter::new();
    let nobody = router_env(Vec::new());
    let signed = router_env(vec![address(1)]);
    assert_eq!(er.get_admin(), Err(RouterError::NotInitialized));
    assert_eq!(er.get_delegation_manager(), Err(RouterError::NotInitialized));
    assert_eq!(er.get_policy_engine(), Err(RouterError::NotInitialized));
    assert_eq!(er.set_policy_engine(&signed, contract(9)), Err(RouterError::NotInitialized));
    er.initialize(address(1), contract(2), contract(3)).unwrap();
    assert_eq!(
        er.initialize(address(4), contract(2), contract(3)),
        Err(RouterError::AlreadyInitialized)
    );
    assert_eq!(
        er.set_delegation_manager(&nobody, contract(4)),
        Err(RouterError::Unauthorized(address(1)))
    );
    er.set_delegation_manager(&signed, contract(4)).unwrap();
    er.set_policy_engine(&signed, contract(5)).unwrap();
    assert_eq!(er.get_admin(), Ok(address(1)));
    assert_eq!(er.get_delegation_manager(), Ok(contract(4)));
    assert_eq!(er.get_policy_engine(), Ok(contract(5)));
}

#[test]
fn an_unconfigured_router_validates_nothing() {
    let mut f = TestFixture::setup();
    let intent = f.intent(2000);
    let env = f.env();
    let er = ExecutionRouter::new();
    assert_eq!(
        er.validate_execution(&env, &mut f.managers, &mut f.pe, &intent),
        Err(RouterError::NotInitialized)
    );
    assert_eq!(
        er.next_step(&env, &intent, &Answers::new()),
        Err(RouterError::NotInitialized)
    );
}

#[test]
fn questions_are_asked_one_after_the_other() {
    let f = TestFixture::setup();
    let intent = f.intent(2000);
    let env = f.env();
    let mut answers = Answers::new();
    let next = |answers: &Answers| f.er.next_step(&env, &intent, answers).unwrap();
    let rejected =
        |reason: &str| Step::Decide(ValidationResult::Rejected(reason.to_string()));

    assert_eq!(next(&answers), Step::Ask(Query::IsActiveDelegation));
    answers.active = Some(false);
    assert_eq!(next(&answers), rejected("delegation not active"));
    answers.active = Some(true);
    assert_eq!(next(&answers), Step::Ask(Query::GetOwner));
    answers.owner = Some(None);
    assert_eq!(next(&answers), rejected("delegation does not exist"));
    answers.owner = Some(Some(f.owner));
    assert_eq!(next(&answers), Step::Ask(Query::GetDelegate));
    answers.delegate = Some(None);
    assert_eq!(next(&answers), rejected("delegation does not exist"));
    answers.delegate = Some(Some(f.owner));
    assert_eq!(next(&answers), rejected("delegate mismatch"));
    answers.delegate = Some(Some(f.delegate));
    assert_eq!(next(&answers), Step::Ask(Query::VerifyAuthority(f.owner)));
    answers.authority = Some(false);
    assert_eq!(next(&answers), rejected("invalid authority"));
    answers.authority = Some(true);
    assert_eq!(next(&answers), Step::Ask(Query::ValidateAction));
    answers.validation = Some(ValidationResult::Rejected("asset denied".to_string()));
    assert_eq!(next(&answers), rejected("asset denied"));
    answers.validation = Some(ValidationResult::Approved);
    assert_eq!(next(&answers), Step::Ask(Query::GetActivePolicy));
    answers.policy = Some(None);
    assert_eq!(next(&answers), rejected("no active policy assigned"));
    answers.policy = Some(Some(PolicySummary { id: 9, status: PolicyStatus::Active }));
    assert_eq!(next(&answers), rejected("policy mismatch"));
    answers.policy =
        Some(Some(PolicySummary { id: f.policy_id, status: PolicyStatus::Paused }));
    assert_eq!(next(&answers), rejected("policy not active"));
    answers.policy =
        Some(Some(PolicySummary { id: f.policy_id, status: PolicyStatus::Active }));
    assert_eq!(next(&answers), Step::Decide(ValidationResult::Approved));
}

#[test]
fn authority_is_asked_of_the_registry() {
    let mut f = TestFixture::setup();
    let pair = delegated_execution::delegation_manager::Pair {
        owner: f.owner,
        delegate: f.delegate,
    };
    f.managers.asked_by_router.active.remove(&pair);
    let intent = f.intent(2000);
    let id = f.execute(&intent);
    assert_eq!(f.reason(id), "invalid authority");
}

#[test]
fn the_engine_may_have_a_manager_of_its_own() {
    // The router's manager is replaced by one that has the same delegation
    let mut f = TestFixture::setup();
    let env = f.env();
    f.er.set_delegation_manager(&env, contract(111)).unwrap();
    f.managers.asked_by_engine = Some(f.managers.asked_by_router.clone());
    let intent = f.intent(2000);
    let id = f.execute(&intent);
    assert_eq!(f.er.get_execution_status(id), Some(ExecutionStatus::Executed));

    // What happens with the engine's manager is not seen by the router's
    let mut engines = f.managers.asked_by_engine.take().unwrap();
    engines.pause_delegation(&env, f.delegation_id).unwrap();
    f.managers.asked_by_engine = Some(engines);
    let mut again = f.intent(2000);
    again.intent_hash = make_intent_hash(2);
    let extended = f.managers.asked_by_engine.as_ref().unwrap().extended.len();
    let id = f.execute(&again);
    assert_eq!(f.reason(id), "delegation not active");
    assert!(f.managers.asked_by_engine.as_ref().unwrap().extended.len() > extended);
    assert!(!f.managers.asked_by_router.is_paused(f.delegation_id));

    // Nor the other way round
    f.managers.asked_by_engine = Some(DelegationManager::new());
    again.intent_hash = make_intent_hash(3);
    let id = f.execute(&again);
    assert_eq!(f.reason(id), "delegation does not exist");
    f.managers.asked_by_router.pause_delegation(&env, f.delegation_id).unwrap();
    again.intent_hash = make_intent_hash(4);
    let id = f.execute(&again);
    assert_eq!(f.reason(id), "delegation not active");
}

#[test]
fn an_approved_intent_is_charged_before_it_is_recorded() {
    let mut f = TestFixture::setup();
    let intent = f.intent(2000);
    let env = f.env();
    let approved = ValidationResult::Approved;
    assert_eq!(
        f.er.settle(&env, &intent, &approved, false),
        Ok(Settlement::Charge {
            policy_engine: contract(102),
            delegation_id: f.delegation_id,
            amount: 500,
            timestamp: 1000,
        })
    );
    assert_eq!(f.er.settle(&env, &intent, &approved, true), Ok(Settlement::Record));
    let rejected = |reason: &str| ValidationResult::Rejected(reason.to_string());
    assert_eq!(
        f.er.settle(&env, &intent, &rejected("asset denied"), false),
        Ok(Settlement::Record)
    );
    assert_eq!(
        f.er.settle(&env, &intent, &rejected("intent hash already seen"), false),
        Err(RouterError::IntentAlreadySeen)
    );
    assert_eq!(
        ExecutionRouter::new().settle(&env, &intent, &approved, false),
        Err(RouterError::NotInitialized)
    );
    f.er.counter = Some(u64::MAX);
    assert_eq!(f.er.settle(&env, &intent, &approved, false), Err(RouterError::Overflow));
}

#[test]
fn executions_are_numbered_without_gaps() {
    let mut f = TestFixture::setup();
    for n in 1..=3u8 {
        let mut intent = f.intent(2000);
        intent.intent_hash = make_intent_hash(n);
        assert_eq!(f.execute(&intent), n as u64);
        assert_eq!(f.try_execute(&intent), Err(RouterError::IntentAlreadySeen));
    }
    assert!((1..=3u64).all(|id| f.er.execution_exists(id)));
    assert!(!f.er.execution_exists(4));
}

#[test]
fn authorization_does_not_reach_inner_invocations() {
    // The engine takes records from a contract that calls the router
    let mut f = TestFixture::setup();
    let caller = contract(120);
    let engine_env = f.env_of(contract(102));
    f.pe.set_execution_router(&engine_env, caller).unwrap();
    let intent = f.intent(2000);
    let refused = Err(RouterError::Policy(PolicyError::Unauthorized(caller)));
    let mut env = f.env();
    env.invoker = Some(caller);
    assert!(env.has_auth(&caller));
    assert_eq!(f.er.execute_intent(&env, &mut f.managers, &mut f.pe, &intent), refused);
    env.signers.push(caller);
    assert_eq!(f.er.execute_intent(&env, &mut f.managers, &mut f.pe, &intent), refused);

    // It is enough that it has signed the inner invocation
    env.inner_signers.push(caller);
    assert_eq!(f.er.execute_intent(&env, &mut f.managers, &mut f.pe, &intent), Ok(1));

    let inner = env.invoke(contract(102));
    assert_eq!(inner.invoker, Some(contract(103)));
    assert!(inner.has_auth(&contract(103)));
    assert!(!inner.has_auth(&f.admin));
}

#[test]
fn an_intent_rejected_before_initialization_is_no_execution() {
    let mut f = TestFixture::setup();
    f.er = ExecutionRouter::new();
    f.now = 2000;
    let expired = f.intent(2000);
    assert_eq!(f.execute(&expired), 1);
    assert_eq!(f.reason(1), "intent expired");
    f.er.initialize(f.admin, contract(101), contract(102)).unwrap();
    let mut fresh = f.intent(3000);
    fresh.intent_hash = make_intent_hash(2);
    assert_eq!(f.execute(&fresh), 1);
    assert_eq!(f.er.get_execution_status(1), Some(ExecutionStatus::Executed));
    assert_eq!(f.try_execute(&fresh), Err(RouterError::IntentAlreadySeen));
}
