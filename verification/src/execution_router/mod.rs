//! The execution router: it executes a delegate's intent once, if the
//! delegation and the policy allow it, and keeps a record of every intent.

pub mod laws;
mod model;
pub mod outcomes;
mod types;

pub use laws::{true_answers, RouterRequest};
pub use model::{
    engine_judges, next_about_delegation, next_about_policy, policy_verdict, replayed,
    validate_authority, validate_policy, AnswersView, ManagersView, PolicySummary, Query,
    RouterView, Settlement, StepView,
};
pub use types::{
    Execution, ExecutionEvent, ExecutionIntent, ExecutionStage, ExecutionStatus, ExecutionView,
    IntentView, RouterError,
};

use crate::delegation_manager::DelegationManager;
use crate::ledger::{Address, Bytes32, Env};
use crate::policy_engine::{PolicyEngine, PolicyError, PolicyStatus, ValidationResult, Verdict};
use crate::table::{Record, Table};
use vstd::prelude::*;

verus! {

/// The execution router.
#[derive(Debug)]
pub struct ExecutionRouter {
    pub admin: Option<Address>,
    pub delegation_manager: Option<Address>,
    pub policy_engine: Option<Address>,
    /// The id of the latest execution, once the router is initialized.
    pub counter: Option<u64>,
    pub executions: Table<u64, Execution>,
    /// The execution of an intent, by the intent's hash.
    pub intents: Table<Bytes32, u64>,
    /// The events published so far.
    pub events: Vec<ExecutionEvent>,
}

/// The delegation managers that an intent is held against.
#[derive(Debug)]
pub struct Managers {
    /// The one at the address that the router has.
    pub asked_by_router: DelegationManager,
    /// The one at the address that the engine has, where that is another.
    pub asked_by_engine: Option<DelegationManager>,
}

impl View for Managers {
    type V = ManagersView;

    open spec fn view(&self) -> ManagersView {
        ManagersView {
            asked_by_router: self.asked_by_router@,
            asked_by_engine: match self.asked_by_engine {
                Some(manager) => Some(manager@),
                None => None,
            },
        }
    }
}

impl Clone for Managers {
    fn clone(&self) -> (r: Self)
        ensures
            r@ == self@,
    {
        Managers {
            asked_by_router: self.asked_by_router.clone(),
            asked_by_engine: match &self.asked_by_engine {
                Some(manager) => Some(manager.clone()),
                None => None,
            },
        }
    }
}

/// The answers that the router has got so far.
#[derive(Debug, PartialEq, Eq)]
pub struct Answers {
    pub active: Option<bool>,
    pub owner: Option<Option<Address>>,
    pub delegate: Option<Option<Address>>,
    pub authority: Option<bool>,
    pub validation: Option<ValidationResult>,
    pub policy: Option<Option<PolicySummary>>,
}

/// What the router does next about an intent.
#[derive(Debug, PartialEq, Eq)]
pub enum Step {
    Ask(Query),
    Decide(ValidationResult),
}

impl View for ExecutionRouter {
    type V = RouterView;

    open spec fn view(&self) -> RouterView {
        RouterView {
            admin: self.admin,
            delegation_manager: self.delegation_manager,
            policy_engine: self.policy_engine,
            counter: self.counter,
            executions: self.executions@,
            intents: self.intents@,
            events: self.events@,
        }
    }
}

impl View for Answers {
    type V = AnswersView;

    open spec fn view(&self) -> AnswersView {
        AnswersView {
            active: self.active,
            owner: self.owner,
            delegate: self.delegate,
            authority: self.authority,
            validation: match self.validation {
                Some(result) => Some(result@),
                None => None,
            },
            policy: self.policy,
        }
    }
}

impl View for Step {
    type V = StepView;

    open spec fn view(&self) -> StepView {
        match self {
            Step::Ask(query) => StepView::Ask(*query),
            Step::Decide(result) => StepView::Decide(result@),
        }
    }
}

/// The content of an answer.
pub open spec fn option_view(answer: Option<Execution>) -> Option<ExecutionView> {
    match answer {
        Some(execution) => Some(execution@),
        None => None,
    }
}

/// A rejection for the given reason.
fn rejected(reason: &str) -> (r: ValidationResult)
    ensures
        r@ == Verdict::Rejected(reason@),
{
    ValidationResult::Rejected(reason.to_string())
}

impl Answers {
    /// No answer yet.
    pub fn new() -> (r: Answers)
        ensures
            r@ == (AnswersView {
                active: None,
                owner: None,
                delegate: None,
                authority: None,
                validation: None,
                policy: None,
            }),
    {
        Answers {
            active: None,
            owner: None,
            delegate: None,
            authority: None,
            validation: None,
            policy: None,
        }
    }

    /// What the answers about the delegation lead to.
    fn about_delegation(&self, intent: &ExecutionIntent) -> (r: Step)
        ensures
            r@ == next_about_delegation(intent@, self@),
    {
        match self.active {
            None => return Step::Ask(Query::IsActiveDelegation),
            Some(active) => if !active {
                return Step::Decide(rejected("delegation not active"));
            },
        }
        let owner = match self.owner {
            None => return Step::Ask(Query::GetOwner),
            Some(None) => return Step::Decide(rejected("delegation does not exist")),
            Some(Some(address)) => address,
        };
        let delegate = match self.delegate {
            None => return Step::Ask(Query::GetDelegate),
            Some(None) => return Step::Decide(rejected("delegation does not exist")),
            Some(Some(address)) => address,
        };
        if delegate != intent.delegate {
            return Step::Decide(rejected("delegate mismatch"));
        }
        match self.authority {
            None => Step::Ask(Query::VerifyAuthority(owner)),
            Some(authority) => if authority {
                self.about_policy(intent)
            } else {
                Step::Decide(rejected("invalid authority"))
            },
        }
    }

    /// What the answers about the policy lead to.
    fn about_policy(&self, intent: &ExecutionIntent) -> (r: Step)
        ensures
            r@ == next_about_policy(intent@, self@),
    {
        match &self.validation {
            None => Step::Ask(Query::ValidateAction),
            Some(result) => match result {
                ValidationResult::Rejected(reason) => Step::Decide(
                    ValidationResult::Rejected(reason.clone()),
                ),
                ValidationResult::Approved => match self.policy {
                    None => Step::Ask(Query::GetActivePolicy),
                    Some(policy) => Step::Decide(judge_policy(policy, intent)),
                },
            },
        }
    }
}

/// The verdict on an intent whose action is approved, given the policy that
/// counts for the delegation.
fn judge_policy(policy: Option<PolicySummary>, intent: &ExecutionIntent) -> (r: ValidationResult)
    ensures
        r@ == policy_verdict(policy, intent@),
{
    match policy {
        None => rejected("no active policy assigned"),
        Some(active_policy) => if active_policy.id != intent.policy_id {
            rejected("policy mismatch")
        } else if active_policy.status != PolicyStatus::Active {
            rejected("policy not active")
        } else {
            ValidationResult::Approved
        },
    }
}

impl Managers {
    /// Has the engine judge the action of the intent, asking its manager.
    /// Where that fails, the managers are left as they were.
    fn ask_engine(&mut self, env: &Env, engine: &PolicyEngine, intent: &ExecutionIntent) -> (r:
        Result<ValidationResult, PolicyError>)
        ensures
            match engine_judges(old(self)@.engines(), engine@, env.timestamp, intent@) {
                Ok((asked, verdict)) => r is Ok && r->Ok_0@ == verdict && final(self)@ == old(
                    self)@.with_engines(asked),
                Err(error) => r == Err::<ValidationResult, PolicyError>(error) && final(self)@
                    == old(self)@,
            },
    {
        match &mut self.asked_by_engine {
            Some(manager) => engine.validate_action(
                env,
                manager,
                intent.delegation_id,
                intent.asset,
                intent.protocol,
                intent.amount,
                env.timestamp,
            ),
            None => engine.validate_action(
                env,
                &mut self.asked_by_router,
                intent.delegation_id,
                intent.asset,
                intent.protocol,
                intent.amount,
                env.timestamp,
            ),
        }
    }
}

impl ExecutionRouter {
    /// A router that is not initialized yet.
    pub fn new() -> (r: ExecutionRouter)
        ensures
            r@ == RouterView::empty(),
    {
        ExecutionRouter {
            admin: None,
            delegation_manager: None,
            policy_engine: None,
            counter: None,
            executions: Table::new(),
            intents: Table::new(),
            events: Vec::new(),
        }
    }

    pub fn initialize(
        &mut self,
        admin: Address,
        delegation_manager: Address,
        policy_engine: Address,
    ) -> (r: Result<(), RouterError>)
        ensures
            match old(self)@.initialize(admin, delegation_manager, policy_engine) {
                Ok(after) => r == Ok::<(), RouterError>(()) && final(self)@ == after,
                Err(error) => r == Err::<(), RouterError>(error) && final(self)@ == old(self)@,
            },
    {
        if self.admin.is_some() {
            return Err(RouterError::AlreadyInitialized);
        }
        self.admin = Some(admin);
        self.delegation_manager = Some(delegation_manager);
        self.policy_engine = Some(policy_engine);
        self.counter = Some(0);
        Ok(())
    }

    pub fn set_delegation_manager(&mut self, env: &Env, delegation_manager: Address) -> (r: Result<
        (),
        RouterError,
    >)
        ensures
            match old(self)@.set_manager(env@, delegation_manager) {
                Ok(after) => r == Ok::<(), RouterError>(()) && final(self)@ == after,
                Err(error) => r == Err::<(), RouterError>(error) && final(self)@ == old(self)@,
            },
    {
        let admin = self.get_admin()?;
        if !env.has_auth(&admin) {
            return Err(RouterError::Unauthorized(admin));
        }
        self.delegation_manager = Some(delegation_manager);
        Ok(())
    }

    pub fn set_policy_engine(&mut self, env: &Env, policy_engine: Address) -> (r: Result<
        (),
        RouterError,
    >)
        ensures
            match old(self)@.set_engine(env@, policy_engine) {
                Ok(after) => r == Ok::<(), RouterError>(()) && final(self)@ == after,
                Err(error) => r == Err::<(), RouterError>(error) && final(self)@ == old(self)@,
            },
    {
        let admin = self.get_admin()?;
        if !env.has_auth(&admin) {
            return Err(RouterError::Unauthorized(admin));
        }
        self.policy_engine = Some(policy_engine);
        Ok(())
    }

    pub fn get_delegation_manager(&self) -> (r: Result<Address, RouterError>)
        ensures
            r == match self@.delegation_manager {
                Some(address) => Ok(address),
                None => Err(RouterError::NotInitialized),
            },
    {
        match self.delegation_manager {
            Some(address) => Ok(address),
            None => Err(RouterError::NotInitialized),
        }
    }

    pub fn get_policy_engine(&self) -> (r: Result<Address, RouterError>)
        ensures
            r == match self@.policy_engine {
                Some(address) => Ok(address),
                None => Err(RouterError::NotInitialized),
            },
    {
        match self.policy_engine {
            Some(address) => Ok(address),
            None => Err(RouterError::NotInitialized),
        }
    }

    pub fn get_admin(&self) -> (r: Result<Address, RouterError>)
        ensures
            r == match self@.admin {
                Some(address) => Ok(address),
                None => Err(RouterError::NotInitialized),
            },
    {
        match self.admin {
            Some(address) => Ok(address),
            None => Err(RouterError::NotInitialized),
        }
    }

    /// The verdict on an intent that needs no other contract, if there is one.
    fn decide_alone(&self, env: &Env, intent: &ExecutionIntent) -> (r: Option<ValidationResult>)
        ensures
            match r {
                Some(result) => self@.settled(env.timestamp, intent@) && result@
                    == self@.own_verdict(env.timestamp, intent@),
                None => !self@.settled(env.timestamp, intent@),
            },
    {
        if env.timestamp >= intent.expiry {
            return Some(rejected("intent expired"));
        }
        if self.intents.get(&intent.intent_hash).is_some() {
            return Some(rejected("intent hash already seen"));
        }
        None
    }

    /// What the router does next about an intent, given the answers so far:
    /// it asks another contract, or decides.
    pub fn next_step(&self, env: &Env, intent: &ExecutionIntent, answers: &Answers) -> (r: Result<
        Step,
        RouterError,
    >)
        ensures
            match self@.next(env.timestamp, intent@, answers@) {
                Ok(step) => r is Ok && r->Ok_0@ == step,
                Err(error) => r == Err::<Step, RouterError>(error),
            },
    {
        if let Some(result) = self.decide_alone(env, intent) {
            return Ok(Step::Decide(result));
        }
        self.get_delegation_manager()?;
        self.get_policy_engine()?;
        Ok(answers.about_delegation(intent))
    }

    /// Validates the intent. Where that fails, the managers and the engine are
    /// left as the questions so far have left them.
    fn question(
        &self,
        env: &Env,
        managers: &mut Managers,
        engine: &mut PolicyEngine,
        intent: &ExecutionIntent,
    ) -> (r: Result<ValidationResult, RouterError>)
        ensures
            match self@.validate(old(managers)@, old(engine)@, env@, intent@) {
                Ok((asked, fresh, verdict)) => r is Ok && r->Ok_0@ == verdict && final(managers)@
                    == asked && final(engine)@ == fresh,
                Err(error) => r == Err::<ValidationResult, RouterError>(error),
            },
    {
        if let Some(result) = self.decide_alone(env, intent) {
            return Ok(result);
        }
        self.get_delegation_manager()?;
        self.get_policy_engine()?;
        let id = intent.delegation_id;
        match managers.asked_by_router.is_active_delegation(env, id) {
            Err(error) => return Err(RouterError::Delegation(error)),
            Ok(active) => if !active {
                return Ok(rejected("delegation not active"));
            },
        }
        let owner = match managers.asked_by_router.get_owner(id) {
            Some(address) => address,
            None => return Ok(rejected("delegation does not exist")),
        };
        let delegate = match managers.asked_by_router.get_delegate(id) {
            Some(address) => address,
            None => return Ok(rejected("delegation does not exist")),
        };
        if delegate != intent.delegate {
            return Ok(rejected("delegate mismatch"));
        }
        match managers.asked_by_router.verify_authority(env, owner, intent.delegate) {
            Err(error) => return Err(RouterError::Delegation(error)),
            Ok(authority) => if !authority {
                return Ok(rejected("invalid authority"));
            },
        }
        match managers.ask_engine(env, engine, intent) {
            Err(error) => return Err(RouterError::Policy(error)),
            Ok(ValidationResult::Rejected(reason)) => return Ok(
                ValidationResult::Rejected(reason),
            ),
            Ok(ValidationResult::Approved) => {},
        }
        match engine.get_active_policy(env, id) {
            Err(error) => Err(RouterError::Policy(error)),
            Ok(found) => {
                let summary = match &found {
                    Some(policy) => Some(PolicySummary { id: policy.id, status: policy.status }),
                    None => None,
                };
                Ok(judge_policy(summary, intent))
            },
        }
    }

    /// Holds the intent against the delegation and the policy. `engine` is the
    /// contract at the address that the router has.
    pub fn validate_execution(
        &self,
        env: &Env,
        managers: &mut Managers,
        engine: &mut PolicyEngine,
        intent: &ExecutionIntent,
    ) -> (r: Result<ValidationResult, RouterError>)
        ensures
            match self@.validate(old(managers)@, old(engine)@, env@, intent@) {
                Ok((asked, fresh, verdict)) => r is Ok && r->Ok_0@ == verdict && final(managers)@
                    == asked && final(engine)@ == fresh,
                Err(error) => r == Err::<ValidationResult, RouterError>(error) && final(managers)@
                    == old(managers)@ && final(engine)@ == old(engine)@,
            },
    {
        let managers_before = managers.clone();
        let engine_before = engine.clone();
        let result = self.question(env, managers, engine, intent);
        if result.is_err() {
            *managers = managers_before;
            *engine = engine_before;
        }
        result
    }

    /// What follows the validation of an intent. `charged` says whether the
    /// policy engine has recorded the action.
    pub fn settle(
        &self,
        env: &Env,
        intent: &ExecutionIntent,
        validation: &ValidationResult,
        charged: bool,
    ) -> (r: Result<Settlement, RouterError>)
        ensures
            r == self@.settlement(env.timestamp, intent@, validation@, charged),
    {
        let latest: u64 = match self.counter {
            Some(id) => id,
            None => 0,
        };
        if latest == u64::MAX {
            return Err(RouterError::Overflow);
        }
        match validation {
            ValidationResult::Approved => if charged {
                Ok(Settlement::Record)
            } else {
                Ok(
                    Settlement::Charge {
                        policy_engine: self.get_policy_engine()?,
                        delegation_id: intent.delegation_id,
                        amount: intent.amount,
                        timestamp: env.timestamp,
                    },
                )
            },
            // A replay attempt is refused, so that it leaves no record
            ValidationResult::Rejected(reason) => if *reason
                == "intent hash already seen".to_string() {
                Err(RouterError::IntentAlreadySeen)
            } else {
                Ok(Settlement::Record)
            },
        }
    }

    /// Records what became of an intent.
    pub fn record_execution(
        &mut self,
        env: &Env,
        intent: &ExecutionIntent,
        validation: ValidationResult,
    ) -> (r: Result<u64, RouterError>)
        ensures
            match old(self)@.log(env.timestamp, intent@, validation@) {
                Ok((after, id)) => r == Ok::<u64, RouterError>(id) && final(self)@ == after,
                Err(error) => r == Err::<u64, RouterError>(error) && final(self)@ == old(self)@,
            },
    {
        let latest: u64 = match self.counter {
            Some(id) => id,
            None => 0,
        };
        if latest == u64::MAX {
            return Err(RouterError::Overflow);
        }
        let execution_id: u64 = latest + 1;
        let now = env.timestamp;
        let approved = match &validation {
            ValidationResult::Approved => true,
            ValidationResult::Rejected(reason) => {
                // A replay attempt is refused, so that it leaves no record
                if *reason == "intent hash already seen".to_string() {
                    return Err(RouterError::IntentAlreadySeen);
                }
                false
            },
        };
        let (status, rejection_reason) = match validation {
            ValidationResult::Approved => (ExecutionStatus::Executed, None),
            ValidationResult::Rejected(reason) => (ExecutionStatus::Rejected, Some(reason)),
        };
        let execution = Execution {
            execution_id,
            intent_hash: intent.intent_hash,
            delegation_id: intent.delegation_id,
            policy_id: intent.policy_id,
            delegate: intent.delegate,
            asset: intent.asset,
            protocol: intent.protocol,
            action_type: intent.action_type.clone(),
            amount: intent.amount,
            target: intent.target,
            timestamp: now,
            status,
            rejection_reason,
        };
        self.counter = Some(execution_id);
        self.executions.insert(execution_id, execution);
        self.intents.insert(intent.intent_hash, execution_id);
        self.publish(ExecutionStage::Requested, execution_id, intent, now);
        self.publish(ExecutionStage::Validated, execution_id, intent, now);
        if approved {
            self.publish(ExecutionStage::Approved, execution_id, intent, now);
            self.publish(ExecutionStage::Executed, execution_id, intent, now);
        } else {
            self.publish(ExecutionStage::Rejected, execution_id, intent, now);
        }
        Ok(execution_id)
    }

    /// Publishes how far the intent came.
    fn publish(
        &mut self,
        stage: ExecutionStage,
        execution_id: u64,
        intent: &ExecutionIntent,
        now: u64,
    )
        ensures
            final(self)@ == (RouterView {
                events: old(self)@.events.push(intent@.event(execution_id, now, stage)),
                ..old(self)@
            }),
    {
        self.events.push(
            ExecutionEvent {
                stage,
                execution_id,
                intent_hash: intent.intent_hash,
                delegation_id: intent.delegation_id,
                policy_id: intent.policy_id,
                amount: intent.amount,
                timestamp: now,
            },
        );
    }

    /// Executes the intent where it is approved. Either way it is recorded,
    /// and its hash is taken. `engine` is the contract at the address that the
    /// router has.
    pub fn execute_intent(
        &mut self,
        env: &Env,
        managers: &mut Managers,
        engine: &mut PolicyEngine,
        intent: &ExecutionIntent,
    ) -> (r: Result<u64, RouterError>)
        ensures
            match old(self)@.execute(old(managers)@, old(engine)@, env@, intent@) {
                Ok((logged, asked, charged, id)) => {
                    &&& r == Ok::<u64, RouterError>(id)
                    &&& final(self)@ == logged
                    &&& final(managers)@ == asked
                    &&& final(engine)@ == charged
                },
                Err(error) => {
                    &&& r == Err::<u64, RouterError>(error)
                    &&& final(self)@ == old(self)@
                    &&& final(managers)@ == old(managers)@
                    &&& final(engine)@ == old(engine)@
                },
            },
    {
        let managers_before = managers.clone();
        let engine_before = engine.clone();
        let result = self.run(env, managers, engine, intent);
        if result.is_err() {
            *managers = managers_before;
            *engine = engine_before;
        }
        result
    }

    /// Executes the intent. Where that fails, the managers and the engine are
    /// left as the questions so far have left them.
    fn run(
        &mut self,
        env: &Env,
        managers: &mut Managers,
        engine: &mut PolicyEngine,
        intent: &ExecutionIntent,
    ) -> (r: Result<u64, RouterError>)
        ensures
            match old(self)@.execute(old(managers)@, old(engine)@, env@, intent@) {
                Ok((logged, asked, charged, id)) => {
                    &&& r == Ok::<u64, RouterError>(id)
                    &&& final(self)@ == logged
                    &&& final(managers)@ == asked
                    &&& final(engine)@ == charged
                },
                Err(error) => {
                    &&& r == Err::<u64, RouterError>(error)
                    &&& final(self)@ == old(self)@
                },
            },
    {
        let validation = self.question(env, managers, engine, intent)?;
        match self.settle(env, intent, &validation, false)? {
            Settlement::Charge { policy_engine, delegation_id, amount, timestamp } => {
                let sub_env = env.invoke(policy_engine);
                match engine.record_action(&sub_env, delegation_id, amount, timestamp) {
                    Ok(()) => {},
                    Err(error) => return Err(RouterError::Policy(error)),
                }
            },
            Settlement::Record => {},
        }
        self.record_execution(env, intent, validation)
    }

    /// Says what would become of the intent. `engine` is the contract at the
    /// address that the router has.
    pub fn simulate_intent(
        &self,
        env: &Env,
        managers: &mut Managers,
        engine: &mut PolicyEngine,
        intent: &ExecutionIntent,
    ) -> (r: Result<ValidationResult, RouterError>)
        ensures
            match self@.validate(old(managers)@, old(engine)@, env@, intent@) {
                Ok((asked, fresh, verdict)) => r is Ok && r->Ok_0@ == verdict && final(managers)@
                    == asked && final(engine)@ == fresh,
                Err(error) => r == Err::<ValidationResult, RouterError>(error) && final(managers)@
                    == old(managers)@ && final(engine)@ == old(engine)@,
            },
    {
        self.validate_execution(env, managers, engine, intent)
    }

    pub fn get_execution(&self, execution_id: u64) -> (r: Option<Execution>)
        ensures
            option_view(r) == self@.find(execution_id),
    {
        match self.executions.get(&execution_id) {
            Some(execution) => Some(execution.duplicate()),
            None => None,
        }
    }

    pub fn get_execution_by_hash(&self, intent_hash: Bytes32) -> (r: Option<Execution>)
        ensures
            option_view(r) == (if self@.intents.contains_key(intent_hash) {
                self@.find(self@.intents[intent_hash])
            } else {
                None
            }),
    {
        match self.intents.get(&intent_hash) {
            Some(execution_id) => self.get_execution(*execution_id),
            None => None,
        }
    }

    pub fn execution_exists(&self, execution_id: u64) -> (r: bool)
        ensures
            r == self@.executions.contains_key(execution_id),
    {
        self.executions.get(&execution_id).is_some()
    }

    pub fn get_execution_status(&self, execution_id: u64) -> (r: Option<ExecutionStatus>)
        ensures
            r == match self@.find(execution_id) {
                Some(execution) => Some(execution.status),
                None => None,
            },
    {
        match self.executions.get(&execution_id) {
            Some(execution) => Some(execution.status),
            None => None,
        }
    }
}

} // verus!
