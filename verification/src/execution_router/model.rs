//! The execution router as a state machine, together with the managers and the
//! engine that it calls.

use super::types::{
    ExecutionEvent, ExecutionStage, ExecutionStatus, ExecutionView, IntentView, RouterError,
};
use crate::delegation_manager::{ManagerView, Pair};
use crate::ledger::{Address, Bytes32, EnvView};
use crate::policy_engine::delegation_manager_client::answer_of;
use crate::policy_engine::{Action, EngineView, PolicyError, PolicyStatus, Verdict};
use vstd::prelude::*;

verus! {

/// The state of the execution router.
#[verifier::ext_equal]
pub struct RouterView {
    pub admin: Option<Address>,
    pub delegation_manager: Option<Address>,
    pub policy_engine: Option<Address>,
    /// The id of the latest execution, once the router is initialized.
    pub counter: Option<u64>,
    pub executions: Map<u64, ExecutionView>,
    /// The execution of an intent, by the intent's hash.
    pub intents: Map<Bytes32, u64>,
    /// The events published so far.
    pub events: Seq<ExecutionEvent>,
}

/// A question that the router puts to another contract.
#[derive(Clone, Copy, Debug, PartialEq, Eq, Structural)]
pub enum Query {
    IsActiveDelegation,
    GetOwner,
    GetDelegate,
    /// Whether the delegate of the intent has authority from the address.
    VerifyAuthority(Address),
    ValidateAction,
    GetActivePolicy,
}

/// What the router needs to know of a policy.
#[derive(Clone, Copy, Debug, PartialEq, Eq, Structural)]
pub struct PolicySummary {
    pub id: u64,
    pub status: PolicyStatus,
}

/// The answers that the router has got so far.
#[verifier::ext_equal]
pub struct AnswersView {
    pub active: Option<bool>,
    pub owner: Option<Option<Address>>,
    pub delegate: Option<Option<Address>>,
    pub authority: Option<bool>,
    pub validation: Option<Verdict>,
    pub policy: Option<Option<PolicySummary>>,
}

/// The delegation managers that an intent is held against.
#[verifier::ext_equal]
pub struct ManagersView {
    /// The one at the address that the router has.
    pub asked_by_router: ManagerView,
    /// The one at the address that the engine has, where that is another.
    pub asked_by_engine: Option<ManagerView>,
}

/// What follows the validation of an intent.
#[derive(Clone, Copy, Debug, PartialEq, Eq, Structural)]
pub enum Settlement {
    /// The policy engine is to record the action.
    Charge { policy_engine: Address, delegation_id: u64, amount: u128, timestamp: u64 },
    /// The router is to record the intent.
    Record,
}

/// What the router does next about an intent.
pub enum StepView {
    Ask(Query),
    Decide(Verdict),
}

impl IntentView {
    /// The action that the policy engine is to judge.
    pub open spec fn action(self, now: u64) -> Action {
        Action {
            delegation_id: self.delegation_id,
            asset: self.asset,
            protocol: self.protocol,
            amount: self.amount,
            timestamp: now,
        }
    }

    /// The record of what became of the intent.
    pub open spec fn record(self, id: u64, now: u64, verdict: Verdict) -> ExecutionView {
        ExecutionView {
            execution_id: id,
            intent_hash: self.intent_hash,
            delegation_id: self.delegation_id,
            policy_id: self.policy_id,
            delegate: self.delegate,
            asset: self.asset,
            protocol: self.protocol,
            action_type: self.action_type,
            amount: self.amount,
            target: self.target,
            timestamp: now,
            status: match verdict {
                Verdict::Approved => ExecutionStatus::Executed,
                Verdict::Rejected(_) => ExecutionStatus::Rejected,
            },
            rejection_reason: match verdict {
                Verdict::Approved => None,
                Verdict::Rejected(reason) => Some(reason),
            },
        }
    }

    pub open spec fn event(self, id: u64, now: u64, stage: ExecutionStage) -> ExecutionEvent {
        ExecutionEvent {
            stage,
            execution_id: id,
            intent_hash: self.intent_hash,
            delegation_id: self.delegation_id,
            policy_id: self.policy_id,
            amount: self.amount,
            timestamp: now,
        }
    }

    /// The events that are published about the intent.
    pub open spec fn events(self, id: u64, now: u64, verdict: Verdict) -> Seq<ExecutionEvent> {
        match verdict {
            Verdict::Approved => seq![
                self.event(id, now, ExecutionStage::Requested),
                self.event(id, now, ExecutionStage::Validated),
                self.event(id, now, ExecutionStage::Approved),
                self.event(id, now, ExecutionStage::Executed),
            ],
            Verdict::Rejected(_) => seq![
                self.event(id, now, ExecutionStage::Requested),
                self.event(id, now, ExecutionStage::Validated),
                self.event(id, now, ExecutionStage::Rejected),
            ],
        }
    }
}

/// The verdict on an intent whose hash was seen before.
pub open spec fn replayed() -> Verdict {
    Verdict::Rejected("intent hash already seen"@)
}

impl ManagersView {
    /// The manager that the engine asks.
    pub open spec fn engines(self) -> ManagerView {
        match self.asked_by_engine {
            Some(manager) => manager,
            None => self.asked_by_router,
        }
    }

    pub open spec fn with_routers(self, manager: ManagerView) -> ManagersView {
        ManagersView { asked_by_router: manager, ..self }
    }

    pub open spec fn with_engines(self, manager: ManagerView) -> ManagersView {
        match self.asked_by_engine {
            Some(_) => ManagersView { asked_by_engine: Some(manager), ..self },
            None => self.with_routers(manager),
        }
    }
}

/// The engine judges the action of the intent, asking its manager. The result
/// has the manager after the questions.
pub open spec fn engine_judges(
    manager: ManagerView,
    engine: EngineView,
    now: u64,
    intent: IntentView,
) -> Result<(ManagerView, Verdict), PolicyError> {
    let id = intent.delegation_id;
    let exists = manager.delegations.contains_key(id);
    let asked = manager.read(id).ask_in_force(now, id);
    match engine.judge(exists, answer_of(asked), intent.action(now)) {
        Err(error) => Err(error),
        Ok(verdict) => Ok(
            (
                if engine.delegation_manager is None {
                    manager
                } else if !exists {
                    manager.read(id)
                } else {
                    asked->Ok_0.0
                },
                verdict,
            ),
        ),
    }
}

impl RouterView {
    pub open spec fn empty() -> RouterView {
        RouterView {
            admin: None,
            delegation_manager: None,
            policy_engine: None,
            counter: None,
            executions: Map::empty(),
            intents: Map::empty(),
            events: Seq::empty(),
        }
    }

    /// The id of the latest execution, 0 where there is none.
    pub open spec fn latest(self) -> u64 {
        match self.counter {
            Some(id) => id,
            None => 0,
        }
    }

    pub open spec fn find(self, id: u64) -> Option<ExecutionView> {
        if self.executions.contains_key(id) {
            Some(self.executions[id])
        } else {
            None
        }
    }

    pub open spec fn initialize(
        self,
        admin: Address,
        delegation_manager: Address,
        policy_engine: Address,
    ) -> Result<RouterView, RouterError> {
        if self.admin is Some {
            Err(RouterError::AlreadyInitialized)
        } else {
            Ok(
                RouterView {
                    admin: Some(admin),
                    delegation_manager: Some(delegation_manager),
                    policy_engine: Some(policy_engine),
                    counter: Some(0),
                    ..self
                },
            )
        }
    }

    /// Why the configuration may not be changed, if it may not.
    pub open spec fn configuration_refusal(self, env: EnvView) -> Option<RouterError> {
        match self.admin {
            None => Some(RouterError::NotInitialized),
            Some(admin) => if env.authorized(admin) {
                None
            } else {
                Some(RouterError::Unauthorized(admin))
            },
        }
    }

    pub open spec fn set_manager(self, env: EnvView, address: Address) -> Result<
        RouterView,
        RouterError,
    > {
        match self.configuration_refusal(env) {
            Some(error) => Err(error),
            None => Ok(RouterView { delegation_manager: Some(address), ..self }),
        }
    }

    pub open spec fn set_engine(self, env: EnvView, address: Address) -> Result<
        RouterView,
        RouterError,
    > {
        match self.configuration_refusal(env) {
            Some(error) => Err(error),
            None => Ok(RouterView { policy_engine: Some(address), ..self }),
        }
    }

    /// The router needs no other contract to decide about the intent.
    pub open spec fn settled(self, now: u64, intent: IntentView) -> bool {
        now >= intent.expiry || self.intents.contains_key(intent.intent_hash)
    }

    /// The verdict on an intent that needs no other contract.
    pub open spec fn own_verdict(self, now: u64, intent: IntentView) -> Verdict {
        if now >= intent.expiry {
            Verdict::Rejected("intent expired"@)
        } else {
            replayed()
        }
    }

    /// The router knows the contracts that it has to ask.
    pub open spec fn configured(self) -> bool {
        self.delegation_manager is Some && self.policy_engine is Some
    }

    /// What is next about an intent, given the answers so far: the router asks
    /// one question after the other, and decides as soon as it can.
    pub open spec fn next(self, now: u64, intent: IntentView, answers: AnswersView) -> Result<
        StepView,
        RouterError,
    > {
        if self.settled(now, intent) {
            Ok(StepView::Decide(self.own_verdict(now, intent)))
        } else if !self.configured() {
            Err(RouterError::NotInitialized)
        } else {
            Ok(next_about_delegation(intent, answers))
        }
    }

    /// The intent is held against the delegation and the policy.
    pub open spec fn validate(
        self,
        managers: ManagersView,
        engine: EngineView,
        env: EnvView,
        intent: IntentView,
    ) -> Result<(ManagersView, EngineView, Verdict), RouterError> {
        let now = env.timestamp;
        let id = intent.delegation_id;
        if self.settled(now, intent) {
            Ok((managers, engine, self.own_verdict(now, intent)))
        } else if !self.configured() {
            Err(RouterError::NotInitialized)
        } else {
            match managers.asked_by_router.ask_in_force(now, id) {
                Err(error) => Err(RouterError::Delegation(error)),
                Ok((asked, false)) => Ok(
                    (
                        managers.with_routers(asked),
                        engine,
                        Verdict::Rejected("delegation not active"@),
                    ),
                ),
                Ok((asked, true)) => {
                    let read = managers.with_routers(asked.read(id).read(id));
                    if asked.delegations[id].delegate != intent.delegate {
                        Ok((read, engine, Verdict::Rejected("delegate mismatch"@)))
                    } else {
                        validate_authority(read, engine, env, intent)
                    }
                },
            }
        }
    }

    /// What follows the validation of an intent. One that may be executed is
    /// charged to its policy, and recorded after that; one that may not is
    /// recorded at once.
    pub open spec fn settlement(
        self,
        now: u64,
        intent: IntentView,
        verdict: Verdict,
        charged: bool,
    ) -> Result<Settlement, RouterError> {
        if self.latest() == u64::MAX {
            Err(RouterError::Overflow)
        } else if verdict == replayed() {
            Err(RouterError::IntentAlreadySeen)
        } else if verdict is Approved && !charged {
            match self.policy_engine {
                None => Err(RouterError::NotInitialized),
                Some(policy_engine) => Ok(
                    Settlement::Charge {
                        policy_engine,
                        delegation_id: intent.delegation_id,
                        amount: intent.amount,
                        timestamp: now,
                    },
                ),
            }
        } else {
            Ok(Settlement::Record)
        }
    }

    /// What became of an intent is recorded.
    pub open spec fn log(self, now: u64, intent: IntentView, verdict: Verdict) -> Result<
        (RouterView, u64),
        RouterError,
    > {
        if self.latest() == u64::MAX {
            Err(RouterError::Overflow)
        } else if verdict == replayed() {
            Err(RouterError::IntentAlreadySeen)
        } else {
            let id = (self.latest() + 1) as u64;
            Ok(
                (
                    RouterView {
                        counter: Some(id),
                        executions: self.executions.insert(id, intent.record(id, now, verdict)),
                        intents: self.intents.insert(intent.intent_hash, id),
                        events: self.events + intent.events(id, now, verdict),
                        ..self
                    },
                    id,
                ),
            )
        }
    }

    /// The intent is validated, counted against the policy if it is approved,
    /// and recorded.
    pub open spec fn execute(
        self,
        managers: ManagersView,
        engine: EngineView,
        env: EnvView,
        intent: IntentView,
    ) -> Result<(RouterView, ManagersView, EngineView, u64), RouterError> {
        let now = env.timestamp;
        match self.validate(managers, engine, env, intent) {
            Err(error) => Err(error),
            Ok((asked, fresh, verdict)) => match self.log(now, intent, verdict) {
                Err(error) => Err(error),
                Ok((logged, id)) => if verdict is Approved {
                    match fresh.record(
                        env.invoke(self.policy_engine->0),
                        intent.delegation_id,
                        intent.amount,
                        now,
                    ) {
                        Err(error) => Err(RouterError::Policy(error)),
                        Ok(charged) => Ok((logged, asked, charged, id)),
                    }
                } else {
                    Ok((logged, asked, fresh, id))
                },
            },
        }
    }
}

/// The questions about the delegation, and the verdict where they settle it.
pub open spec fn next_about_delegation(intent: IntentView, answers: AnswersView) -> StepView {
    match answers.active {
        None => StepView::Ask(Query::IsActiveDelegation),
        Some(false) => StepView::Decide(Verdict::Rejected("delegation not active"@)),
        Some(true) => match answers.owner {
            None => StepView::Ask(Query::GetOwner),
            Some(None) => StepView::Decide(Verdict::Rejected("delegation does not exist"@)),
            Some(Some(owner)) => match answers.delegate {
                None => StepView::Ask(Query::GetDelegate),
                Some(None) => StepView::Decide(Verdict::Rejected("delegation does not exist"@)),
                Some(Some(delegate)) => if delegate != intent.delegate {
                    StepView::Decide(Verdict::Rejected("delegate mismatch"@))
                } else {
                    match answers.authority {
                        None => StepView::Ask(Query::VerifyAuthority(owner)),
                        Some(false) => StepView::Decide(Verdict::Rejected("invalid authority"@)),
                        Some(true) => next_about_policy(intent, answers),
                    }
                },
            },
        },
    }
}

/// The questions about the policy, and the verdict where they settle it.
pub open spec fn next_about_policy(intent: IntentView, answers: AnswersView) -> StepView {
    match answers.validation {
        None => StepView::Ask(Query::ValidateAction),
        Some(Verdict::Rejected(reason)) => StepView::Decide(Verdict::Rejected(reason)),
        Some(Verdict::Approved) => match answers.policy {
            None => StepView::Ask(Query::GetActivePolicy),
            Some(policy) => StepView::Decide(policy_verdict(policy, intent)),
        },
    }
}

/// The verdict on an intent whose action is approved, given the policy that
/// counts for the delegation.
pub open spec fn policy_verdict(policy: Option<PolicySummary>, intent: IntentView) -> Verdict {
    match policy {
        None => Verdict::Rejected("no active policy assigned"@),
        Some(summary) => if summary.id != intent.policy_id {
            Verdict::Rejected("policy mismatch"@)
        } else if summary.status != PolicyStatus::Active {
            Verdict::Rejected("policy not active"@)
        } else {
            Verdict::Approved
        },
    }
}

/// The rest of the validation, once the delegation is known to be in force and
/// to be the delegate's.
pub open spec fn validate_authority(
    managers: ManagersView,
    engine: EngineView,
    env: EnvView,
    intent: IntentView,
) -> Result<(ManagersView, EngineView, Verdict), RouterError> {
    let now = env.timestamp;
    let manager = managers.asked_by_router;
    let owner = manager.delegations[intent.delegation_id].owner;
    match manager.ask_authority(now, (Pair { owner, delegate: intent.delegate })) {
        Err(error) => Err(RouterError::Delegation(error)),
        Ok((asked, false)) => Ok(
            (managers.with_routers(asked), engine, Verdict::Rejected("invalid authority"@)),
        ),
        Ok((asked, true)) => validate_policy(managers.with_routers(asked), engine, env, intent),
    }
}

/// The rest of the validation, once the delegate's authority is confirmed.
pub open spec fn validate_policy(
    managers: ManagersView,
    engine: EngineView,
    env: EnvView,
    intent: IntentView,
) -> Result<(ManagersView, EngineView, Verdict), RouterError> {
    let now = env.timestamp;
    match engine_judges(managers.engines(), engine, now, intent) {
        Err(error) => Err(RouterError::Policy(error)),
        Ok((asked, Verdict::Rejected(reason))) => Ok(
            (managers.with_engines(asked), engine, Verdict::Rejected(reason)),
        ),
        Ok((asked, Verdict::Approved)) => match engine.ask_active(now, intent.delegation_id) {
            Err(error) => Err(RouterError::Policy(error)),
            Ok((fresh, policy)) => Ok(
                (
                    managers.with_engines(asked),
                    fresh,
                    policy_verdict(
                        match policy {
                            Some(found) => Some(
                                PolicySummary { id: found.id, status: found.status },
                            ),
                            None => None,
                        },
                        intent,
                    ),
                ),
            ),
        },
    }
}

} // verus!
