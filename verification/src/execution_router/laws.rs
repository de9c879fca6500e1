//! What holds of the execution router over any series of requests, and of the
//! router together with the managers and the engine.

use super::model::{
    engine_judges, replayed, AnswersView, ManagersView, PolicySummary, Query, RouterView,
    Settlement, StepView,
};
use super::types::{ExecutionStatus, IntentView, RouterError};
use crate::delegation_manager::laws as manager_laws;
use crate::delegation_manager::{ManagerRequest, ManagerView, Pair};
use crate::ledger::{Address, EnvView};
use crate::policy_engine::laws as engine_laws;
use crate::policy_engine::{EngineRequest, EngineView, PolicyError, PolicyStatus, Verdict};
use vstd::prelude::*;

verus! {

/// A request that can change the router.
pub enum RouterRequest {
    Initialize { admin: Address, delegation_manager: Address, policy_engine: Address },
    SetDelegationManager(Address),
    SetPolicyEngine(Address),
    /// With the managers and the engine that are called.
    Execute { managers: ManagersView, engine: EngineView, intent: IntentView },
}

impl RouterView {
    /// The router after a request, or why it is refused.
    pub open spec fn after(self, env: EnvView, request: RouterRequest) -> Result<
        RouterView,
        RouterError,
    > {
        match request {
            RouterRequest::Initialize { admin, delegation_manager, policy_engine } =>
                self.initialize(admin, delegation_manager, policy_engine),
            RouterRequest::SetDelegationManager(address) => self.set_manager(env, address),
            RouterRequest::SetPolicyEngine(address) => self.set_engine(env, address),
            RouterRequest::Execute { managers, engine, intent } => match self.execute(
                managers,
                engine,
                env,
                intent,
            ) {
                Ok((logged, _, _, _)) => Ok(logged),
                Err(error) => Err(error),
            },
        }
    }

    /// What holds of the router after any requests: executions are numbered from
    /// 1 to the counter without gaps, the hash of every recorded intent is taken,
    /// a taken hash leads to a record of it, and no record of an intent comes
    /// before the one of its execution.
    pub open spec fn sound(self) -> bool {
        &&& self.admin is None ==> self.executions.dom() =~= Set::empty() && self.intents.dom()
            =~= Set::empty()
        &&& forall|id: u64| #[trigger]
            self.executions.contains_key(id) ==> {
                &&& self.executions[id].execution_id == id
                &&& 1 <= id <= self.latest()
                &&& self.intents.contains_key(self.executions[id].intent_hash)
                &&& self.executions[id].status == ExecutionStatus::Executed
                    || self.executions[id].status == ExecutionStatus::Rejected
                &&& self.executions[id].rejection_reason is None <==> self.executions[id].status
                    == ExecutionStatus::Executed
            }
        &&& forall|id: u64|
            1 <= id <= self.latest() ==> #[trigger] self.executions.contains_key(id)
        &&& forall|hash| #[trigger]
            self.intents.contains_key(hash) ==> {
                &&& self.executions.contains_key(self.intents[hash])
                &&& self.executions[self.intents[hash]].intent_hash == hash
            }
        &&& forall|a: u64, b: u64|
            #![trigger self.executions[a], self.executions[b]]
            self.executions.contains_key(a) && self.executions.contains_key(b) && a < b
                && self.executions[b].status == ExecutionStatus::Executed
                ==> self.executions[a].intent_hash != self.executions[b].intent_hash
    }

    /// There is a record of an execution under `id`.
    pub open spec fn executed(self, id: u64) -> bool {
        self.executions.contains_key(id) && self.executions[id].status
            == ExecutionStatus::Executed
    }

    /// What holds after any requests, even where intents come before the router
    /// is initialized: the hash of every executed intent is taken, no two
    /// executions are of intents with the same hash, executions are numbered up
    /// to the counter, and before it is initialized the router has executed
    /// nothing and lacks the contracts that it would have to ask.
    pub open spec fn executes_once(self) -> bool {
        &&& forall|id: u64| #[trigger]
            self.executed(id) ==> {
                &&& id <= self.latest()
                &&& self.admin is Some
                &&& self.intents.contains_key(self.executions[id].intent_hash)
            }
        &&& forall|a: u64, b: u64|
            #![trigger self.executed(a), self.executed(b)]
            self.executed(a) && self.executed(b) && a != b ==> self.executions[a].intent_hash
                != self.executions[b].intent_hash
        &&& self.admin is None ==> !self.configured()
    }
}

/// A router without executions is sound, and executes no intent twice.
pub proof fn law_empty_is_sound()
    ensures
        RouterView::empty().sound(),
        RouterView::empty().executes_once(),
{
}

/// Every request leaves a sound router sound. (Nothing is to be executed
/// before the router is initialized.)
pub proof fn law_requests_keep_soundness(router: RouterView, env: EnvView, request: RouterRequest)
    requires
        router.sound(),
        request is Execute ==> router.admin is Some,
        router.after(env, request) is Ok,
    ensures
        router.after(env, request)->Ok_0.sound(),
{
    if let RouterRequest::Execute { managers, engine, intent } = request {
        lemma_executed_only_if_new(router, managers, engine, env, intent);
    }
}

/// An intent that is approved is new.
proof fn lemma_executed_only_if_new(
    router: RouterView,
    managers: ManagersView,
    engine: EngineView,
    env: EnvView,
    intent: IntentView,
)
    ensures
        router.validate(managers, engine, env, intent) matches Ok((_, _, verdict)) ==> {
            verdict is Approved ==> !router.intents.contains_key(intent.intent_hash)
        },
{
}

/// An execution that is recorded stays as it is, whatever is requested, and
/// the hash of its intent stays taken.
pub proof fn law_records_are_final(
    router: RouterView,
    env: EnvView,
    request: RouterRequest,
    id: u64,
)
    requires
        router.sound(),
        request is Execute ==> router.admin is Some,
        router.after(env, request) is Ok,
        router.executions.contains_key(id),
    ensures
        router.after(env, request)->Ok_0.executions.contains_key(id),
        router.after(env, request)->Ok_0.executions[id] == router.executions[id],
        router.after(env, request)->Ok_0.intents.contains_key(router.executions[id].intent_hash),
{
}

/// An intent whose hash is taken is refused until it expires, whatever the
/// state of the managers and the engine.
pub proof fn law_replay_is_refused(
    router: RouterView,
    managers: ManagersView,
    engine: EngineView,
    env: EnvView,
    intent: IntentView,
)
    requires
        router.intents.contains_key(intent.intent_hash),
        env.timestamp < intent.expiry,
    ensures
        router.execute(managers, engine, env, intent) == Err::<
            (RouterView, ManagersView, EngineView, u64),
            RouterError,
        >(
            if router.latest() == u64::MAX {
                RouterError::Overflow
            } else {
                RouterError::IntentAlreadySeen
            },
        ),
{
}

/// The engine's reasons are others than that of a replay.
proof fn lemma_engine_finds_no_replay(
    manager: ManagerView,
    engine: EngineView,
    now: u64,
    intent: IntentView,
)
    ensures
        engine_judges(manager, engine, now, intent) matches Ok((_, verdict)) ==> verdict
            != replayed(),
{
    reveal_strlit("intent hash already seen");
    assert("intent hash already seen"@.len() == 24);
    reveal_strlit("Delegation Manager not initialized");
    assert("Delegation Manager not initialized"@.len() == 34);
    reveal_strlit("delegation does not exist");
    assert("delegation does not exist"@.len() == 25);
    reveal_strlit("delegation not active");
    assert("delegation not active"@.len() == 21);
    reveal_strlit("no active policy assigned");
    assert("no active policy assigned"@.len() == 25);
    reveal_strlit("policy not found");
    assert("policy not found"@.len() == 16);
    reveal_strlit("policy not active");
    assert("policy not active"@.len() == 17);
    reveal_strlit("policy not yet valid");
    assert("policy not yet valid"@.len() == 20);
    reveal_strlit("policy expired");
    assert("policy expired"@.len() == 14);
    reveal_strlit("asset denied");
    assert("asset denied"@.len() == 12);
    reveal_strlit("asset not allowed");
    assert("asset not allowed"@.len() == 17);
    reveal_strlit("protocol denied");
    assert("protocol denied"@.len() == 15);
    reveal_strlit("protocol not allowed");
    assert("protocol not allowed"@.len() == 20);
    reveal_strlit("amount exceeds max_notional_per_tx");
    assert("amount exceeds max_notional_per_tx"@.len() == 34);
    reveal_strlit("amount exceeds daily limit");
    assert("amount exceeds daily limit"@.len() == 26);
}

/// Only an intent whose hash is taken, and which has not expired, is found to
/// be a replay.
pub proof fn law_only_replays_are_replays(
    router: RouterView,
    managers: ManagersView,
    engine: EngineView,
    env: EnvView,
    intent: IntentView,
)
    requires
        router.validate(managers, engine, env, intent) is Ok,
    ensures
        router.validate(managers, engine, env, intent)->Ok_0.2 == replayed()
            <==> router.intents.contains_key(intent.intent_hash) && env.timestamp < intent.expiry,
{
    reveal_strlit("intent hash already seen");
    assert("intent hash already seen"@.len() == 24);
    reveal_strlit("intent expired");
    assert("intent expired"@.len() == 14);
    reveal_strlit("delegation not active");
    assert("delegation not active"@.len() == 21);
    reveal_strlit("delegate mismatch");
    assert("delegate mismatch"@.len() == 17);
    reveal_strlit("invalid authority");
    assert("invalid authority"@.len() == 17);
    reveal_strlit("no active policy assigned");
    assert("no active policy assigned"@.len() == 25);
    reveal_strlit("policy mismatch");
    assert("policy mismatch"@.len() == 15);
    reveal_strlit("policy not active");
    assert("policy not active"@.len() == 17);
    let sure = confirmed(managers, env.timestamp, intent);
    lemma_engine_finds_no_replay(sure.engines(), engine, env.timestamp, intent);
}

/// Every request keeps it that no intent is executed twice, also where intents
/// are rejected before the router is initialized.
pub proof fn law_requests_keep_executions_single(
    router: RouterView,
    env: EnvView,
    request: RouterRequest,
)
    requires
        router.executes_once(),
        router.after(env, request) is Ok,
    ensures
        router.after(env, request)->Ok_0.executes_once(),
{
    let after = router.after(env, request)->Ok_0;
    if let RouterRequest::Execute { managers, engine, intent } = request {
        lemma_executed_only_if_new(router, managers, engine, env, intent);
        let verdict = router.validate(managers, engine, env, intent)->Ok_0.2;
        assert forall|id: u64| #[trigger] after.executed(id) implies {
            ||| router.executed(id) && after.executions[id] == router.executions[id]
            ||| id == after.latest() && verdict is Approved && after.executions[id].intent_hash
                == intent.intent_hash
        } by {
            if id != after.latest() {
                assert(router.executed(id));
            }
        }
    } else {
        assert forall|id: u64| #[trigger] after.executed(id) implies router.executed(id) by {}
    }
}

/// The record of an executed intent is never lost or changed, and the hash of
/// the intent stays taken, whatever is requested.
pub proof fn law_executions_are_final(
    router: RouterView,
    env: EnvView,
    request: RouterRequest,
    id: u64,
)
    requires
        router.executes_once(),
        router.after(env, request) is Ok,
        router.executed(id),
    ensures
        router.after(env, request)->Ok_0.executed(id),
        router.after(env, request)->Ok_0.executions[id] == router.executions[id],
        router.after(env, request)->Ok_0.intents.contains_key(router.executions[id].intent_hash),
{
}

/// An intent is executed at most once.
pub proof fn law_executed_at_most_once(router: RouterView, a: u64, b: u64)
    requires
        router.executes_once(),
        router.executed(a),
        router.executed(b),
        router.executions[a].intent_hash == router.executions[b].intent_hash,
    ensures
        a == b,
{
}

/// Every intent that is not refused gets a record of its own, which says what
/// the validation said, and takes its hash. It is found by its id and its hash.
pub proof fn law_every_intent_is_recorded(
    router: RouterView,
    managers: ManagersView,
    engine: EngineView,
    env: EnvView,
    intent: IntentView,
)
    requires
        router.sound(),
        router.execute(managers, engine, env, intent) is Ok,
    ensures
        ({
            let (logged, asked, charged, id) = router.execute(managers, engine, env, intent)->Ok_0;
            &&& !router.executions.contains_key(id)
            &&& logged.latest() == id
            &&& router.validate(managers, engine, env, intent) matches Ok((_, _, verdict))
                && logged.executions == router.executions.insert(
                id,
                intent.record(id, env.timestamp, verdict),
            )
            &&& logged.intents == router.intents.insert(intent.intent_hash, id)
        }),
{
}

/// An intent is executed only under a delegation of which the intent names the
/// delegate, which is in force both with the router's manager and with the
/// engine's, and under the policy that the intent names, which is active and
/// counts for the delegation.
pub proof fn law_execution_needs_delegation_and_policy(
    router: RouterView,
    managers: ManagersView,
    engine: EngineView,
    env: EnvView,
    intent: IntentView,
)
    requires
        router.validate(managers, engine, env, intent) matches Ok((_, _, Verdict::Approved)),
    ensures
        env.timestamp < intent.expiry,
        !router.intents.contains_key(intent.intent_hash),
        ({
            let manager = managers.asked_by_router;
            &&& manager.delegations.contains_key(intent.delegation_id)
            &&& manager.delegations[intent.delegation_id].in_force(env.timestamp)
            &&& manager.delegations[intent.delegation_id].delegate == intent.delegate
        }),
        managers.engines().delegations.contains_key(intent.delegation_id),
        managers.engines().delegations[intent.delegation_id].in_force(env.timestamp),
        engine.judge(true, Ok(true), intent.action(env.timestamp)) == Ok::<
            Verdict,
            PolicyError,
        >(Verdict::Approved),
        engine.active.contains_key(intent.delegation_id),
        engine.policies.contains_key(engine.active[intent.delegation_id]),
        engine.policies[engine.active[intent.delegation_id]].id == intent.policy_id,
        engine.policies[engine.active[intent.delegation_id]].status == PolicyStatus::Active,
{
    let now = env.timestamp;
    let id = intent.delegation_id;
    let manager = managers.asked_by_router;
    let asked = manager.ask_in_force(now, id)->Ok_0.0;
    assert(asked.delegations == manager.delegations);
    let sure = confirmed(managers, now, intent);
    lemma_engine_approves(sure.engines(), engine, now, intent);
    engine_laws::law_approval_is_exact(engine, true, Ok(true), intent.action(now));
}

/// The engine approves only what it judges to be allowed.
proof fn lemma_engine_approves(
    manager: ManagerView,
    engine: EngineView,
    now: u64,
    intent: IntentView,
)
    requires
        engine_judges(manager, engine, now, intent) matches Ok((_, Verdict::Approved)),
    ensures
        manager.delegations.contains_key(intent.delegation_id),
        manager.delegations[intent.delegation_id].in_force(now),
        engine.judge(true, Ok(true), intent.action(now)) == Ok::<
            Verdict,
            PolicyError,
        >(Verdict::Approved),
{
}

/// An executed intent is charged to the policy's day, within the policy's
/// limits; a rejected one is charged to nothing.
pub proof fn law_execution_is_charged_within_limits(
    router: RouterView,
    managers: ManagersView,
    engine: EngineView,
    env: EnvView,
    intent: IntentView,
)
    requires
        router.execute(managers, engine, env, intent) is Ok,
    ensures
        ({
            let now = env.timestamp;
            let (logged, asked, charged, id) = router.execute(managers, engine, env, intent)->Ok_0;
            let policy_id = engine.active[intent.delegation_id];
            let params = engine.policies[policy_id].params;
            &&& logged.executions[id].status == ExecutionStatus::Executed ==> {
                &&& intent.amount <= params.max_notional_per_tx
                &&& charged.spent_on(policy_id, now) == engine.spent_on(policy_id, now)
                    + intent.amount
                &&& charged.spent_on(policy_id, now) <= params.max_notional_per_day
                &&& charged.remaining(intent.delegation_id, now) == engine.remaining(
                    intent.delegation_id,
                    now,
                ) - intent.amount
            }
            &&& logged.executions[id].status != ExecutionStatus::Executed ==> charged.spent
                == engine.spent
        }),
{
    let now = env.timestamp;
    let (asked, fresh, verdict) = router.validate(managers, engine, env, intent)->Ok_0;
    if verdict is Approved {
        law_execution_needs_delegation_and_policy(router, managers, engine, env, intent);
        engine_laws::law_approval_is_exact(engine, true, Ok(true), intent.action(now));
        assert(fresh == engine);
        engine_laws::law_approved_spending_keeps_the_limit(
            engine,
            true,
            Ok(true),
            intent.action(now),
            env.invoke(router.policy_engine->0),
        );
    }
}

/// What the simulation says is what the execution does: an intent that is
/// found to be allowed is executed, provided that the router has an id left
/// and is the one from which the engine takes records; one that is found not
/// to be allowed is not executed.
pub proof fn law_simulation_predicts_execution(
    router: RouterView,
    managers: ManagersView,
    engine: EngineView,
    env: EnvView,
    intent: IntentView,
)
    requires
        router.validate(managers, engine, env, intent) is Ok,
        router.latest() < u64::MAX,
        engine.execution_router == Some(env.contract),
    ensures
        ({
            let verdict = router.validate(managers, engine, env, intent)->Ok_0.2;
            match router.execute(managers, engine, env, intent) {
                Ok((logged, _, _, id)) => if verdict is Approved {
                    logged.executions[id].status == ExecutionStatus::Executed
                } else {
                    verdict != replayed() && logged.executions[id].status
                        == ExecutionStatus::Rejected
                },
                Err(error) => verdict == replayed() && error == RouterError::IntentAlreadySeen,
            }
        }),
{
    let now = env.timestamp;
    let (asked, fresh, verdict) = router.validate(managers, engine, env, intent)->Ok_0;
    if verdict is Approved {
        law_execution_needs_delegation_and_policy(router, managers, engine, env, intent);
        engine_laws::law_approval_is_exact(engine, true, Ok(true), intent.action(now));
        let sub = env.invoke(router.policy_engine->0);
        assert(sub.authorized(env.contract));
        engine_laws::law_approved_spending_keeps_the_limit(engine, true, Ok(true), intent.action(now), sub);
        assert(fresh == engine);
    }
}

/// The contracts that the router calls are set by the admin, who is set once.
pub proof fn law_configuration_is_guarded(
    router: RouterView,
    env: EnvView,
    request: RouterRequest,
)
    requires
        router.after(env, request) is Ok,
        router.admin is Some,
    ensures
        ({
            let after = router.after(env, request)->Ok_0;
            &&& after.admin == router.admin
            &&& after.delegation_manager != router.delegation_manager || after.policy_engine
                != router.policy_engine ==> env.authorized(router.admin->0)
        }),
{
}

/// The managers once the router has asked about the delegation and about the
/// delegate's authority.
pub open spec fn confirmed(managers: ManagersView, now: u64, intent: IntentView) -> ManagersView {
    let id = intent.delegation_id;
    let asked = managers.asked_by_router.ask_in_force(now, id)->Ok_0.0;
    let read = asked.read(id).read(id);
    let pair = Pair { owner: read.delegations[id].owner, delegate: intent.delegate };
    managers.with_routers(read.ask_authority(now, pair)->Ok_0.0)
}

/// The answers that the managers and the engine give when they are asked in
/// turn.
pub open spec fn true_answers(
    managers: ManagersView,
    engine: EngineView,
    now: u64,
    intent: IntentView,
) -> AnswersView {
    let id = intent.delegation_id;
    let manager = managers.asked_by_router;
    let asked = manager.ask_in_force(now, id)->Ok_0.0;
    let read = asked.read(id).read(id);
    let owner = read.delegations[id].owner;
    let pair = Pair { owner, delegate: intent.delegate };
    let sure = confirmed(managers, now, intent);
    AnswersView {
        active: Some(manager.ask_in_force(now, id)->Ok_0.1),
        owner: Some(
            match asked.find(id) {
                Some(delegation) => Some(delegation.owner),
                None => None,
            },
        ),
        delegate: Some(
            match asked.find(id) {
                Some(delegation) => Some(delegation.delegate),
                None => None,
            },
        ),
        authority: Some(read.ask_authority(now, pair)->Ok_0.1),
        validation: Some(engine_judges(sure.engines(), engine, now, intent)->Ok_0.1),
        policy: Some(
            match engine.ask_active(now, id)->Ok_0.1 {
                Some(found) => Some(PolicySummary { id: found.id, status: found.status }),
                None => None,
            },
        ),
    }
}

/// Asking step by step comes to the same verdict as the validation.
pub proof fn law_steps_come_to_the_verdict(
    router: RouterView,
    managers: ManagersView,
    engine: EngineView,
    env: EnvView,
    intent: IntentView,
)
    requires
        router.validate(managers, engine, env, intent) is Ok,
    ensures
        router.next(env.timestamp, intent, true_answers(managers, engine, env.timestamp, intent))
            == Ok::<StepView, RouterError>(
            StepView::Decide(router.validate(managers, engine, env, intent)->Ok_0.2),
        ),
{
}

/// What follows a verdict makes the execution: where the settlement is to
/// charge, the engine records the action, and then the settlement is to record;
/// where it is to record, the router does so; where there is none, the execution
/// is refused for the same reason.
pub proof fn law_settlement_makes_the_execution(
    router: RouterView,
    managers: ManagersView,
    engine: EngineView,
    env: EnvView,
    intent: IntentView,
)
    requires
        router.validate(managers, engine, env, intent) is Ok,
    ensures
        ({
            let now = env.timestamp;
            let (asked, fresh, verdict) = router.validate(managers, engine, env, intent)->Ok_0;
            let (logged, id) = router.log(now, intent, verdict)->Ok_0;
            let outcome = router.execute(managers, engine, env, intent);
            match router.settlement(now, intent, verdict, false) {
                Err(error) => outcome is Err && outcome->Err_0 == error,
                Ok(Settlement::Charge { policy_engine, delegation_id, amount, timestamp }) => {
                    &&& verdict is Approved
                    &&& match fresh.record(
                        env.invoke(policy_engine),
                        delegation_id,
                        amount,
                        timestamp,
                    ) {
                        Err(error) => outcome is Err && outcome->Err_0 == RouterError::Policy(
                            error,
                        ),
                        Ok(charged) => {
                            &&& router.settlement(now, intent, verdict, true) == Ok::<
                                Settlement,
                                RouterError,
                            >(Settlement::Record)
                            &&& router.log(now, intent, verdict) is Ok
                            &&& outcome is Ok && outcome->Ok_0 == (logged, asked, charged, id)
                        },
                    }
                },
                Ok(Settlement::Record) => {
                    &&& verdict is Rejected
                    &&& router.log(now, intent, verdict) is Ok
                    &&& outcome is Ok && outcome->Ok_0 == (logged, asked, fresh, id)
                },
            }
        }),
{
}

impl ManagersView {
    /// Both managers are sound.
    pub open spec fn sound(self, now: u64) -> bool {
        &&& self.asked_by_router.sound(now)
        &&& self.engines().sound(now)
    }
}

/// Each answer that is given is the true one.
pub open spec fn truthful(answers: AnswersView, truth: AnswersView) -> bool {
    &&& answers.active is Some ==> answers.active == truth.active
    &&& answers.owner is Some ==> answers.owner == truth.owner
    &&& answers.delegate is Some ==> answers.delegate == truth.delegate
    &&& answers.authority is Some ==> answers.authority == truth.authority
    &&& answers.validation is Some ==> answers.validation == truth.validation
    &&& answers.policy is Some ==> answers.policy == truth.policy
}

/// However many true answers the router has, it asks on or decides; and what it
/// decides is the verdict of the validation.
pub proof fn law_steps_never_stray(
    router: RouterView,
    managers: ManagersView,
    engine: EngineView,
    env: EnvView,
    intent: IntentView,
    answers: AnswersView,
)
    requires
        router.validate(managers, engine, env, intent) is Ok,
        truthful(answers, true_answers(managers, engine, env.timestamp, intent)),
    ensures
        router.next(env.timestamp, intent, answers) is Ok,
        router.next(env.timestamp, intent, answers)->Ok_0 matches StepView::Decide(verdict)
            ==> verdict == router.validate(managers, engine, env, intent)->Ok_0.2,
        router.next(env.timestamp, intent, answers)->Ok_0 matches StepView::Ask(query)
            ==> unanswered(answers, query),
{
    law_steps_come_to_the_verdict(router, managers, engine, env, intent);
}

/// The answer to the question is not given yet.
pub open spec fn unanswered(answers: AnswersView, query: Query) -> bool {
    match query {
        Query::IsActiveDelegation => answers.active is None,
        Query::GetOwner => answers.owner is None,
        Query::GetDelegate => answers.delegate is None,
        Query::VerifyAuthority(_) => answers.authority is None,
        Query::ValidateAction => answers.validation is None,
        Query::GetActivePolicy => answers.policy is None,
    }
}

/// Executing an intent leaves sound managers and a sound engine sound.
pub proof fn law_execution_keeps_the_others_sound(
    router: RouterView,
    managers: ManagersView,
    engine: EngineView,
    env: EnvView,
    intent: IntentView,
)
    requires
        managers.sound(env.timestamp),
        engine.sound(env.timestamp),
        router.execute(managers, engine, env, intent) is Ok,
    ensures
        router.execute(managers, engine, env, intent)->Ok_0.1.sound(env.timestamp),
        router.execute(managers, engine, env, intent)->Ok_0.2.sound(env.timestamp),
{
    let now = env.timestamp;
    let id = intent.delegation_id;
    let (asked, fresh, verdict) = router.validate(managers, engine, env, intent)->Ok_0;
    if !router.settled(now, intent) {
        let manager = managers.asked_by_router;
        manager_laws::law_requests_keep_soundness(manager, now, env, ManagerRequest::IsActive(id));
        let first = manager.ask_in_force(now, id)->Ok_0.0;
        let read = first.read(id).read(id);
        if manager.ask_in_force(now, id)->Ok_0.1 && read.delegations[id].delegate
            == intent.delegate {
            let pair = Pair { owner: read.delegations[id].owner, delegate: intent.delegate };
            manager_laws::law_requests_keep_soundness(
                read,
                now,
                env,
                ManagerRequest::VerifyAuthority(pair),
            );
            if read.ask_authority(now, pair)->Ok_0.1 {
                lemma_engine_keeps_its_manager_sound(
                    confirmed(managers, now, intent).engines(),
                    engine,
                    env,
                    intent,
                );
                if engine.ask_active(now, id) is Ok {
                    engine_laws::law_requests_keep_soundness(
                        engine,
                        now,
                        env,
                        EngineRequest::GetActive(id),
                    );
                }
            }
        }
    }
    if verdict is Approved {
        engine_laws::law_requests_keep_soundness(
            fresh,
            now,
            env.invoke(router.policy_engine->0),
            EngineRequest::Record {
                delegation_id: id,
                amount: intent.amount,
                timestamp: now,
            },
        );
    }
}

/// The questions of the engine leave its manager sound.
proof fn lemma_engine_keeps_its_manager_sound(
    manager: ManagerView,
    engine: EngineView,
    env: EnvView,
    intent: IntentView,
)
    requires
        manager.sound(env.timestamp),
    ensures
        engine_judges(manager, engine, env.timestamp, intent) matches Ok((asked, _))
            ==> asked.sound(env.timestamp),
{
    let now = env.timestamp;
    let id = intent.delegation_id;
    if manager.read(id).ask_in_force(now, id) is Ok {
        manager_laws::law_requests_keep_soundness(
            manager.read(id),
            now,
            env,
            ManagerRequest::IsActive(id),
        );
    }
}

/// What was published stays published, and an intent that is recorded is
/// published from the request to its execution or its rejection.
pub proof fn law_executions_are_published(
    router: RouterView,
    env: EnvView,
    request: RouterRequest,
)
    requires
        router.after(env, request) is Ok,
    ensures
        ({
            let after = router.after(env, request)->Ok_0;
            match request {
                RouterRequest::Execute { managers, engine, intent } => {
                    let verdict = router.validate(managers, engine, env, intent)->Ok_0.2;
                    after.events == router.events + intent.events(
                        after.latest(),
                        env.timestamp,
                        verdict,
                    )
                },
                _ => after.events == router.events,
            }
        }),
{
}

} // verus!
