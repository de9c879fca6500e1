//! What each request to the execution router comes to, written out.

use super::laws::confirmed;
use super::model::{
    engine_judges, policy_verdict, replayed, AnswersView, ManagersView, PolicySummary, Query,
    RouterView, Settlement, StepView,
};
use super::types::{
    Execution, ExecutionEvent, ExecutionIntent, ExecutionStage, ExecutionStatus, ExecutionView,
    IntentView, RouterError,
};
use super::{option_view, Answers, ExecutionRouter, Managers, Step};
use crate::delegation_manager::outcomes as manager_outcomes;
use crate::delegation_manager::outcomes::{marked_expired, overdue, unmoved};
use crate::delegation_manager::{
    DataKey, DelegationError, DelegationStatus, ManagerView, Pair,
};
use crate::ledger::{Address, Bytes32, EnvView};
use crate::policy_engine::outcomes as engine_outcomes;
use crate::policy_engine::{
    Action, EngineView, PolicyDay, PolicyError, PolicyStatus, ValidationResult, Verdict,
};
use vstd::prelude::*;

verus! {

/// A new router has nothing in it.
pub proof fn law_empty_router()
    ensures
        RouterView::empty().admin is None,
        RouterView::empty().delegation_manager is None,
        RouterView::empty().policy_engine is None,
        RouterView::empty().counter is None,
        RouterView::empty().executions == Map::<u64, ExecutionView>::empty(),
        RouterView::empty().intents == Map::<Bytes32, u64>::empty(),
        RouterView::empty().events.len() == 0,
{
}

/// The executions, the taken hashes and the events are the same.
pub open spec fn same_records(before: RouterView, after: RouterView) -> bool {
    &&& after.executions == before.executions
    &&& after.intents == before.intents
    &&& after.events == before.events
}

/// The router is set up once, with the given addresses; its counter starts at 0.
pub proof fn law_router_setup(
    router: RouterView,
    admin: Address,
    delegation_manager: Address,
    policy_engine: Address,
)
    ensures
        ({
            let outcome = router.initialize(admin, delegation_manager, policy_engine);
            &&& outcome is Ok <==> router.admin is None
            &&& outcome is Err ==> outcome->Err_0 == RouterError::AlreadyInitialized
            &&& outcome matches Ok(after) ==> {
                &&& after.admin == Some(admin)
                &&& after.delegation_manager == Some(delegation_manager)
                &&& after.policy_engine == Some(policy_engine)
                &&& after.counter == Some(0u64)
                &&& same_records(router, after)
            }
        }),
{
}

/// The manager, and the engine, are set to the given address if and only if the
/// admin is set and has authorized it; nothing else changes.
pub proof fn law_router_configuration(router: RouterView, env: EnvView, address: Address)
    ensures
        ({
            let may = router.admin is Some && env.authorized(router.admin->0);
            let manager = router.set_manager(env, address);
            let engine = router.set_engine(env, address);
            &&& manager is Ok <==> may
            &&& engine is Ok <==> may
            &&& router.admin is None ==> {
                &&& manager->Err_0 == RouterError::NotInitialized
                &&& engine->Err_0 == RouterError::NotInitialized
            }
            &&& router.admin is Some && !may ==> {
                &&& manager->Err_0 == RouterError::Unauthorized(router.admin->0)
                &&& engine->Err_0 == RouterError::Unauthorized(router.admin->0)
            }
            &&& manager matches Ok(after) ==> {
                &&& after.delegation_manager == Some(address)
                &&& after.policy_engine == router.policy_engine
                &&& after.admin == router.admin
                &&& after.counter == router.counter
                &&& same_records(router, after)
            }
            &&& engine matches Ok(after) ==> {
                &&& after.policy_engine == Some(address)
                &&& after.delegation_manager == router.delegation_manager
                &&& after.admin == router.admin
                &&& after.counter == router.counter
                &&& same_records(router, after)
            }
        }),
{
}

/// An execution is found under its id as it is stored.
pub proof fn law_execution_lookup(router: RouterView, id: u64)
    ensures
        router.executions.contains_key(id) ==> router.find(id) == Some(router.executions[id]),
        !router.executions.contains_key(id) ==> router.find(id) is None,
        router.latest() == (if router.counter is Some {
            router.counter->0
        } else {
            0
        }),
{
}

/// The delegation is active and its expiry lies ahead.
pub open spec fn active_ahead(manager: ManagerView, id: u64, now: u64) -> bool {
    &&& manager.delegations.contains_key(id)
    &&& manager.delegations[id].status == DelegationStatus::Active
    &&& manager.delegations[id].expires_at matches Some(time) ==> now < time
}

/// The delegation is overdue, and its version cannot grow.
pub open spec fn stuck(manager: ManagerView, id: u64, now: u64) -> bool {
    overdue(manager, id, now) && manager.delegations[id].version == u32::MAX
}

/// The validation comes to a rejection for the reason.
pub open spec fn rejects(
    outcome: Result<(ManagersView, EngineView, Verdict), RouterError>,
    reason: Seq<char>,
) -> bool {
    outcome matches Ok((_, _, Verdict::Rejected(text))) && text == reason
}

/// The validation fails for the reason.
pub open spec fn fails(
    outcome: Result<(ManagersView, EngineView, Verdict), RouterError>,
    reason: RouterError,
) -> bool {
    outcome is Err && outcome->Err_0 == reason
}

/// How an intent is validated before a policy is looked at. It is rejected from
/// its expiry on, and where its hash is taken; these need no other contract.
/// Then the delegation has to be active with its expiry ahead, the intent has to
/// name its delegate, and the delegation registered for the owner and the
/// delegate has to be active with its expiry ahead.
pub proof fn law_validation_of_the_delegation(
    router: RouterView,
    managers: ManagersView,
    engine: EngineView,
    env: EnvView,
    intent: IntentView,
)
    ensures
        ({
            let now = env.timestamp;
            let id = intent.delegation_id;
            let outcome = router.validate(managers, engine, env, intent);
            let manager = managers.asked_by_router;
            let record = manager.delegations[id];
            let late = intent.expiry <= now;
            let seen = router.intents.contains_key(intent.intent_hash);
            let set = router.delegation_manager is Some && router.policy_engine is Some;
            let open = !late && !seen && set;
            let pair = Pair { owner: record.owner, delegate: intent.delegate };
            let registered = manager.active[pair];
            let own = open && active_ahead(manager, id, now) && record.delegate == intent.delegate;
            &&& late ==> {
                &&& rejects(outcome, "intent expired"@)
                &&& outcome->Ok_0.0 == managers
                &&& outcome->Ok_0.1 == engine
            }
            &&& !late && seen ==> {
                &&& rejects(outcome, "intent hash already seen"@)
                &&& outcome->Ok_0.0 == managers
                &&& outcome->Ok_0.1 == engine
            }
            &&& !late && !seen && !set ==> fails(outcome, RouterError::NotInitialized)
            &&& open && stuck(manager, id, now) ==> fails(
                outcome,
                RouterError::Delegation(DelegationError::VersionOverflow),
            )
            &&& open && !stuck(manager, id, now) && !active_ahead(manager, id, now) ==> {
                &&& rejects(outcome, "delegation not active"@)
                &&& outcome->Ok_0.0.asked_by_engine == managers.asked_by_engine
                &&& outcome->Ok_0.1 == engine
                &&& if overdue(manager, id, now) {
                    marked_expired(manager, outcome->Ok_0.0.asked_by_router, id, now)
                } else {
                    unmoved(manager, outcome->Ok_0.0.asked_by_router)
                }
            }
            &&& open && active_ahead(manager, id, now) && record.delegate != intent.delegate ==> {
                &&& rejects(outcome, "delegate mismatch"@)
                &&& unmoved(manager, outcome->Ok_0.0.asked_by_router)
                &&& outcome->Ok_0.0.asked_by_router.extended == manager.extended + seq![
                    DataKey::Delegation(id),
                    DataKey::Delegation(id),
                    DataKey::Delegation(id),
                    DataKey::Delegation(id),
                ]
                &&& outcome->Ok_0.0.asked_by_engine == managers.asked_by_engine
                &&& outcome->Ok_0.1 == engine
            }
            &&& own && manager.active.contains_key(pair) && stuck(manager, registered, now)
                ==> fails(outcome, RouterError::Delegation(DelegationError::VersionOverflow))
            &&& own && !(manager.active.contains_key(pair) && active_ahead(
                manager,
                registered,
                now,
            )) && !(manager.active.contains_key(pair) && stuck(manager, registered, now)) ==> {
                &&& rejects(outcome, "invalid authority"@)
                &&& if manager.active.contains_key(pair) && overdue(manager, registered, now) {
                    marked_expired(manager, outcome->Ok_0.0.asked_by_router, registered, now)
                } else {
                    &&& outcome->Ok_0.0.asked_by_router.delegations == manager.delegations
                    &&& outcome->Ok_0.0.asked_by_router.events == manager.events
                }
                &&& outcome->Ok_0.0.asked_by_engine == managers.asked_by_engine
                &&& outcome->Ok_0.1 == engine
            }
        }),
{
    let now = env.timestamp;
    let id = intent.delegation_id;
    let manager = managers.asked_by_router;
    let asked = manager.ask_in_force(now, id)->Ok_0.0;
    let read = asked.read(id).read(id);
    let pair = Pair { owner: manager.delegations[id].owner, delegate: intent.delegate };
    manager_outcomes::law_activity(manager, id, now);
    manager_outcomes::law_authority_by_the_registry(read, pair, now);
}

/// How an intent is validated once the delegation and the authority are
/// confirmed: the engine judges the intent's own asset, protocol and amount at
/// the current time, asking its manager whether the delegation is there and is
/// active with its expiry ahead. What it rejects is rejected for its reason.
/// What it approves is rejected if the policy that counts is not the one that
/// the intent names, and is approved otherwise, whatever the nonce, the payload,
/// the target and the kind of the action. The engine is left as it was.
pub proof fn law_validation_of_the_policy(
    router: RouterView,
    managers: ManagersView,
    engine: EngineView,
    env: EnvView,
    intent: IntentView,
)
    requires
        env.timestamp < intent.expiry,
        !router.intents.contains_key(intent.intent_hash),
        router.delegation_manager is Some,
        router.policy_engine is Some,
        active_ahead(managers.asked_by_router, intent.delegation_id, env.timestamp),
        managers.asked_by_router.delegations[intent.delegation_id].delegate == intent.delegate,
        ({
            let manager = managers.asked_by_router;
            let pair = Pair {
                owner: manager.delegations[intent.delegation_id].owner,
                delegate: intent.delegate,
            };
            manager.active.contains_key(pair) && active_ahead(
                manager,
                manager.active[pair],
                env.timestamp,
            )
        }),
    ensures
        ({
            let now = env.timestamp;
            let id = intent.delegation_id;
            let outcome = router.validate(managers, engine, env, intent);
            let other = if managers.asked_by_engine is Some {
                managers.asked_by_engine->0
            } else {
                managers.asked_by_router
            };
            let judged = engine.judge(
                other.delegations.contains_key(id),
                Ok(active_ahead(other, id, now)),
                Action {
                    delegation_id: id,
                    asset: intent.asset,
                    protocol: intent.protocol,
                    amount: intent.amount,
                    timestamp: now,
                },
            );
            let blocked = engine.delegation_manager is Some && stuck(other, id, now);
            &&& blocked ==> fails(
                outcome,
                RouterError::Policy(PolicyError::Delegation(DelegationError::VersionOverflow)),
            )
            &&& !blocked ==> match judged {
                Err(error) => fails(outcome, RouterError::Policy(error)),
                Ok(Verdict::Rejected(reason)) => rejects(outcome, reason),
                Ok(Verdict::Approved) => if engine.policies[engine.active[id]].id
                    != intent.policy_id {
                    rejects(outcome, "policy mismatch"@)
                } else {
                    outcome matches Ok((_, _, Verdict::Approved))
                },
            }
            &&& outcome matches Ok((asked, fresh, _)) ==> {
                &&& fresh == engine
                &&& unmoved(managers.asked_by_router, asked.asked_by_router)
                &&& managers.asked_by_engine is None ==> asked.asked_by_engine is None
                &&& managers.asked_by_engine is Some ==> {
                    let left = asked.asked_by_engine->0;
                    let manager = managers.asked_by_router;
                    let registered = manager.active[Pair {
                        owner: manager.delegations[id].owner,
                        delegate: intent.delegate,
                    }];
                    &&& asked.asked_by_engine is Some
                    &&& asked.asked_by_router.extended == manager.extended + seq![
                        DataKey::Delegation(id),
                        DataKey::Delegation(id),
                        DataKey::Delegation(id),
                        DataKey::Delegation(id),
                        DataKey::ActiveDelegation(manager.delegations[id].owner, intent.delegate),
                        DataKey::Delegation(registered),
                        DataKey::Delegation(registered),
                        DataKey::Delegation(registered),
                        DataKey::Delegation(registered),
                        DataKey::Delegation(registered),
                    ]
                    &&& if engine.delegation_manager is Some && overdue(other, id, now) {
                        marked_expired(other, left, id, now)
                    } else {
                        unmoved(other, left)
                    }
                }
            }
        }),
{
    let now = env.timestamp;
    let id = intent.delegation_id;
    let manager = managers.asked_by_router;
    let asked = manager.ask_in_force(now, id)->Ok_0.0;
    let read = asked.read(id).read(id);
    let pair = Pair { owner: manager.delegations[id].owner, delegate: intent.delegate };
    manager_outcomes::law_activity(manager, id, now);
    manager_outcomes::law_authority_by_the_registry(read, pair, now);
    let sure = confirmed(managers, now, intent);
    let other = sure.engines();
    manager_outcomes::law_lookup(other, id);
    manager_outcomes::law_activity(other.read(id), id, now);
    lemma_judged(other, engine, now, intent);
    engine_outcomes::law_policy_that_counts(engine, id, now);
}

/// The engine's judgement of an intent, in terms of what its manager says.
proof fn lemma_judged(manager: ManagerView, engine: EngineView, now: u64, intent: IntentView)
    ensures
        ({
            let id = intent.delegation_id;
            let outcome = engine_judges(manager, engine, now, intent);
            let judged = engine.judge(
                manager.delegations.contains_key(id),
                Ok(active_ahead(manager, id, now)),
                Action {
                    delegation_id: id,
                    asset: intent.asset,
                    protocol: intent.protocol,
                    amount: intent.amount,
                    timestamp: now,
                },
            );
            let blocked = engine.delegation_manager is Some && stuck(manager, id, now);
            &&& blocked ==> outcome is Err && outcome->Err_0 == PolicyError::Delegation(
                DelegationError::VersionOverflow,
            )
            &&& !blocked ==> match judged {
                Err(error) => outcome is Err && outcome->Err_0 == error,
                Ok(verdict) => outcome is Ok && outcome->Ok_0.1 == verdict,
            }
            &&& outcome is Ok ==> if engine.delegation_manager is Some && overdue(
                manager,
                id,
                now,
            ) {
                marked_expired(manager, outcome->Ok_0.0, id, now)
            } else {
                unmoved(manager, outcome->Ok_0.0)
            }
            &&& !blocked && (judged matches Ok(Verdict::Approved)) ==> {
                let policy = engine.policies[engine.active[id]];
                &&& engine.active.contains_key(id)
                &&& engine.policies.contains_key(engine.active[id])
                &&& policy.status == PolicyStatus::Active
                &&& policy.params.valid_until matches Some(until) ==> now <= until
            }
        }),
{
    let id = intent.delegation_id;
    manager_outcomes::law_lookup(manager, id);
    manager_outcomes::law_activity(manager.read(id), id, now);
}

/// An intent is approved if it has not expired and its hash is new, its
/// delegation is active with its expiry ahead with the router's manager and with
/// the engine's, it names the delegate of the delegation, the policy that counts
/// for the delegation is active, is within its times, lists and limits, and is
/// the one that the intent names. Nothing else about the intent matters: nonce,
/// payload, target and kind of action may be anything.
pub proof fn law_allowed_intents_are_approved(
    router: RouterView,
    managers: ManagersView,
    engine: EngineView,
    env: EnvView,
    intent: IntentView,
)
    requires
        managers.asked_by_router.sound(env.timestamp),
        env.timestamp < intent.expiry,
        !router.intents.contains_key(intent.intent_hash),
        router.delegation_manager is Some,
        router.policy_engine is Some,
        engine.delegation_manager is Some,
        active_ahead(managers.asked_by_router, intent.delegation_id, env.timestamp),
        managers.asked_by_router.delegations[intent.delegation_id].delegate == intent.delegate,
        managers.asked_by_engine matches Some(manager) ==> active_ahead(
            manager,
            intent.delegation_id,
            env.timestamp,
        ),
        engine.active.contains_key(intent.delegation_id),
        engine.policies.contains_key(engine.active[intent.delegation_id]),
        ({
            let id = engine.active[intent.delegation_id];
            let policy = engine.policies[id];
            let params = policy.params;
            let day = PolicyDay { policy_id: id, day_id: (env.timestamp / 86400) as u64 };
            let spent = if engine.spent.contains_key(day) {
                engine.spent[day]
            } else {
                0
            };
            &&& policy.id == intent.policy_id
            &&& policy.status == PolicyStatus::Active
            &&& params.valid_from <= env.timestamp
            &&& params.valid_until matches Some(until) ==> env.timestamp <= until
            &&& !params.denied_assets.contains(intent.asset)
            &&& params.allowed_assets.len() == 0 || params.allowed_assets.contains(intent.asset)
            &&& !params.denied_protocols.contains(intent.protocol)
            &&& params.allowed_protocols.len() == 0 || params.allowed_protocols.contains(
                intent.protocol,
            )
            &&& intent.amount <= params.max_notional_per_tx
            &&& spent + intent.amount <= params.max_notional_per_day
        }),
    ensures
        router.validate(managers, engine, env, intent) matches Ok((_, _, Verdict::Approved)),
{
    let now = env.timestamp;
    let id = intent.delegation_id;
    let manager = managers.asked_by_router;
    let record = manager.delegations[id];
    let pair = Pair { owner: record.owner, delegate: intent.delegate };
    assert(record.pair() == pair);
    assert(manager.registered(pair, id));
    law_validation_of_the_policy(router, managers, engine, env, intent);
    let action = Action {
        delegation_id: id,
        asset: intent.asset,
        protocol: intent.protocol,
        amount: intent.amount,
        timestamp: now,
    };
    engine_outcomes::law_judgement(engine, true, Ok(true), action);
    engine_outcomes::law_remaining(engine, engine.active[id], id, now);
    engine_outcomes::law_policy_judgement(
        engine.policies[engine.active[id]],
        action,
        engine.spent_on(engine.active[id], now),
    );
}

/// The record says of the intent what the intent says, and the time.
pub open spec fn tells_of(record: ExecutionView, id: u64, intent: IntentView, now: u64) -> bool {
    &&& record.execution_id == id
    &&& record.intent_hash == intent.intent_hash
    &&& record.delegation_id == intent.delegation_id
    &&& record.policy_id == intent.policy_id
    &&& record.delegate == intent.delegate
    &&& record.asset == intent.asset
    &&& record.protocol == intent.protocol
    &&& record.action_type == intent.action_type
    &&& record.amount == intent.amount
    &&& record.target == intent.target
    &&& record.timestamp == now
}

/// The event tells of the stage of the intent.
pub open spec fn announces(
    event: ExecutionEvent,
    stage: ExecutionStage,
    id: u64,
    intent: IntentView,
    now: u64,
) -> bool {
    &&& event.stage == stage
    &&& event.execution_id == id
    &&& event.intent_hash == intent.intent_hash
    &&& event.delegation_id == intent.delegation_id
    &&& event.policy_id == intent.policy_id
    &&& event.amount == intent.amount
    &&& event.timestamp == now
}

/// The intent was recorded under the next id, with what the verdict says; its
/// hash was taken, and the stages that it came through were published.
pub open spec fn recorded(
    before: RouterView,
    after: RouterView,
    id: u64,
    intent: IntentView,
    now: u64,
    verdict: Verdict,
) -> bool {
    let record = after.executions[id];
    let n = before.events.len() as int;
    &&& id == (if before.counter is Some {
        before.counter->0
    } else {
        0
    }) + 1
    &&& after.counter == Some(id)
    &&& after.executions == before.executions.insert(id, record)
    &&& tells_of(record, id, intent, now)
    &&& after.intents == before.intents.insert(intent.intent_hash, id)
    &&& after.admin == before.admin
    &&& after.delegation_manager == before.delegation_manager
    &&& after.policy_engine == before.policy_engine
    &&& forall|i: int| 0 <= i < n ==> #[trigger] after.events[i] == before.events[i]
    &&& announces(after.events[n], ExecutionStage::Requested, id, intent, now)
    &&& announces(after.events[n + 1], ExecutionStage::Validated, id, intent, now)
    &&& match verdict {
        Verdict::Approved => {
            &&& record.status == ExecutionStatus::Executed
            &&& record.rejection_reason is None
            &&& after.events.len() == n + 4
            &&& announces(after.events[n + 2], ExecutionStage::Approved, id, intent, now)
            &&& announces(after.events[n + 3], ExecutionStage::Executed, id, intent, now)
        },
        Verdict::Rejected(reason) => {
            &&& record.status == ExecutionStatus::Rejected
            &&& record.rejection_reason == Some(reason)
            &&& after.events.len() == n + 3
            &&& announces(after.events[n + 2], ExecutionStage::Rejected, id, intent, now)
        },
    }
}

/// Recording an intent succeeds unless there is no id left or the verdict is that
/// it is a replay.
pub proof fn law_recording_of_an_intent(
    router: RouterView,
    now: u64,
    intent: IntentView,
    verdict: Verdict,
)
    ensures
        ({
            let outcome = router.log(now, intent, verdict);
            let full = router.counter == Some(u64::MAX);
            let replay = verdict == Verdict::Rejected("intent hash already seen"@);
            &&& outcome is Ok <==> !full && !replay
            &&& full ==> outcome->Err_0 == RouterError::Overflow
            &&& !full && replay ==> outcome->Err_0 == RouterError::IntentAlreadySeen
            &&& outcome matches Ok((after, id)) ==> recorded(
                router,
                after,
                id,
                intent,
                now,
                verdict,
            )
        }),
        replayed() == Verdict::Rejected("intent hash already seen"@),
{
}

/// What follows the validation of an intent. One that may be executed and is not
/// charged yet is to be charged by the engine, with its delegation and its
/// amount, at the current time; any other that is no replay is to be recorded.
pub proof fn law_settlement(
    router: RouterView,
    now: u64,
    intent: IntentView,
    verdict: Verdict,
    charged: bool,
)
    ensures
        ({
            let outcome = router.settlement(now, intent, verdict, charged);
            let full = router.counter == Some(u64::MAX);
            let replay = verdict == Verdict::Rejected("intent hash already seen"@);
            let to_charge = !full && verdict == Verdict::Approved && !charged;
            &&& full ==> outcome is Err && outcome->Err_0 == RouterError::Overflow
            &&& !full && replay ==> outcome is Err && outcome->Err_0
                == RouterError::IntentAlreadySeen
            &&& to_charge && router.policy_engine is None ==> outcome is Err && outcome->Err_0
                == RouterError::NotInitialized
            &&& to_charge && router.policy_engine is Some ==> outcome is Ok && outcome->Ok_0
                == (Settlement::Charge {
                policy_engine: router.policy_engine->0,
                delegation_id: intent.delegation_id,
                amount: intent.amount,
                timestamp: now,
            })
            &&& !full && !replay && !to_charge ==> outcome is Ok && outcome->Ok_0
                == Settlement::Record
        }),
{
}

/// Executing an intent: what is validated is recorded under the next id, field by
/// field as the intent says, with the verdict, and its hash is taken. An approved
/// intent adds its amount to what was spent under the policy that counts on the
/// day; a rejected one adds nothing. The execution is refused where the
/// validation fails, where no id is left, where the intent is a replay, and where
/// the engine refuses the record.
pub proof fn law_execution(
    router: RouterView,
    managers: ManagersView,
    engine: EngineView,
    env: EnvView,
    intent: IntentView,
)
    ensures
        ({
            let now = env.timestamp;
            let validated = router.validate(managers, engine, env, intent);
            let outcome = router.execute(managers, engine, env, intent);
            let full = router.counter == Some(u64::MAX);
            &&& validated is Err ==> outcome is Err && outcome->Err_0 == validated->Err_0
            &&& validated matches Ok((asked, fresh, verdict)) ==> {
                let replay = verdict == Verdict::Rejected("intent hash already seen"@);
                let charging = fresh.record(
                    env.invoke(router.policy_engine->0),
                    intent.delegation_id,
                    intent.amount,
                    now,
                );
                &&& outcome is Ok <==> !full && !replay && (verdict == Verdict::Approved
                    ==> charging is Ok)
                &&& full ==> outcome->Err_0 == RouterError::Overflow
                &&& !full && replay ==> outcome->Err_0 == RouterError::IntentAlreadySeen
                &&& !full && verdict == Verdict::Approved && charging is Err ==> outcome->Err_0
                    == RouterError::Policy(charging->Err_0)
                &&& outcome matches Ok((logged, left, charged, id)) ==> {
                    &&& left == asked
                    &&& recorded(router, logged, id, intent, now, verdict)
                    &&& logged.executions[id].asset == intent.asset
                    &&& logged.executions[id].protocol == intent.protocol
                    &&& logged.executions[id].amount == intent.amount
                    &&& logged.executions[id].target == intent.target
                    &&& verdict == Verdict::Approved ==> charged == charging->Ok_0
                    &&& verdict != Verdict::Approved ==> charged == fresh
                }
            }
        }),
{
    law_recording_of_an_intent(
        router,
        env.timestamp,
        intent,
        router.validate(managers, engine, env, intent)->Ok_0.2,
    );
}

/// What the router asks next, and when it decides: it asks whether the delegation
/// is active, who its owner and who its delegate is, whether the delegate has
/// authority from that owner, whether the action is allowed, and which policy
/// counts, each once the answers before it allow to go on.
pub proof fn law_questions(router: RouterView, now: u64, intent: IntentView, answers: AnswersView)
    ensures
        ({
            let step = router.next(now, intent, answers);
            let late = intent.expiry <= now;
            let seen = router.intents.contains_key(intent.intent_hash);
            let set = router.delegation_manager is Some && router.policy_engine is Some;
            let open = !late && !seen && set;
            let active = open && answers.active == Some(true);
            let owned = active && (answers.owner matches Some(Some(_)));
            let delegated = owned && answers.delegate == Some(Some(intent.delegate));
            let sure = delegated && answers.authority == Some(true);
            let allowed = sure && answers.validation == Some(Verdict::Approved);
            &&& late ==> decides(step, Verdict::Rejected("intent expired"@))
            &&& !late && seen ==> decides(step, Verdict::Rejected("intent hash already seen"@))
            &&& !late && !seen && !set ==> step is Err && step->Err_0 == RouterError::NotInitialized
            &&& open && answers.active is None ==> asks(step, Query::IsActiveDelegation)
            &&& open && answers.active == Some(false) ==> decides(
                step,
                Verdict::Rejected("delegation not active"@),
            )
            &&& active && answers.owner is None ==> asks(step, Query::GetOwner)
            &&& active && answers.owner == Some(None::<Address>) ==> decides(
                step,
                Verdict::Rejected("delegation does not exist"@),
            )
            &&& owned && answers.delegate is None ==> asks(step, Query::GetDelegate)
            &&& owned && answers.delegate == Some(None::<Address>) ==> decides(
                step,
                Verdict::Rejected("delegation does not exist"@),
            )
            &&& owned && (answers.delegate matches Some(Some(delegate)) && delegate
                != intent.delegate) ==> decides(step, Verdict::Rejected("delegate mismatch"@))
            &&& delegated && answers.authority is None ==> asks(
                step,
                Query::VerifyAuthority(answers.owner->0->0),
            )
            &&& delegated && answers.authority == Some(false) ==> decides(
                step,
                Verdict::Rejected("invalid authority"@),
            )
            &&& sure && answers.validation is None ==> asks(step, Query::ValidateAction)
            &&& sure ==> (answers.validation matches Some(Verdict::Rejected(reason)) ==> decides(
                step,
                Verdict::Rejected(reason),
            ))
            &&& allowed && answers.policy is None ==> asks(step, Query::GetActivePolicy)
            &&& allowed ==> (answers.policy matches Some(policy) ==> decides(
                step,
                policy_verdict(policy, intent),
            ))
        }),
{
}

/// The router decides, with the verdict.
pub open spec fn decides(step: Result<StepView, RouterError>, verdict: Verdict) -> bool {
    step matches Ok(StepView::Decide(given)) && given == verdict
}

/// The router asks the question.
pub open spec fn asks(step: Result<StepView, RouterError>, query: Query) -> bool {
    step matches Ok(StepView::Ask(given)) && given == query
}

/// An allowed action is approved if and only if a policy counts, is the one that
/// the intent names, and is active; nothing else about the intent matters.
pub proof fn law_policy_verdict(policy: Option<PolicySummary>, intent: IntentView)
    ensures
        policy is None ==> policy_verdict(policy, intent) == Verdict::Rejected(
            "no active policy assigned"@,
        ),
        policy matches Some(summary) ==> {
            let verdict = policy_verdict(policy, intent);
            &&& summary.id != intent.policy_id ==> verdict == Verdict::Rejected("policy mismatch"@)
            &&& summary.id == intent.policy_id && summary.status != PolicyStatus::Active ==> verdict
                == Verdict::Rejected("policy not active"@)
            &&& summary.id == intent.policy_id && summary.status == PolicyStatus::Active ==> verdict
                == Verdict::Approved
        },
{
}

/// The content of a record is what the record holds, field by field.
pub proof fn law_execution_content(
    intent: ExecutionIntent,
    execution: Execution,
    router: ExecutionRouter,
    managers: Managers,
    answers: Answers,
    query: Query,
    result: ValidationResult,
)
    ensures
        intent@.intent_hash == intent.intent_hash,
        intent@.delegation_id == intent.delegation_id,
        intent@.policy_id == intent.policy_id,
        intent@.delegate == intent.delegate,
        intent@.asset == intent.asset,
        intent@.protocol == intent.protocol,
        intent@.action_type == intent.action_type@,
        intent@.amount == intent.amount,
        intent@.target == intent.target,
        intent@.payload_hash == intent.payload_hash,
        intent@.nonce == intent.nonce,
        intent@.timestamp == intent.timestamp,
        intent@.expiry == intent.expiry,
        execution@.execution_id == execution.execution_id,
        execution@.intent_hash == execution.intent_hash,
        execution@.delegation_id == execution.delegation_id,
        execution@.policy_id == execution.policy_id,
        execution@.delegate == execution.delegate,
        execution@.asset == execution.asset,
        execution@.protocol == execution.protocol,
        execution@.action_type == execution.action_type@,
        execution@.amount == execution.amount,
        execution@.target == execution.target,
        execution@.timestamp == execution.timestamp,
        execution@.status == execution.status,
        execution@.rejection_reason is Some <==> execution.rejection_reason is Some,
        execution.rejection_reason matches Some(reason) ==> execution@.rejection_reason == Some(
            reason@,
        ),
        router@.admin == router.admin,
        router@.delegation_manager == router.delegation_manager,
        router@.policy_engine == router.policy_engine,
        router@.counter == router.counter,
        router@.executions == router.executions@,
        router@.intents == router.intents@,
        router@.events == router.events@,
        managers@.asked_by_router == managers.asked_by_router@,
        managers@.asked_by_engine is Some <==> managers.asked_by_engine is Some,
        managers.asked_by_engine matches Some(manager) ==> managers@.asked_by_engine == Some(
            manager@,
        ),
        answers@.active == answers.active,
        answers@.owner == answers.owner,
        answers@.delegate == answers.delegate,
        answers@.authority == answers.authority,
        answers@.validation is Some <==> answers.validation is Some,
        answers.validation matches Some(given) ==> answers@.validation == Some(given@),
        answers@.policy == answers.policy,
        Step::Ask(query)@ == StepView::Ask(query),
        Step::Decide(result)@ == StepView::Decide(result@),
        option_view(Some(execution)) == Some(execution@),
        option_view(None) is None,
{
}

/// The manager that the engine asks is its own, where it has one, and otherwise
/// the router's; a change of one is no change of the other.
pub proof fn law_managers_asked(managers: ManagersView, manager: ManagerView)
    ensures
        managers.asked_by_engine is None ==> {
            &&& managers.engines() == managers.asked_by_router
            &&& managers.with_engines(manager).asked_by_router == manager
            &&& managers.with_engines(manager).asked_by_engine is None
        },
        managers.asked_by_engine is Some ==> {
            &&& Some(managers.engines()) == managers.asked_by_engine
            &&& managers.with_engines(manager).asked_by_router == managers.asked_by_router
            &&& managers.with_engines(manager).asked_by_engine == Some(manager)
        },
        managers.with_routers(manager).asked_by_router == manager,
        managers.with_routers(manager).asked_by_engine == managers.asked_by_engine,
{
}

/// The topic of every event.
pub proof fn law_execution_topics()
    ensures
        ExecutionStage::Requested.topic_text() == "execution_requested"@,
        ExecutionStage::Validated.topic_text() == "execution_validated"@,
        ExecutionStage::Approved.topic_text() == "execution_approved"@,
        ExecutionStage::Executed.topic_text() == "execution_executed"@,
        ExecutionStage::Rejected.topic_text() == "execution_rejected"@,
{
}

/// The message of every refusal.
pub proof fn law_router_messages(
    address: Address,
    delegation: DelegationError,
    policy: PolicyError,
)
    ensures
        RouterError::Unauthorized(address).message_text() == "not authorized"@,
        RouterError::AlreadyInitialized.message_text() == "already initialized"@,
        RouterError::NotInitialized.message_text() == "not initialized"@,
        RouterError::IntentAlreadySeen.message_text() == "intent hash already seen"@,
        RouterError::Overflow.message_text() == "attempt to add with overflow"@,
        RouterError::Delegation(delegation).message_text() == delegation.message_text(),
        RouterError::Policy(policy).message_text() == policy.message_text(),
{
}

} // verus!
