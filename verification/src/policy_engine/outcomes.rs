//! What each request to the policy engine comes to, written out.

use super::delegation_manager_client::{answer_of, DelegationManagerInterface};
use super::model::{day_of, list_without, Action, EngineView};
use super::types::{
    ParamsView, Policy, PolicyChange, PolicyDay, PolicyError, PolicyEvent, PolicyParams,
    PolicyStatus, PolicyView, ValidationResult, Verdict,
};
use super::{option_view, PolicyEngine};
use crate::delegation_manager::{DelegationError, DelegationManager, ManagerView};
use crate::ledger::{Address, EnvView};
use vstd::prelude::*;

verus! {

/// A day is a stretch of 86400 seconds: two times fall on the same day if and
/// only if they lie in the same stretch.
pub proof fn law_a_day_has_its_seconds(a: u64, b: u64)
    ensures
        day_of(a) * 86400 <= a < (day_of(a) + 1) * 86400,
        a <= b ==> day_of(a) <= day_of(b),
        b >= a + 86400 ==> day_of(a) < day_of(b),
        day_of(a) == day_of(b) <==> exists|day: int|
            #![trigger day * 86400]
            day * 86400 <= a < day * 86400 + 86400 && day * 86400 <= b < day * 86400 + 86400,
{
    if day_of(a) == day_of(b) {
        let day = day_of(a) as int;
        assert(day * 86400 <= a < day * 86400 + 86400 && day * 86400 <= b < day * 86400 + 86400);
    }
}

/// What is recorded at one time leaves what was spent, and what remains, at every
/// time a full day or more before or after as it was. Within the same stretch of
/// 86400 seconds it adds to what was spent under the policy that counts.
pub proof fn law_limits_start_anew(
    engine: EngineView,
    env: EnvView,
    delegation_id: u64,
    amount: u128,
    timestamp: u64,
    other: u64,
    policy_id: u64,
    any_delegation: u64,
    day: int,
)
    requires
        engine.record(env, delegation_id, amount, timestamp) is Ok,
    ensures
        ({
            let after = engine.record(env, delegation_id, amount, timestamp)->Ok_0;
            &&& other >= timestamp + 86400 || timestamp >= other + 86400 ==> {
                &&& after.spent_on(policy_id, other) == engine.spent_on(policy_id, other)
                &&& after.remaining(any_delegation, other) == engine.remaining(
                    any_delegation,
                    other,
                )
            }
            &&& day * 86400 <= timestamp < day * 86400 + 86400 && day * 86400 <= other < day * 86400
                + 86400 ==> after.spent_on(engine.active[delegation_id], other) == engine.spent_on(
                engine.active[delegation_id],
                other,
            ) + amount
            &&& policy_id != engine.active[delegation_id] ==> after.spent_on(policy_id, other)
                == engine.spent_on(policy_id, other)
        }),
{
    law_a_day_has_its_seconds(timestamp, other);
    law_a_day_has_its_seconds(other, timestamp);
}

/// Recording succeeds if and only if the router is set and has authorized it, a
/// policy counts for the delegation, and the sum fits. It adds the amount to what
/// was spent under that policy on the day, and changes nothing else.
pub proof fn law_recording(
    engine: EngineView,
    env: EnvView,
    delegation_id: u64,
    amount: u128,
    timestamp: u64,
)
    ensures
        ({
            let outcome = engine.record(env, delegation_id, amount, timestamp);
            let day = PolicyDay {
                policy_id: engine.active[delegation_id],
                day_id: (timestamp / 86400) as u64,
            };
            let spent = if engine.spent.contains_key(day) {
                engine.spent[day]
            } else {
                0
            };
            let set = engine.execution_router is Some;
            let router = engine.execution_router->0;
            let signed = env.authorized(router);
            let counts = engine.active.contains_key(delegation_id);
            &&& outcome is Ok <==> set && signed && counts && spent + amount <= u128::MAX
            &&& !set ==> outcome->Err_0 == PolicyError::RouterNotSet
            &&& set && !signed ==> outcome->Err_0 == PolicyError::Unauthorized(router)
            &&& set && signed && !counts ==> outcome->Err_0 == PolicyError::NoActivePolicy
            &&& set && signed && counts && spent + amount > u128::MAX ==> outcome->Err_0
                == PolicyError::Overflow
            &&& outcome matches Ok(after) ==> {
                &&& after.spent == engine.spent.insert(day, (spent + amount) as u128)
                &&& after.policies == engine.policies
                &&& after.assigned == engine.assigned
                &&& after.active == engine.active
                &&& after.counter == engine.counter
                &&& after.events == engine.events
                &&& same_setup(engine, after)
            }
        }),
{
}

/// The manager, the admin and the router are the same.
pub open spec fn same_setup(before: EngineView, after: EngineView) -> bool {
    &&& after.delegation_manager == before.delegation_manager
    &&& after.admin == before.admin
    &&& after.execution_router == before.execution_router
}

/// What was spent on a day is what is stored for the policy and the day, and
/// what remains of the day is the rest of the daily limit of the policy that
/// counts for the delegation: nothing where none counts or the limit is reached.
pub proof fn law_remaining(engine: EngineView, policy_id: u64, delegation_id: u64, timestamp: u64)
    ensures
        ({
            let day = PolicyDay { policy_id, day_id: (timestamp / 86400) as u64 };
            &&& engine.spent.contains_key(day) ==> engine.spent_on(policy_id, timestamp)
                == engine.spent[day]
            &&& !engine.spent.contains_key(day) ==> engine.spent_on(policy_id, timestamp) == 0
        }),
        ({
            let id = engine.active[delegation_id];
            let limit = engine.policies[id].params.max_notional_per_day;
            let spent = engine.spent_on(id, timestamp);
            let rest = engine.remaining(delegation_id, timestamp);
            if engine.active.contains_key(delegation_id) && engine.policies.contains_key(id) {
                &&& spent <= limit ==> spent + rest == limit
                &&& spent > limit ==> rest == 0
            } else {
                rest == 0
            }
        }),
{
}

/// A new engine has nothing in it.
pub proof fn law_empty_engine()
    ensures
        EngineView::empty().delegation_manager is None,
        EngineView::empty().admin is None,
        EngineView::empty().execution_router is None,
        EngineView::empty().counter is None,
        EngineView::empty().policies == Map::<u64, PolicyView>::empty(),
        EngineView::empty().assigned == Map::<u64, Seq<u64>>::empty(),
        EngineView::empty().active == Map::<u64, u64>::empty(),
        EngineView::empty().spent == Map::<PolicyDay, u128>::empty(),
        EngineView::empty().events.len() == 0,
{
}

/// The engine is set up once, with the given manager and admin.
pub proof fn law_setup(engine: EngineView, delegation_manager: Address, admin: Address)
    ensures
        ({
            let outcome = engine.initialize(delegation_manager, admin);
            &&& outcome is Ok <==> engine.delegation_manager is None
            &&& outcome is Err ==> outcome->Err_0 == PolicyError::AlreadyInitialized
            &&& outcome matches Ok(after) ==> {
                &&& after.delegation_manager == Some(delegation_manager)
                &&& after.admin == Some(admin)
                &&& after.execution_router == engine.execution_router
                &&& same_books(engine, after)
            }
        }),
{
}

/// The router is set to the given one if and only if the admin is set and has
/// authorized it.
pub proof fn law_router_setting(engine: EngineView, env: EnvView, router: Address)
    ensures
        ({
            let outcome = engine.set_router(env, router);
            &&& outcome is Ok <==> engine.admin is Some && env.authorized(engine.admin->0)
            &&& engine.admin is None ==> outcome->Err_0 == PolicyError::NotInitialized
            &&& engine.admin is Some && !env.authorized(engine.admin->0) ==> outcome->Err_0
                == PolicyError::Unauthorized(engine.admin->0)
            &&& outcome matches Ok(after) ==> {
                &&& after.execution_router == Some(router)
                &&& after.delegation_manager == engine.delegation_manager
                &&& after.admin == engine.admin
                &&& same_books(engine, after)
            }
        }),
{
}

/// Everything but the setup is the same.
pub open spec fn same_books(before: EngineView, after: EngineView) -> bool {
    &&& after.counter == before.counter
    &&& after.policies == before.policies
    &&& after.assigned == before.assigned
    &&& after.active == before.active
    &&& after.spent == before.spent
    &&& after.events == before.events
}

/// A policy is found under its id as it is stored, and a list under its
/// delegation.
pub proof fn law_policy_lookup(engine: EngineView, id: u64, delegation_id: u64)
    ensures
        engine.policies.contains_key(id) ==> engine.find(id) == Some(engine.policies[id]),
        !engine.policies.contains_key(id) ==> engine.find(id) is None,
        engine.assigned.contains_key(delegation_id) ==> engine.list(delegation_id)
            == engine.assigned[delegation_id],
        !engine.assigned.contains_key(delegation_id) ==> engine.list(delegation_id).len() == 0,
        engine.latest() == (if engine.counter is Some {
            engine.counter->0
        } else {
            0
        }),
{
}

/// The policies of a delegation are given as they are stored, in the order of
/// their assignment, one for each entry of the list.
pub proof fn law_policies_of_a_delegation(engine: EngineView, delegation_id: u64, now: u64, i: int)
    requires
        engine.sound(now),
    ensures
        engine.policies_of(delegation_id).len() == engine.list(delegation_id).len(),
        0 <= i < engine.list(delegation_id).len() ==> engine.policies_of(delegation_id)[i]
            == engine.policies[engine.list(delegation_id)[i]],
{
    let list = engine.list(delegation_id);
    let known = |id: u64| engine.policies.contains_key(id);
    assert forall|k: int| 0 <= k < list.len() implies known(#[trigger] list[k]) by {
        assert(engine.policies.contains_key(engine.assigned[delegation_id][k]));
    }
    lemma_all_kept(list, known);
}

/// A filter that nothing fails keeps everything.
proof fn lemma_all_kept(list: Seq<u64>, keep: spec_fn(u64) -> bool)
    requires
        forall|k: int| 0 <= k < list.len() ==> keep(#[trigger] list[k]),
    ensures
        list.filter(keep) == list,
    decreases list.len(),
{
    reveal(Seq::filter);
    if list.len() > 0 {
        let rest = list.drop_last();
        assert forall|k: int| 0 <= k < rest.len() implies keep(#[trigger] rest[k]) by {
            assert(rest[k] == list[k]);
        }
        lemma_all_kept(rest, keep);
        assert(keep(list[list.len() - 1]));
        assert(rest.push(list.last()) =~= list);
    }
}

/// Creating a policy succeeds if and only if the owner has authorized it, its
/// end lies ahead, and there is an id left. The policy is then stored under the
/// next id with exactly the given terms, pending, of no delegation, in its first
/// version and dated, and that is published.
pub proof fn law_policy_creation(
    engine: EngineView,
    env: EnvView,
    owner: Address,
    delegate: Address,
    params: ParamsView,
)
    ensures
        ({
            let now = env.timestamp;
            let outcome = engine.create(env, owner, delegate, params);
            let latest = if engine.counter is Some {
                engine.counter->0
            } else {
                0
            };
            let signed = env.authorized(owner);
            let ahead = params.valid_until matches Some(until) ==> now < until;
            &&& outcome is Ok <==> signed && ahead && latest < u64::MAX
            &&& !signed ==> outcome->Err_0 == PolicyError::Unauthorized(owner)
            &&& signed && !ahead ==> outcome->Err_0 == PolicyError::ValidUntilNotInFuture
            &&& signed && ahead && latest == u64::MAX ==> outcome->Err_0 == PolicyError::Overflow
            &&& outcome matches Ok((after, id)) ==> {
                let policy = after.policies[id];
                &&& id == latest + 1
                &&& after.counter == Some(id)
                &&& after.policies == engine.policies.insert(id, policy)
                &&& policy.id == id
                &&& policy.delegation_id is None
                &&& policy.owner == owner
                &&& policy.delegate == delegate
                &&& policy.status == PolicyStatus::Pending
                &&& policy.params == params
                &&& policy.created_at == now
                &&& policy.updated_at == now
                &&& policy.version == 1
                &&& after.assigned == engine.assigned
                &&& after.active == engine.active
                &&& after.spent == engine.spent
                &&& same_setup(engine, after)
                &&& after.events == engine.events.push(
                    PolicyEvent::Changed {
                        change: PolicyChange::Created,
                        policy_id: id,
                        owner,
                        delegate,
                        timestamp: now,
                        version: 1,
                    },
                )
            }
        }),
{
}

/// One policy was replaced by a later version of it, and that was published; its
/// parties and its delegation, and all else but the choice of the policies that
/// count, are as before.
pub open spec fn one_changed(
    before: EngineView,
    after: EngineView,
    id: u64,
    now: u64,
    change: PolicyChange,
) -> bool {
    let old_policy = before.policies[id];
    let new_policy = after.policies[id];
    &&& before.policies.contains_key(id)
    &&& after.policies == before.policies.insert(id, new_policy)
    &&& new_policy.id == old_policy.id
    &&& new_policy.delegation_id == old_policy.delegation_id
    &&& new_policy.owner == old_policy.owner
    &&& new_policy.delegate == old_policy.delegate
    &&& new_policy.created_at == old_policy.created_at
    &&& new_policy.updated_at == now
    &&& new_policy.version == old_policy.version + 1
    &&& after.counter == before.counter
    &&& after.assigned == before.assigned
    &&& after.spent == before.spent
    &&& same_setup(before, after)
    &&& after.events == before.events.push(
        PolicyEvent::Changed {
            change,
            policy_id: id,
            owner: old_policy.owner,
            delegate: old_policy.delegate,
            timestamp: now,
            version: new_policy.version,
        },
    )
}

/// Accepting succeeds if and only if the policy is there and pending, its
/// delegate has authorized it, and its version can grow. The policy is then
/// active on the same terms, and counts for its delegation, if it has one.
pub proof fn law_policy_acceptance(engine: EngineView, env: EnvView, id: u64)
    ensures
        ({
            let outcome = engine.accept(env, id);
            let there = engine.policies.contains_key(id);
            let before = engine.policies[id];
            let signed = env.authorized(before.delegate);
            let pending = before.status == PolicyStatus::Pending;
            &&& outcome is Ok <==> there && signed && pending && before.version < u32::MAX
            &&& !there ==> outcome->Err_0 == PolicyError::PolicyNotFound
            &&& there && !signed ==> outcome->Err_0 == PolicyError::Unauthorized(before.delegate)
            &&& there && signed && !pending ==> outcome->Err_0 == PolicyError::NotPending
            &&& there && signed && pending && before.version == u32::MAX ==> outcome->Err_0
                == PolicyError::Overflow
            &&& outcome matches Ok(after) ==> {
                &&& one_changed(engine, after, id, env.timestamp, PolicyChange::Updated)
                &&& after.policies[id].status == PolicyStatus::Active
                &&& after.policies[id].params == before.params
                &&& after.active == (match before.delegation_id {
                    Some(delegation_id) => engine.active.insert(delegation_id, id),
                    None => engine.active,
                })
            }
        }),
{
}

/// Pausing succeeds if and only if the policy is there and active, its owner has
/// authorized it, and its version can grow; resuming, likewise, if it is paused.
/// The terms and which policies count are as before.
pub proof fn law_policy_pausing_and_resuming(engine: EngineView, env: EnvView, id: u64)
    ensures
        ({
            let outcome = engine.pause(env, id);
            let there = engine.policies.contains_key(id);
            let before = engine.policies[id];
            let signed = env.authorized(before.owner);
            let active = before.status == PolicyStatus::Active;
            &&& outcome is Ok <==> there && signed && active && before.version < u32::MAX
            &&& !there ==> outcome->Err_0 == PolicyError::PolicyNotFound
            &&& there && !signed ==> outcome->Err_0 == PolicyError::Unauthorized(before.owner)
            &&& there && signed && !active ==> outcome->Err_0 == PolicyError::NotActive
            &&& there && signed && active && before.version == u32::MAX ==> outcome->Err_0
                == PolicyError::Overflow
            &&& outcome matches Ok(after) ==> {
                &&& one_changed(engine, after, id, env.timestamp, PolicyChange::Paused)
                &&& after.policies[id].status == PolicyStatus::Paused
                &&& after.policies[id].params == before.params
                &&& after.active == engine.active
            }
        }),
        ({
            let outcome = engine.resume(env, id);
            let there = engine.policies.contains_key(id);
            let before = engine.policies[id];
            let signed = env.authorized(before.owner);
            let paused = before.status == PolicyStatus::Paused;
            &&& outcome is Ok <==> there && signed && paused && before.version < u32::MAX
            &&& !there ==> outcome->Err_0 == PolicyError::PolicyNotFound
            &&& there && !signed ==> outcome->Err_0 == PolicyError::Unauthorized(before.owner)
            &&& there && signed && !paused ==> outcome->Err_0 == PolicyError::NotPaused
            &&& there && signed && paused && before.version == u32::MAX ==> outcome->Err_0
                == PolicyError::Overflow
            &&& outcome matches Ok(after) ==> {
                &&& one_changed(engine, after, id, env.timestamp, PolicyChange::Resumed)
                &&& after.policies[id].status == PolicyStatus::Active
                &&& after.policies[id].params == before.params
                &&& after.active == engine.active
            }
        }),
{
}

/// The policy no longer counts for the delegation that it is assigned to; all
/// other choices are as before.
pub open spec fn struck_off(before: EngineView, after: EngineView, id: u64) -> bool {
    after.active == (match before.policies[id].delegation_id {
        Some(delegation_id) => if before.active.contains_key(delegation_id)
            && before.active[delegation_id] == id {
            before.active.remove(delegation_id)
        } else {
            before.active
        },
        None => before.active,
    })
}

/// Revoking succeeds if and only if the policy is there and not revoked yet, its
/// owner has authorized it, and its version can grow. The policy is then revoked,
/// on the same terms, and no longer counts for its delegation.
pub proof fn law_policy_revocation(engine: EngineView, env: EnvView, id: u64)
    ensures
        ({
            let outcome = engine.revoke(env, id);
            let there = engine.policies.contains_key(id);
            let before = engine.policies[id];
            let signed = env.authorized(before.owner);
            let revoked = before.status == PolicyStatus::Revoked;
            &&& outcome is Ok <==> there && signed && !revoked && before.version < u32::MAX
            &&& !there ==> outcome->Err_0 == PolicyError::PolicyNotFound
            &&& there && !signed ==> outcome->Err_0 == PolicyError::Unauthorized(before.owner)
            &&& there && signed && revoked ==> outcome->Err_0 == PolicyError::AlreadyRevoked
            &&& there && signed && !revoked && before.version == u32::MAX ==> outcome->Err_0
                == PolicyError::Overflow
            &&& outcome matches Ok(after) ==> {
                &&& one_changed(engine, after, id, env.timestamp, PolicyChange::Revoked)
                &&& after.policies[id].status == PolicyStatus::Revoked
                &&& after.policies[id].params == before.params
                &&& struck_off(engine, after, id)
            }
        }),
{
}

/// Updating succeeds if and only if the policy is there and not revoked, its
/// owner has authorized it, and its version can grow. The policy then has exactly
/// the given terms, and the status, the parties and the delegation that it had.
pub proof fn law_policy_update(engine: EngineView, env: EnvView, id: u64, params: ParamsView)
    ensures
        ({
            let outcome = engine.update(env, id, params);
            let there = engine.policies.contains_key(id);
            let before = engine.policies[id];
            let signed = env.authorized(before.owner);
            let revoked = before.status == PolicyStatus::Revoked;
            &&& outcome is Ok <==> there && signed && !revoked && before.version < u32::MAX
            &&& !there ==> outcome->Err_0 == PolicyError::PolicyNotFound
            &&& there && !signed ==> outcome->Err_0 == PolicyError::Unauthorized(before.owner)
            &&& there && signed && revoked ==> outcome->Err_0 == PolicyError::UpdateRevoked
            &&& there && signed && !revoked && before.version == u32::MAX ==> outcome->Err_0
                == PolicyError::Overflow
            &&& outcome matches Ok(after) ==> {
                &&& one_changed(engine, after, id, env.timestamp, PolicyChange::Updated)
                &&& after.policies[id].params == params
                &&& after.policies[id].status == before.status
                &&& after.active == engine.active
            }
        }),
{
}

/// The policy is pending, active or paused, and its last second has passed.
pub open spec fn overdue(engine: EngineView, id: u64, now: u64) -> bool {
    let policy = engine.policies[id];
    &&& engine.policies.contains_key(id)
    &&& policy.status == PolicyStatus::Pending || policy.status == PolicyStatus::Active
        || policy.status == PolicyStatus::Paused
    &&& policy.params.valid_until matches Some(until) && until < now
}

/// The policy given for a delegation is the one that counts, as it is stored,
/// unless it is marked as expired or is overdue. Asking marks an overdue policy
/// as expired and lets it count no longer; otherwise asking changes nothing.
pub proof fn law_policy_that_counts(engine: EngineView, delegation_id: u64, now: u64)
    ensures
        ({
            let id = engine.active[delegation_id];
            let counts = engine.active.contains_key(delegation_id);
            let outcome = engine.ask_active(now, delegation_id);
            &&& outcome is Err <==> counts && overdue(engine, id, now)
                && engine.policies[id].version == u32::MAX
            &&& outcome is Err ==> outcome->Err_0 == PolicyError::Overflow
            &&& outcome matches Ok((after, answer)) ==> {
                &&& answer is Some <==> {
                    &&& counts
                    &&& engine.policies.contains_key(id)
                    &&& engine.policies[id].status != PolicyStatus::Expired
                    &&& !overdue(engine, id, now)
                }
                &&& answer matches Some(given) ==> given == engine.policies[id]
                &&& counts && overdue(engine, id, now) ==> {
                    &&& one_changed(engine, after, id, now, PolicyChange::Expired)
                    &&& after.policies[id].status == PolicyStatus::Expired
                    &&& after.policies[id].params == engine.policies[id].params
                    &&& struck_off(engine, after, id)
                }
                &&& !(counts && overdue(engine, id, now)) ==> after == engine
            }
        }),
{
}

/// Assigning succeeds if and only if the policy is there and its owner has
/// authorized it, the engine is set up, the delegation is there, has the same
/// owner and is in force, and, for an active policy, no other active policy whose
/// last second has not passed counts for the delegation.
pub proof fn law_assignment(
    engine: EngineView,
    env: EnvView,
    id: u64,
    delegation_id: u64,
    owner: Option<Address>,
    in_force: Result<bool, DelegationError>,
)
    ensures
        ({
            let now = env.timestamp;
            let outcome = engine.assign(env, id, delegation_id, owner, in_force);
            let there = engine.policies.contains_key(id);
            let before = engine.policies[id];
            let signed = env.authorized(before.owner);
            let set = engine.delegation_manager is Some;
            let own = owner == Some(before.owner);
            let holder = engine.active[delegation_id];
            let barred = {
                &&& before.status == PolicyStatus::Active
                &&& engine.active.contains_key(delegation_id)
                &&& holder != id
                &&& engine.policies.contains_key(holder)
                &&& engine.policies[holder].status == PolicyStatus::Active
                &&& engine.policies[holder].params.valid_until matches Some(until) ==> now <= until
            };
            &&& outcome is Ok <==> there && signed && set && own && in_force == Ok::<
                bool,
                DelegationError,
            >(true) && !barred
            &&& !there ==> outcome->Err_0 == PolicyError::PolicyNotFound
            &&& there && !signed ==> outcome->Err_0 == PolicyError::Unauthorized(before.owner)
            &&& there && signed && !set ==> outcome->Err_0 == PolicyError::NotInitialized
            &&& there && signed && set && owner is None ==> outcome->Err_0
                == PolicyError::DelegationNotFound
            &&& there && signed && set && owner is Some && !own ==> outcome->Err_0
                == PolicyError::OwnerMismatch
            &&& there && signed && set && own ==> {
                &&& in_force matches Err(error) ==> outcome->Err_0 == PolicyError::Delegation(error)
                &&& in_force matches Ok(answer) ==> {
                    &&& !answer ==> outcome->Err_0 == PolicyError::InactiveDelegation
                    &&& answer && barred ==> outcome->Err_0 == PolicyError::AlreadyActivePolicy
                }
            }
            &&& outcome matches Ok(after) ==> attached(engine, after, now, id, delegation_id)
        }),
        engine.policies.contains_key(id) ==> attached(
            engine,
            engine.attach(env.timestamp, id, delegation_id),
            env.timestamp,
            id,
            delegation_id,
        ),
{
}

/// The policy was added to the end of the delegation's list, counts for it if it
/// is active, and that was published; but for its delegation it is as before.
pub open spec fn attached(
    before: EngineView,
    after: EngineView,
    now: u64,
    id: u64,
    delegation_id: u64,
) -> bool {
    let old_policy = before.policies[id];
    let new_policy = after.policies[id];
    let list = if before.assigned.contains_key(delegation_id) {
        before.assigned[delegation_id]
    } else {
        Seq::empty()
    };
    &&& after.policies == before.policies.insert(id, new_policy)
    &&& new_policy.delegation_id == Some(delegation_id)
    &&& same_but_for_delegation(old_policy, new_policy)
    &&& after.assigned == before.assigned.insert(delegation_id, list.push(id))
    &&& after.active == (if old_policy.status == PolicyStatus::Active {
        before.active.insert(delegation_id, id)
    } else {
        before.active
    })
    &&& after.events == before.events.push(
        PolicyEvent::Assigned {
            policy_id: id,
            delegation_id,
            timestamp: now,
            version: old_policy.version,
        },
    )
    &&& after.counter == before.counter
    &&& after.spent == before.spent
    &&& same_setup(before, after)
}

/// The two records differ at most in the delegation.
pub open spec fn same_but_for_delegation(a: PolicyView, b: PolicyView) -> bool {
    &&& a.id == b.id
    &&& a.owner == b.owner
    &&& a.delegate == b.delegate
    &&& a.status == b.status
    &&& a.params == b.params
    &&& a.created_at == b.created_at
    &&& a.updated_at == b.updated_at
    &&& a.version == b.version
}

/// Unassigning succeeds if and only if the policy is there and its owner has
/// authorized it. The policy is then no delegation's, is gone from the list of
/// the delegation that it was assigned to, and counts for that no longer; where
/// it was no delegation's before, nothing changes.
pub proof fn law_unassignment(engine: EngineView, env: EnvView, id: u64)
    ensures
        ({
            let outcome = engine.unassign(env, id);
            let there = engine.policies.contains_key(id);
            let before = engine.policies[id];
            let signed = env.authorized(before.owner);
            &&& outcome is Ok <==> there && signed
            &&& !there ==> outcome->Err_0 == PolicyError::PolicyNotFound
            &&& there && !signed ==> outcome->Err_0 == PolicyError::Unauthorized(before.owner)
            &&& outcome matches Ok(after) ==> {
                &&& before.delegation_id is None ==> after == engine
                &&& before.delegation_id matches Some(delegation_id) ==> {
                    &&& after.policies == engine.policies.insert(id, after.policies[id])
                    &&& after.policies[id].delegation_id is None
                    &&& same_but_for_delegation(before, after.policies[id])
                    &&& struck_off(engine, after, id)
                    &&& engine.assigned.contains_key(delegation_id) ==> after.assigned
                        == engine.assigned.insert(
                        delegation_id,
                        list_without(engine.assigned[delegation_id], id),
                    )
                    &&& !engine.assigned.contains_key(delegation_id) ==> after.assigned
                        == engine.assigned
                    &&& after.counter == engine.counter
                    &&& after.spent == engine.spent
                    &&& after.events == engine.events
                    &&& same_setup(engine, after)
                }
            }
        }),
{
}

/// A list without an id: every other entry is kept, in its place in the order,
/// and every entry with the id is dropped.
pub proof fn law_list_without(list: Seq<u64>, last: u64, id: u64)
    ensures
        list_without(Seq::empty(), id).len() == 0,
        last != id ==> list_without(list.push(last), id) == list_without(list, id).push(last),
        last == id ==> list_without(list.push(last), id) == list_without(list, id),
{
    reveal(Seq::filter);
    assert(list.push(last).drop_last() =~= list);
}

/// What a policy says of an action, given what was spent under it on the day. The
/// first of the following that applies decides: the policy is not active; the
/// time is before its first or after its last second; the asset is denied, or
/// there is a list of allowed ones and it is not on it; the same for the
/// protocol; the amount is over the limit of a transaction; with what was spent
/// it does not fit, or is over the limit of the day. Otherwise the action is
/// approved.
pub proof fn law_policy_judgement(policy: PolicyView, action: Action, spent: u128)
    ensures
        ({
            let params = policy.params;
            let verdict = policy.judge(action, spent);
            let active = policy.status == PolicyStatus::Active;
            let begun = active && params.valid_from <= action.timestamp;
            let valid = begun && (params.valid_until matches Some(until) ==> action.timestamp
                <= until);
            let asset_free = valid && !params.denied_assets.contains(action.asset);
            let asset_fine = asset_free && (params.allowed_assets.len() == 0
                || params.allowed_assets.contains(action.asset));
            let protocol_free = asset_fine && !params.denied_protocols.contains(action.protocol);
            let protocol_fine = protocol_free && (params.allowed_protocols.len() == 0
                || params.allowed_protocols.contains(action.protocol));
            let small = protocol_fine && action.amount <= params.max_notional_per_tx;
            let total = spent + action.amount;
            &&& !active ==> refuses(verdict, "policy not active"@)
            &&& active && !begun ==> refuses(verdict, "policy not yet valid"@)
            &&& begun && !valid ==> refuses(verdict, "policy expired"@)
            &&& valid && !asset_free ==> refuses(verdict, "asset denied"@)
            &&& asset_free && !asset_fine ==> refuses(verdict, "asset not allowed"@)
            &&& asset_fine && !protocol_free ==> refuses(verdict, "protocol denied"@)
            &&& protocol_free && !protocol_fine ==> refuses(verdict, "protocol not allowed"@)
            &&& protocol_fine && !small ==> refuses(verdict, "amount exceeds max_notional_per_tx"@)
            &&& small && total > u128::MAX ==> verdict is Err && verdict->Err_0
                == PolicyError::Overflow
            &&& small && total <= u128::MAX && total > params.max_notional_per_day ==> refuses(
                verdict,
                "amount exceeds daily limit"@,
            )
            &&& small && total <= params.max_notional_per_day ==> verdict matches Ok(
                Verdict::Approved,
            )
        }),
{
}

/// The action is rejected for the reason.
pub open spec fn refuses(verdict: Result<Verdict, PolicyError>, reason: Seq<char>) -> bool {
    verdict matches Ok(Verdict::Rejected(text)) && text == reason
}

/// What the engine says of an action: it is rejected where the engine is not set
/// up, the delegation is not there or not in force, or no policy counts for it;
/// otherwise the policy that counts decides, with what was spent under it on the
/// day of the action.
pub proof fn law_judgement(
    engine: EngineView,
    exists: bool,
    in_force: Result<bool, DelegationError>,
    action: Action,
)
    ensures
        ({
            let verdict = engine.judge(exists, in_force, action);
            let set = engine.delegation_manager is Some;
            let id = engine.active[action.delegation_id];
            let counts = engine.active.contains_key(action.delegation_id);
            &&& !set ==> refuses(verdict, "Delegation Manager not initialized"@)
            &&& set && !exists ==> refuses(verdict, "delegation does not exist"@)
            &&& set && exists ==> {
                &&& in_force matches Err(error) ==> verdict is Err && verdict->Err_0
                    == PolicyError::Delegation(error)
                &&& in_force matches Ok(answer) ==> {
                    &&& !answer ==> refuses(verdict, "delegation not active"@)
                    &&& answer && !counts ==> refuses(verdict, "no active policy assigned"@)
                    &&& answer && counts && !engine.policies.contains_key(id) ==> refuses(
                        verdict,
                        "policy not found"@,
                    )
                    &&& answer && counts && engine.policies.contains_key(id) ==> verdict
                        == engine.policies[id].judge(
                        action,
                        engine.spent_on(id, action.timestamp),
                    )
                }
            }
        }),
{
}

/// What the engine is told by a delegation manager: whether the delegation is
/// there, who its owner is, and whether it is active.
pub proof fn law_answers_of_a_manager(manager: DelegationManager, id: u64, now: u64)
    ensures
        manager.state() == manager@,
        DelegationManager::ask_exists(manager@, id).0 == manager@.read(id),
        DelegationManager::ask_exists(manager@, id).1 == manager@.delegations.contains_key(id),
        DelegationManager::ask_owner(manager@, id).0 == manager@.read(id),
        DelegationManager::ask_owner(manager@, id).1 is Some
            <==> manager@.delegations.contains_key(id),
        manager@.delegations.contains_key(id) ==> DelegationManager::ask_owner(manager@, id).1
            == Some(manager@.delegations[id].owner),
        DelegationManager::ask_active(manager@, now, id) == manager@.ask_in_force(now, id),
        ({
            let asked = manager@.ask_in_force(now, id);
            &&& asked matches Ok((_, answer)) ==> answer_of::<ManagerView>(asked) == Ok::<
                bool,
                DelegationError,
            >(answer)
            &&& asked matches Err(error) ==> answer_of::<ManagerView>(asked) == Err::<
                bool,
                DelegationError,
            >(error)
        }),
{
}

/// The content of a record is what the record holds, field by field.
pub proof fn law_policy_content(
    params: PolicyParams,
    policy: Policy,
    reason: String,
    engine: PolicyEngine,
)
    ensures
        params@.strategy_id == params.strategy_id,
        params@.valid_from == params.valid_from,
        params@.valid_until == params.valid_until,
        params@.max_notional_per_tx == params.max_notional_per_tx,
        params@.max_notional_per_day == params.max_notional_per_day,
        params@.allowed_assets == params.allowed_assets@,
        params@.denied_assets == params.denied_assets@,
        params@.allowed_protocols == params.allowed_protocols@,
        params@.denied_protocols == params.denied_protocols@,
        params@.metadata == params.metadata@,
        policy@.id == policy.id,
        policy@.delegation_id == policy.delegation_id,
        policy@.owner == policy.owner,
        policy@.delegate == policy.delegate,
        policy@.status == policy.status,
        policy@.params == policy.params@,
        policy@.created_at == policy.created_at,
        policy@.updated_at == policy.updated_at,
        policy@.version == policy.version,
        ValidationResult::Approved@ == Verdict::Approved,
        ValidationResult::Rejected(reason)@ == Verdict::Rejected(reason@),
        engine@.delegation_manager == engine.delegation_manager,
        engine@.admin == engine.admin,
        engine@.execution_router == engine.execution_router,
        engine@.counter == engine.counter,
        engine@.policies == engine.policies@,
        engine@.assigned == engine.assigned@,
        engine@.active == engine.active@,
        engine@.spent == engine.spent@,
        engine@.events == engine.events@,
        option_view(Some(policy)) == Some(policy@),
        option_view(None) is None,
{
}

/// The topic of every event.
pub proof fn law_policy_topics(
    policy_id: u64,
    owner: Address,
    delegate: Address,
    timestamp: u64,
    version: u32,
    delegation_id: u64,
    change: PolicyChange,
)
    ensures
        ({
            let topic = (PolicyEvent::Changed {
                change,
                policy_id,
                owner,
                delegate,
                timestamp,
                version,
            }).topic_text();
            &&& change == PolicyChange::Created ==> topic == "policy_created"@
            &&& change == PolicyChange::Updated ==> topic == "policy_updated"@
            &&& change == PolicyChange::Paused ==> topic == "policy_paused"@
            &&& change == PolicyChange::Resumed ==> topic == "policy_resumed"@
            &&& change == PolicyChange::Revoked ==> topic == "policy_revoked"@
            &&& change == PolicyChange::Expired ==> topic == "policy_expired"@
        }),
        (PolicyEvent::Assigned { policy_id, delegation_id, timestamp, version }).topic_text()
            == "policy_assigned"@,
{
}

/// The message of every refusal.
pub proof fn law_policy_messages(address: Address, error: DelegationError)
    ensures
        PolicyError::Unauthorized(address).message_text() == "not authorized"@,
        PolicyError::AlreadyInitialized.message_text() == "already initialized"@,
        PolicyError::NotInitialized.message_text() == "not initialized"@,
        PolicyError::ValidUntilNotInFuture.message_text() == "valid_until must be in the future"@,
        PolicyError::PolicyNotFound.message_text() == "policy not found"@,
        PolicyError::NotPending.message_text() == "policy not pending"@,
        PolicyError::NotActive.message_text() == "policy not active"@,
        PolicyError::NotPaused.message_text() == "policy not paused"@,
        PolicyError::AlreadyRevoked.message_text() == "already revoked"@,
        PolicyError::UpdateRevoked.message_text() == "cannot update revoked policy"@,
        PolicyError::DelegationNotFound.message_text() == "delegation not found"@,
        PolicyError::OwnerMismatch.message_text() == "policy owner must match delegation owner"@,
        PolicyError::InactiveDelegation.message_text()
            == "cannot assign policy to an inactive delegation"@,
        PolicyError::AlreadyActivePolicy.message_text()
            == "delegation already has an active policy"@,
        PolicyError::RouterNotSet.message_text() == "Execution Router not set"@,
        PolicyError::NoActivePolicy.message_text() == "no active policy assigned"@,
        PolicyError::Overflow.message_text() == "attempt to add with overflow"@,
        PolicyError::Delegation(error).message_text() == error.message_text(),
{
}

} // verus!
