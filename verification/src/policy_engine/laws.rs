//! What holds of the policy engine over any series of requests.

use super::model::{day_of, list_without, Action, EngineView};
use super::types::{
    ParamsView, PolicyDay, PolicyError, PolicyEvent, PolicyStatus, PolicyView, Verdict,
};
use crate::delegation_manager::DelegationError;
use crate::ledger::{Address, EnvView};
use vstd::prelude::*;

verus! {

/// A request that can change the policy engine.
pub enum EngineRequest {
    Initialize { delegation_manager: Address, admin: Address },
    SetExecutionRouter(Address),
    Create { owner: Address, delegate: Address, params: ParamsView },
    Accept(u64),
    Pause(u64),
    Resume(u64),
    Revoke(u64),
    Update(u64, ParamsView),
    /// With what the manager says of the delegation.
    Assign {
        policy_id: u64,
        delegation_id: u64,
        delegation_owner: Option<Address>,
        in_force: Result<bool, DelegationError>,
    },
    Unassign(u64),
    GetActive(u64),
    Record { delegation_id: u64, amount: u128, timestamp: u64 },
}

/// The state that a request with an answer leaves.
pub open spec fn state_of<T>(outcome: Result<(EngineView, T), PolicyError>) -> Result<
    EngineView,
    PolicyError,
> {
    match outcome {
        Ok((state, _)) => Ok(state),
        Err(error) => Err(error),
    }
}

impl EngineView {
    /// The state after a request, or why it is refused.
    pub open spec fn after(self, env: EnvView, request: EngineRequest) -> Result<
        EngineView,
        PolicyError,
    > {
        match request {
            EngineRequest::Initialize { delegation_manager, admin } => self.initialize(
                delegation_manager,
                admin,
            ),
            EngineRequest::SetExecutionRouter(router) => self.set_router(env, router),
            EngineRequest::Create { owner, delegate, params } => state_of(
                self.create(env, owner, delegate, params),
            ),
            EngineRequest::Accept(id) => self.accept(env, id),
            EngineRequest::Pause(id) => self.pause(env, id),
            EngineRequest::Resume(id) => self.resume(env, id),
            EngineRequest::Revoke(id) => self.revoke(env, id),
            EngineRequest::Update(id, params) => self.update(env, id, params),
            EngineRequest::Assign { policy_id, delegation_id, delegation_owner, in_force } =>
                self.assign(env, policy_id, delegation_id, delegation_owner, in_force),
            EngineRequest::Unassign(id) => self.unassign(env, id),
            EngineRequest::GetActive(delegation_id) => state_of(
                self.ask_active(env.timestamp, delegation_id),
            ),
            EngineRequest::Record { delegation_id, amount, timestamp } => self.record(
                env,
                delegation_id,
                amount,
                timestamp,
            ),
        }
    }

    /// What holds of the engine at the time `now`, after any requests:
    /// policies are numbered from 1 to the counter without gaps; a policy is
    /// listed under the delegation that it is assigned to; a policy that counts
    /// for a delegation exists, was accepted and is listed under it; and only
    /// policies are assigned to delegations and spent under.
    pub open spec fn sound(self, now: u64) -> bool {
        &&& forall|id: u64| #[trigger]
            self.policies.contains_key(id) ==> {
                let policy = self.policies[id];
                &&& policy.id == id
                &&& 1 <= id <= self.latest()
                &&& policy.version >= 1
                &&& policy.created_at <= policy.updated_at <= now
                &&& policy.delegation_id matches Some(delegation_id) ==> self.list(
                    delegation_id,
                ).contains(id)
            }
        &&& forall|id: u64| 1 <= id <= self.latest() ==> #[trigger] self.policies.contains_key(id)
        &&& forall|delegation_id: u64| #[trigger]
            self.active.contains_key(delegation_id) ==> {
                let id = self.active[delegation_id];
                &&& self.policies.contains_key(id)
                &&& self.policies[id].status != PolicyStatus::Pending
                &&& self.list(delegation_id).contains(id)
            }
        &&& forall|delegation_id: u64, i: int|
            #![trigger self.assigned[delegation_id][i]]
            self.assigned.contains_key(delegation_id) && 0 <= i
                < self.assigned[delegation_id].len() ==> self.policies.contains_key(
                self.assigned[delegation_id][i],
            )
        &&& forall|day: PolicyDay| #[trigger]
            self.spent.contains_key(day) ==> self.policies.contains_key(day.policy_id)
    }
}

/// What a request can make of a policy.
pub open spec fn transition(before: PolicyView, after: PolicyView, env: EnvView) -> bool {
    let now = env.timestamp;
    ||| after == before
    ||| {
        &&& before.version < u32::MAX
        &&& before.lapses(now)
        &&& after == before.changed(PolicyStatus::Expired, now)
    }
    ||| {
        &&& before.version < u32::MAX
        &&& before.status == PolicyStatus::Pending
        &&& env.authorized(before.delegate)
        &&& after == before.changed(PolicyStatus::Active, now)
    }
    ||| {
        &&& before.version < u32::MAX
        &&& env.authorized(before.owner)
        &&& {
            ||| before.status == PolicyStatus::Active && after == before.changed(
                PolicyStatus::Paused,
                now,
            )
            ||| before.status == PolicyStatus::Paused && after == before.changed(
                PolicyStatus::Active,
                now,
            )
            ||| before.status != PolicyStatus::Revoked && after == before.changed(
                PolicyStatus::Revoked,
                now,
            )
            ||| before.status != PolicyStatus::Revoked && after == before.revised(
                after.params,
                now,
            )
        }
    }
    ||| env.authorized(before.owner) && after == (PolicyView {
        delegation_id: after.delegation_id,
        ..before
    })
}

/// An engine without policies is sound.
pub proof fn law_empty_is_sound(now: u64)
    ensures
        EngineView::empty().sound(now),
{
}

/// What is left of a list without `id` is what was in it and is not `id`; where
/// the list lacks `id`, all of it is left.
proof fn lemma_list_without(list: Seq<u64>, id: u64)
    ensures
        !list_without(list, id).contains(id),
        forall|i: int|
            0 <= i < list_without(list, id).len() ==> list.contains(
                #[trigger] list_without(list, id)[i],
            ),
        forall|other: u64|
            other != id && list.contains(other) ==> #[trigger] list_without(list, id).contains(
                other,
            ),
        !list.contains(id) ==> list_without(list, id) == list,
        list_without(list.push(id), id) == list_without(list, id),
    decreases list.len(),
{
    reveal(Seq::filter);
    assert(list.push(id).drop_last() =~= list);
    if list.len() > 0 {
        let rest = list.drop_last();
        lemma_list_without(rest, id);
        assert(list.last() == list[list.len() - 1]);
        assert forall|x: u64| rest.contains(x) implies list.contains(x) by {
            let i = rest.index_of(x);
            assert(list[i] == x);
        }
        assert(rest.push(list.last()) =~= list);
        let left = list_without(rest, id);
        if list.last() != id {
            assert(list_without(list, id) =~= left.push(list.last()));
            assert forall|i: int| 0 <= i < left.push(list.last()).len() implies left.push(
                list.last(),
            )[i] != id by {
                if i < left.len() {
                    assert(left.contains(left[i]));
                }
            }
            assert forall|other: u64| other != id && list.contains(
                other,
            ) implies #[trigger] list_without(list, id).contains(other) by {
                let i = list.index_of(other);
                if i < rest.len() {
                    assert(rest[i] == other);
                    assert(left.contains(other));
                    assert(left.push(list.last())[left.index_of(other)] == other);
                } else {
                    assert(left.push(list.last())[left.len() as int] == other);
                }
            }
        } else {
            assert(list.contains(id));
            assert forall|other: u64| other != id && list.contains(
                other,
            ) implies #[trigger] list_without(list, id).contains(other) by {
                assert(rest[list.index_of(other)] == other);
            }
        }
    }
}

/// A list that grows keeps what it has.
proof fn lemma_list_grows(list: Seq<u64>, id: u64)
    ensures
        list.push(id).contains(id),
        forall|other: u64|
            list.contains(other) ==> #[trigger] list.push(id).contains(other),
{
    assert(list.push(id)[list.len() as int] == id);
    assert forall|other: u64| list.contains(other) implies #[trigger] list.push(id).contains(
        other,
    ) by {
        assert(list.push(id)[list.index_of(other)] == other);
    }
}

/// The two engines have the same policies, assignments and choices.
spec fn same_policies(a: EngineView, b: EngineView) -> bool {
    &&& a.counter == b.counter
    &&& a.policies == b.policies
    &&& a.assigned == b.assigned
    &&& a.active == b.active
}

/// Bringing a policy up to date leaves the engine sound.
proof fn lemma_sound_refreshed(engine: EngineView, id: u64, now: u64)
    requires
        engine.sound(now),
        engine.refresh(id, now) is Ok,
    ensures
        engine.refresh(id, now)->Ok_0.sound(now),
{
}

/// Attaching a policy to a delegation leaves the engine sound.
proof fn lemma_sound_attached(engine: EngineView, now: u64, id: u64, delegation_id: u64)
    requires
        engine.sound(now),
        engine.policies.contains_key(id),
    ensures
        engine.attach(now, id, delegation_id).sound(now),
{
    let after = engine.attach(now, id, delegation_id);
    let list = engine.list(delegation_id);
    lemma_list_grows(list, id);
    assert(forall|d: u64|
        d != delegation_id ==> #[trigger] after.list(d) == engine.list(d));
    assert forall|d: u64, i: int|
        #![trigger after.assigned[d][i]]
        after.assigned.contains_key(d) && 0 <= i
            < after.assigned[d].len() implies after.policies.contains_key(after.assigned[d][i]) by {
        if d == delegation_id {
            if i < list.len() {
                assert(after.assigned[d][i] == engine.assigned[d][i]);
            }
        } else {
            assert(after.assigned[d][i] == engine.assigned[d][i]);
        }
    }
}

/// Unassigning a policy leaves the engine sound.
proof fn lemma_sound_unassigned(engine: EngineView, env: EnvView, id: u64)
    requires
        engine.sound(env.timestamp),
        engine.unassign(env, id) is Ok,
    ensures
        engine.unassign(env, id)->Ok_0.sound(env.timestamp),
{
    let after = engine.unassign(env, id)->Ok_0;
    if let Some(delegation_id) = engine.policies[id].delegation_id {
        let list = engine.assigned[delegation_id];
        lemma_list_without(list, id);
        assert(forall|d: u64|
            d != delegation_id ==> #[trigger] after.list(d) == engine.list(d));
        assert forall|d: u64, i: int|
            #![trigger after.assigned[d][i]]
            after.assigned.contains_key(d) && 0 <= i
                < after.assigned[d].len() implies after.policies.contains_key(
            after.assigned[d][i],
        ) by {
            if d == delegation_id {
                let k = list.index_of(list_without(list, id)[i]);
                assert(engine.assigned[d][k] == after.assigned[d][i]);
            } else {
                assert(after.assigned[d][i] == engine.assigned[d][i]);
            }
        }
    }
}

/// Creating a policy, or moving one on, leaves the engine sound.
proof fn lemma_sound_moved(engine: EngineView, env: EnvView, request: EngineRequest)
    requires
        engine.sound(env.timestamp),
        engine.after(env, request) is Ok,
        match request {
            EngineRequest::Create { .. } => true,
            EngineRequest::Accept(_) => true,
            EngineRequest::Pause(_) => true,
            EngineRequest::Resume(_) => true,
            EngineRequest::Revoke(_) => true,
            EngineRequest::Update(_, _) => true,
            _ => false,
        },
    ensures
        engine.after(env, request)->Ok_0.sound(env.timestamp),
{
    let after = engine.after(env, request)->Ok_0;
    assert(forall|d: u64| #[trigger] after.list(d) == engine.list(d));
    assert forall|d: u64, i: int|
        #![trigger after.assigned[d][i]]
        after.assigned.contains_key(d) && 0 <= i
            < after.assigned[d].len() implies after.policies.contains_key(after.assigned[d][i]) by {
        assert(after.assigned[d][i] == engine.assigned[d][i]);
    }
}

/// Only a record adds to what was spent.
proof fn lemma_spent_kept(engine: EngineView, env: EnvView, request: EngineRequest)
    requires
        engine.after(env, request) is Ok,
        !(request is Record),
    ensures
        engine.after(env, request)->Ok_0.spent == engine.spent,
{
}

/// Every request leaves a sound engine sound, provided that the clock does
/// not run backwards.
pub proof fn law_requests_keep_soundness(
    engine: EngineView,
    then: u64,
    env: EnvView,
    request: EngineRequest,
)
    requires
        engine.sound(then),
        then <= env.timestamp,
        engine.after(env, request) is Ok,
    ensures
        engine.after(env, request)->Ok_0.sound(env.timestamp),
{
    let now = env.timestamp;
    match request {
        EngineRequest::Create { .. } | EngineRequest::Accept(_) | EngineRequest::Pause(_)
        | EngineRequest::Resume(_) | EngineRequest::Revoke(_) | EngineRequest::Update(_, _) => {
            lemma_sound_moved(engine, env, request);
        },
        EngineRequest::Assign { policy_id, delegation_id, .. } => {
            lemma_sound_attached(engine, now, policy_id, delegation_id);
        },
        EngineRequest::Unassign(id) => {
            lemma_sound_unassigned(engine, env, id);
        },
        EngineRequest::GetActive(delegation_id) => {
            if engine.active.contains_key(delegation_id) {
                lemma_sound_refreshed(engine, engine.active[delegation_id], now);
            }
        },
        _ => {
            let after = engine.after(env, request)->Ok_0;
            assert(same_policies(after, engine));
        },
    }
}

/// The life of a policy: no request removes it, and each leaves it as it is or
/// takes it one step on. It expires when its time is over; its delegate
/// accepts it while it is pending; its owner pauses it while it is active,
/// resumes it while it is paused, revokes it and sets its terms until it is
/// revoked, and assigns it to a delegation or takes it away from one.
pub proof fn law_life_of_a_policy(
    engine: EngineView,
    then: u64,
    env: EnvView,
    request: EngineRequest,
    id: u64,
)
    requires
        engine.sound(then),
        engine.after(env, request) is Ok,
        engine.policies.contains_key(id),
    ensures
        engine.after(env, request)->Ok_0.policies.contains_key(id),
        transition(engine.policies[id], engine.after(env, request)->Ok_0.policies[id], env),
{
}

/// A policy appears only where its owner creates it, and is pending then, with
/// an id that no policy had before.
pub proof fn law_birth_of_a_policy(
    engine: EngineView,
    then: u64,
    env: EnvView,
    request: EngineRequest,
    id: u64,
)
    requires
        engine.sound(then),
        engine.after(env, request) is Ok,
        !engine.policies.contains_key(id),
        engine.after(env, request)->Ok_0.policies.contains_key(id),
    ensures
        id == engine.latest() + 1,
        ({
            let created = engine.after(env, request)->Ok_0.policies[id];
            &&& created.status == PolicyStatus::Pending
            &&& created.version == 1
            &&& created.delegation_id is None
            &&& env.authorized(created.owner)
            &&& request == EngineRequest::Create {
                owner: created.owner,
                delegate: created.delegate,
                params: created.params,
            }
        }),
{
}

/// A revoked policy stays revoked, on the same terms.
pub proof fn law_revocation_is_permanent(
    engine: EngineView,
    then: u64,
    env: EnvView,
    request: EngineRequest,
    id: u64,
)
    requires
        engine.sound(then),
        engine.after(env, request) is Ok,
        engine.policies.contains_key(id),
        engine.policies[id].status == PolicyStatus::Revoked,
    ensures
        engine.after(env, request)->Ok_0.policies[id] == (PolicyView {
            delegation_id: engine.after(env, request)->Ok_0.policies[id].delegation_id,
            ..engine.policies[id]
        }),
{
    law_life_of_a_policy(engine, then, env, request, id);
}

/// A policy changes only by expiring, by a request that its owner has
/// authorized, or by its delegate's accepting it.
pub proof fn law_changes_need_consent(
    engine: EngineView,
    then: u64,
    env: EnvView,
    request: EngineRequest,
    id: u64,
)
    requires
        engine.sound(then),
        engine.after(env, request) is Ok,
        engine.policies.contains_key(id),
        engine.after(env, request)->Ok_0.policies[id] != engine.policies[id],
    ensures
        ({
            let before = engine.policies[id];
            let after = engine.after(env, request)->Ok_0.policies[id];
            ||| {
                &&& before.lapses(env.timestamp)
                &&& after == before.changed(PolicyStatus::Expired, env.timestamp)
            }
            ||| env.authorized(before.owner)
            ||| {
                &&& env.authorized(before.delegate)
                &&& before.status == PolicyStatus::Pending
                &&& after == before.changed(PolicyStatus::Active, env.timestamp)
            }
        }),
{
    law_life_of_a_policy(engine, then, env, request, id);
}

/// The manager and the admin are set once. The router is set by the admin.
pub proof fn law_configuration_is_guarded(engine: EngineView, env: EnvView, request: EngineRequest)
    requires
        engine.after(env, request) is Ok,
    ensures
        ({
            let after = engine.after(env, request)->Ok_0;
            &&& engine.delegation_manager is Some ==> {
                &&& after.delegation_manager == engine.delegation_manager
                &&& after.admin == engine.admin
            }
            &&& after.execution_router != engine.execution_router ==> {
                &&& engine.admin matches Some(admin)
                &&& env.authorized(admin)
            }
        }),
{
    if !(request is Initialize) && !(request is SetExecutionRouter) {
        lemma_configuration_kept(engine, env, request);
    }
}

/// Only two requests set anything up.
proof fn lemma_configuration_kept(engine: EngineView, env: EnvView, request: EngineRequest)
    requires
        engine.after(env, request) is Ok,
        !(request is Initialize),
        !(request is SetExecutionRouter),
    ensures
        ({
            let after = engine.after(env, request)->Ok_0;
            &&& after.delegation_manager == engine.delegation_manager
            &&& after.admin == engine.admin
            &&& after.execution_router == engine.execution_router
        }),
{
}

/// What was spent never shrinks, and it grows only by the word of the router.
pub proof fn law_spending_is_guarded(
    engine: EngineView,
    env: EnvView,
    request: EngineRequest,
    policy_id: u64,
    timestamp: u64,
)
    requires
        engine.after(env, request) is Ok,
    ensures
        ({
            let before = engine.spent_on(policy_id, timestamp);
            let after = engine.after(env, request)->Ok_0.spent_on(policy_id, timestamp);
            &&& before <= after
            &&& before < after ==> {
                &&& engine.execution_router matches Some(router)
                &&& env.authorized(router)
            }
        }),
{
    if !(request is Record) {
        lemma_spent_kept(engine, env, request);
    }
}

/// An action is approved if and only if the delegation is there and in force,
/// an active policy counts for it, and the policy's times, lists and limits
/// allow the action.
pub proof fn law_approval_is_exact(
    engine: EngineView,
    exists: bool,
    in_force: Result<bool, DelegationError>,
    action: Action,
)
    ensures
        engine.judge(exists, in_force, action) == Ok::<Verdict, PolicyError>(Verdict::Approved)
            <==> {
            let id = engine.active[action.delegation_id];
            let policy = engine.policies[id];
            let params = policy.params;
            &&& engine.delegation_manager is Some
            &&& exists
            &&& in_force == Ok::<bool, DelegationError>(true)
            &&& engine.active.contains_key(action.delegation_id)
            &&& engine.policies.contains_key(id)
            &&& policy.status == PolicyStatus::Active
            &&& params.valid_from <= action.timestamp
            &&& params.valid_until matches Some(until) ==> action.timestamp <= until
            &&& !params.denied_assets.contains(action.asset)
            &&& params.allowed_assets.len() == 0 || params.allowed_assets.contains(action.asset)
            &&& !params.denied_protocols.contains(action.protocol)
            &&& params.allowed_protocols.len() == 0 || params.allowed_protocols.contains(
                action.protocol,
            )
            &&& action.amount <= params.max_notional_per_tx
            &&& engine.spent_on(id, action.timestamp) + action.amount <= params.max_notional_per_day
        },
{
}

/// An approved action is within what remains of the day's limit. Once it is
/// recorded, that much less remains, and the day's limit is kept.
pub proof fn law_approved_spending_keeps_the_limit(
    engine: EngineView,
    exists: bool,
    in_force: Result<bool, DelegationError>,
    action: Action,
    env: EnvView,
)
    requires
        engine.judge(exists, in_force, action) == Ok::<Verdict, PolicyError>(Verdict::Approved),
        engine.execution_router matches Some(router) && env.authorized(router),
    ensures
        action.amount <= engine.remaining(action.delegation_id, action.timestamp),
        engine.record(env, action.delegation_id, action.amount, action.timestamp) matches Ok(after)
            && {
            let id = engine.active[action.delegation_id];
            &&& after.remaining(action.delegation_id, action.timestamp) == engine.remaining(
                action.delegation_id,
                action.timestamp,
            ) - action.amount
            &&& after.spent_on(id, action.timestamp)
                <= engine.policies[id].params.max_notional_per_day
        },
{
}

/// What is recorded counts for the policy and the day only.
pub proof fn law_recording_touches_one_day(
    engine: EngineView,
    env: EnvView,
    delegation_id: u64,
    amount: u128,
    timestamp: u64,
    policy_id: u64,
    other: u64,
)
    requires
        engine.record(env, delegation_id, amount, timestamp) is Ok,
        policy_id != engine.active[delegation_id] || day_of(other) != day_of(timestamp),
    ensures
        engine.record(env, delegation_id, amount, timestamp)->Ok_0.spent_on(policy_id, other)
            == engine.spent_on(policy_id, other),
{
}

/// A policy that expired, or whose time is over and which is not revoked, is
/// never given as the one that counts; asking marks it as expired. Any other
/// is given, and asking changes nothing.
pub proof fn law_expired_is_never_given(engine: EngineView, now: u64, delegation_id: u64)
    requires
        engine.active.contains_key(delegation_id),
        engine.policies.contains_key(engine.active[delegation_id]),
        engine.ask_active(now, delegation_id) is Ok,
    ensures
        ({
            let id = engine.active[delegation_id];
            let policy = engine.policies[id];
            let (after, answer) = engine.ask_active(now, delegation_id)->Ok_0;
            &&& policy.lapses(now) || policy.status == PolicyStatus::Expired ==> {
                &&& answer is None
                &&& after.policies[id].status == PolicyStatus::Expired
            }
            &&& !policy.lapses(now) && policy.status != PolicyStatus::Expired ==> {
                &&& answer == Some(policy)
                &&& after == engine
            }
        }),
{
}

/// By assignment, a delegation gets no second active policy: an owner who
/// assigns an active policy to their own delegation in force is refused if and
/// only if another active policy, whose time is not over, counts for the
/// delegation. A policy that is paused, revoked, expired or over makes way, and
/// one that is not active yet is always assigned.
pub proof fn law_one_active_policy_per_delegation(
    engine: EngineView,
    env: EnvView,
    policy_id: u64,
    delegation_id: u64,
)
    requires
        engine.policies.contains_key(policy_id),
        env.authorized(engine.policies[policy_id].owner),
        engine.delegation_manager is Some,
    ensures
        ({
            let owner = Some(engine.policies[policy_id].owner);
            let outcome = engine.assign(env, policy_id, delegation_id, owner, Ok(true));
            if engine.policies[policy_id].status == PolicyStatus::Active && engine.occupied(
                env.timestamp,
                delegation_id,
                policy_id,
            ) {
                outcome == Err::<EngineView, PolicyError>(PolicyError::AlreadyActivePolicy)
            } else {
                outcome == Ok::<EngineView, PolicyError>(
                    engine.attach(env.timestamp, policy_id, delegation_id),
                )
            }
        }),
{
}

/// A pending policy that its delegate accepts is from then on the one that
/// counts for the delegation that it is assigned to, whichever counted before.
/// That one stays as it is, listed and perhaps active, but counts no longer.
pub proof fn law_acceptance_takes_over(
    engine: EngineView,
    env: EnvView,
    policy_id: u64,
    delegation_id: u64,
    other: u64,
)
    requires
        engine.accept(env, policy_id) is Ok,
        engine.policies[policy_id].delegation_id == Some(delegation_id),
        other != policy_id,
    ensures
        ({
            let after = engine.accept(env, policy_id)->Ok_0;
            &&& after.counts(delegation_id, policy_id)
            &&& !after.counts(delegation_id, other)
            &&& after.policies[policy_id].status == PolicyStatus::Active
            &&& after.find(other) == engine.find(other)
            &&& after.assigned == engine.assigned
        }),
{
}

/// A policy is assigned only to a delegation in force that has the same owner.
pub proof fn law_assignment_needs_own_delegation(
    engine: EngineView,
    env: EnvView,
    policy_id: u64,
    delegation_id: u64,
    owner: Option<Address>,
    in_force: Result<bool, DelegationError>,
)
    requires
        engine.assign(env, policy_id, delegation_id, owner, in_force) is Ok,
    ensures
        in_force == Ok::<bool, DelegationError>(true),
        owner == Some(engine.policies[policy_id].owner),
        env.authorized(engine.policies[policy_id].owner),
{
}

/// Once a policy is revoked, or taken away from its delegation, it no longer
/// counts for the delegation that it was assigned to.
pub proof fn law_withdrawn_policy_counts_no_longer(
    engine: EngineView,
    env: EnvView,
    policy_id: u64,
    delegation_id: u64,
)
    requires
        engine.policies[policy_id].delegation_id == Some(delegation_id),
    ensures
        engine.revoke(env, policy_id) matches Ok(after) ==> !after.counts(delegation_id, policy_id),
        engine.unassign(env, policy_id) matches Ok(after) ==> !after.counts(
            delegation_id,
            policy_id,
        ) && !after.list(delegation_id).contains(policy_id),
        engine.counts(delegation_id, policy_id) ==> {
            &&& engine.revoke(env, policy_id) matches Ok(after) ==> after.ask_active(
                env.timestamp,
                delegation_id,
            ) == Ok::<(EngineView, Option<PolicyView>), PolicyError>((after, None))
            &&& engine.unassign(env, policy_id) matches Ok(after) ==> after.ask_active(
                env.timestamp,
                delegation_id,
            ) == Ok::<(EngineView, Option<PolicyView>), PolicyError>((after, None))
        },
{
    lemma_list_without(engine.list(delegation_id), policy_id);
}

/// Resuming undoes pausing: the policy is as it was, but for the version and
/// the time of the change; all else is untouched.
pub proof fn law_resume_undoes_pause(engine: EngineView, pausing: EnvView, resuming: EnvView, id: u64)
    requires
        engine.pause(pausing, id) is Ok,
        engine.policies[id].version + 1 < u32::MAX,
        resuming.authorized(engine.policies[id].owner),
    ensures
        engine.pause(pausing, id)->Ok_0.resume(resuming, id) matches Ok(resumed) && resumed
            == (EngineView {
            policies: engine.policies.insert(
                id,
                PolicyView {
                    version: (engine.policies[id].version + 2) as u32,
                    updated_at: resuming.timestamp,
                    ..engine.policies[id]
                },
            ),
            events: resumed.events,
            ..engine
        }),
{
    let resumed = engine.pause(pausing, id)->Ok_0.resume(resuming, id)->Ok_0;
    assert(resumed.policies =~= engine.policies.insert(id, resumed.policies[id]));
}

/// Unassigning undoes assigning: a policy that was no delegation's, and was not
/// left in the delegation's list, is so again; all policies and lists are as
/// before, and so is which policy counts, except that one which made way for an
/// active policy does not count again: then none counts for the delegation.
pub proof fn law_unassign_undoes_assign(
    engine: EngineView,
    then: u64,
    env: EnvView,
    later: EnvView,
    policy_id: u64,
    delegation_id: u64,
    owner: Option<Address>,
    in_force: Result<bool, DelegationError>,
    other: u64,
)
    requires
        engine.sound(then),
        engine.assign(env, policy_id, delegation_id, owner, in_force) is Ok,
        engine.policies[policy_id].delegation_id is None,
        !engine.list(delegation_id).contains(policy_id),
        later.authorized(engine.policies[policy_id].owner),
    ensures
        engine.assign(env, policy_id, delegation_id, owner, in_force)->Ok_0.unassign(
            later,
            policy_id,
        ) matches Ok(undone) && {
            &&& undone.policies == engine.policies
            &&& undone.active == (if engine.policies[policy_id].status == PolicyStatus::Active {
                engine.active.remove(delegation_id)
            } else {
                engine.active
            })
            &&& undone.spent == engine.spent
            &&& undone.list(other) == engine.list(other)
        },
{
    let undone = engine.assign(env, policy_id, delegation_id, owner, in_force)->Ok_0.unassign(
        later,
        policy_id,
    )->Ok_0;
    lemma_list_without(engine.list(delegation_id), policy_id);
    assert(undone.policies =~= engine.policies);
}

/// A request about one policy leaves every other policy alone, and what was
/// spent; it leaves alone the list and the choice of every delegation to which
/// the policy is not assigned.
pub proof fn law_other_policies_are_untouched(
    engine: EngineView,
    env: EnvView,
    request: EngineRequest,
    policy_id: u64,
    other: u64,
    delegation_id: u64,
)
    requires
        match request {
            EngineRequest::Accept(id) | EngineRequest::Pause(id) | EngineRequest::Resume(id)
            | EngineRequest::Revoke(id) | EngineRequest::Update(id, _)
            | EngineRequest::Unassign(id) => id == policy_id,
            _ => false,
        },
        engine.after(env, request) is Ok,
        other != policy_id,
        engine.policies[policy_id].delegation_id != Some(delegation_id),
    ensures
        ({
            let after = engine.after(env, request)->Ok_0;
            &&& after.find(other) == engine.find(other)
            &&& after.spent == engine.spent
            &&& after.list(delegation_id) == engine.list(delegation_id)
            &&& after.active.contains_key(delegation_id) == engine.active.contains_key(
                delegation_id,
            )
            &&& engine.active.contains_key(delegation_id) ==> after.active[delegation_id]
                == engine.active[delegation_id]
        }),
{
}

/// What was published stays published, and every new version of a policy is
/// published with its parties, its version and its time.
pub proof fn law_changes_are_published(
    engine: EngineView,
    then: u64,
    env: EnvView,
    request: EngineRequest,
    id: u64,
)
    requires
        engine.sound(then),
        engine.after(env, request) is Ok,
    ensures
        ({
            let after = engine.after(env, request)->Ok_0;
            &&& engine.events.is_prefix_of(after.events)
            &&& after.policies.contains_key(id) && (engine.policies.contains_key(id)
                ==> after.policies[id].version != engine.policies[id].version) ==> exists|i: int|
                engine.events.len() <= i < after.events.len() && publishes(
                    #[trigger] after.events[i],
                    after.policies[id],
                    env.timestamp,
                )
        }),
{
    let after = engine.after(env, request)->Ok_0;
    let first = engine.events.len() as int;
    assert(engine.events =~= after.events.subrange(0, first));
    if after.policies.contains_key(id) && (engine.policies.contains_key(id)
        ==> after.policies[id].version != engine.policies[id].version) {
        assert(after.policies[id].id == id);
        assert(publishes(after.events[first], after.policies[id], env.timestamp));
    }
}

/// The event tells of the policy as it is at the time `now`.
pub open spec fn publishes(event: PolicyEvent, policy: PolicyView, now: u64) -> bool {
    match event {
        PolicyEvent::Changed { policy_id, owner, delegate, timestamp, version, .. } => {
            &&& policy_id == policy.id
            &&& owner == policy.owner
            &&& delegate == policy.delegate
            &&& version == policy.version
            &&& timestamp == policy.updated_at == now
        },
        PolicyEvent::Assigned { .. } => false,
    }
}

} // verus!
