//! The policy engine as a state machine: its state, and what each request
//! makes of it.

use super::types::{
    ParamsView, PolicyChange, PolicyDay, PolicyError, PolicyEvent, PolicyStatus, PolicyView,
    Verdict,
};
use crate::delegation_manager::DelegationError;
use crate::ledger::{Address, EnvView};
use vstd::prelude::*;

verus! {

/// The state of the policy engine.
#[verifier::ext_equal]
pub struct EngineView {
    pub delegation_manager: Option<Address>,
    pub admin: Option<Address>,
    pub execution_router: Option<Address>,
    /// The id of the latest policy, once there is one.
    pub counter: Option<u64>,
    pub policies: Map<u64, PolicyView>,
    /// The policies assigned to a delegation.
    pub assigned: Map<u64, Seq<u64>>,
    /// The policy that counts for a delegation.
    pub active: Map<u64, u64>,
    /// What was spent under a policy on a day.
    pub spent: Map<PolicyDay, u128>,
    /// The events published so far.
    pub events: Seq<PolicyEvent>,
}

/// An action that a delegate wants to take under a delegation.
pub struct Action {
    pub delegation_id: u64,
    pub asset: Address,
    pub protocol: Address,
    pub amount: u128,
    pub timestamp: u64,
}

/// The day on which a time falls.
pub open spec fn day_of(timestamp: u64) -> u64 {
    timestamp / 86400
}

/// The list without `id`.
pub open spec fn list_without(list: Seq<u64>, id: u64) -> Seq<u64> {
    list.filter(|other: u64| other != id)
}

impl ParamsView {
    /// The time limit, where there is one, has been passed.
    pub open spec fn over(self, now: u64) -> bool {
        self.valid_until matches Some(until) && until < now
    }

    pub open spec fn denies_asset(self, asset: Address) -> bool {
        self.denied_assets.contains(asset)
    }

    pub open spec fn lacks_asset(self, asset: Address) -> bool {
        self.allowed_assets.len() > 0 && !self.allowed_assets.contains(asset)
    }

    pub open spec fn denies_protocol(self, protocol: Address) -> bool {
        self.denied_protocols.contains(protocol)
    }

    pub open spec fn lacks_protocol(self, protocol: Address) -> bool {
        self.allowed_protocols.len() > 0 && !self.allowed_protocols.contains(protocol)
    }
}

impl PolicyView {
    /// The policy after a change of status that is noted in its version.
    pub open spec fn changed(self, status: PolicyStatus, now: u64) -> PolicyView {
        PolicyView { status, version: (self.version + 1) as u32, updated_at: now, ..self }
    }

    pub open spec fn revised(self, params: ParamsView, now: u64) -> PolicyView {
        PolicyView { params, ..self.changed(self.status, now) }
    }

    /// The status has yet to become `Expired`.
    pub open spec fn lapses(self, now: u64) -> bool {
        &&& self.params.over(now)
        &&& self.status != PolicyStatus::Revoked
        &&& self.status != PolicyStatus::Expired
    }

    /// The rules that the policy sets, given what was spent under it on the
    /// day of the action.
    pub open spec fn judge(self, action: Action, spent: u128) -> Result<Verdict, PolicyError> {
        let params = self.params;
        if self.status != PolicyStatus::Active {
            Ok(Verdict::Rejected("policy not active"@))
        } else if action.timestamp < params.valid_from {
            Ok(Verdict::Rejected("policy not yet valid"@))
        } else if params.over(action.timestamp) {
            Ok(Verdict::Rejected("policy expired"@))
        } else if params.denies_asset(action.asset) {
            Ok(Verdict::Rejected("asset denied"@))
        } else if params.lacks_asset(action.asset) {
            Ok(Verdict::Rejected("asset not allowed"@))
        } else if params.denies_protocol(action.protocol) {
            Ok(Verdict::Rejected("protocol denied"@))
        } else if params.lacks_protocol(action.protocol) {
            Ok(Verdict::Rejected("protocol not allowed"@))
        } else if action.amount > params.max_notional_per_tx {
            Ok(Verdict::Rejected("amount exceeds max_notional_per_tx"@))
        } else if spent + action.amount > u128::MAX {
            Err(PolicyError::Overflow)
        } else if spent + action.amount > params.max_notional_per_day {
            Ok(Verdict::Rejected("amount exceeds daily limit"@))
        } else {
            Ok(Verdict::Approved)
        }
    }
}

impl EngineView {
    pub open spec fn empty() -> EngineView {
        EngineView {
            delegation_manager: None,
            admin: None,
            execution_router: None,
            counter: None,
            policies: Map::empty(),
            assigned: Map::empty(),
            active: Map::empty(),
            spent: Map::empty(),
            events: Seq::empty(),
        }
    }

    /// The id of the latest policy, 0 where there is none.
    pub open spec fn latest(self) -> u64 {
        match self.counter {
            Some(id) => id,
            None => 0,
        }
    }

    pub open spec fn find(self, id: u64) -> Option<PolicyView> {
        if self.policies.contains_key(id) {
            Some(self.policies[id])
        } else {
            None
        }
    }

    /// The policies assigned to a delegation.
    pub open spec fn list(self, delegation_id: u64) -> Seq<u64> {
        if self.assigned.contains_key(delegation_id) {
            self.assigned[delegation_id]
        } else {
            Seq::empty()
        }
    }

    /// What was spent under a policy on the day of `timestamp`.
    pub open spec fn spent_on(self, policy_id: u64, timestamp: u64) -> u128 {
        let day = PolicyDay { policy_id, day_id: day_of(timestamp) };
        if self.spent.contains_key(day) {
            self.spent[day]
        } else {
            0
        }
    }

    /// `policy` is stored under `id`, and `change` is published.
    pub open spec fn put(self, id: u64, policy: PolicyView, change: PolicyChange) -> EngineView {
        EngineView {
            policies: self.policies.insert(id, policy),
            events: self.events.push(
                PolicyEvent::Changed {
                    change,
                    policy_id: id,
                    owner: policy.owner,
                    delegate: policy.delegate,
                    timestamp: policy.updated_at,
                    version: policy.version,
                },
            ),
            ..self
        }
    }

    /// `policy_id` is the policy that counts for the delegation.
    pub open spec fn counts(self, delegation_id: u64, policy_id: u64) -> bool {
        self.active.contains_key(delegation_id) && self.active[delegation_id] == policy_id
    }

    pub open spec fn activate(self, delegation_id: u64, policy_id: u64) -> EngineView {
        EngineView { active: self.active.insert(delegation_id, policy_id), ..self }
    }

    /// `policy_id` no longer counts for the delegation that it was assigned to.
    pub open spec fn deactivate(self, delegation_id: Option<u64>, policy_id: u64) -> EngineView {
        match delegation_id {
            Some(id) if self.counts(id, policy_id) => EngineView {
                active: self.active.remove(id),
                ..self
            },
            _ => self,
        }
    }

    pub open spec fn initialize(self, delegation_manager: Address, admin: Address) -> Result<
        EngineView,
        PolicyError,
    > {
        if self.delegation_manager is Some {
            Err(PolicyError::AlreadyInitialized)
        } else {
            Ok(
                EngineView {
                    delegation_manager: Some(delegation_manager),
                    admin: Some(admin),
                    ..self
                },
            )
        }
    }

    pub open spec fn set_router(self, env: EnvView, router: Address) -> Result<
        EngineView,
        PolicyError,
    > {
        match self.admin {
            None => Err(PolicyError::NotInitialized),
            Some(admin) => if !env.authorized(admin) {
                Err(PolicyError::Unauthorized(admin))
            } else {
                Ok(EngineView { execution_router: Some(router), ..self })
            },
        }
    }

    pub open spec fn create(
        self,
        env: EnvView,
        owner: Address,
        delegate: Address,
        params: ParamsView,
    ) -> Result<(EngineView, u64), PolicyError> {
        let now = env.timestamp;
        if !env.authorized(owner) {
            Err(PolicyError::Unauthorized(owner))
        } else if params.valid_until matches Some(until) && until <= now {
            Err(PolicyError::ValidUntilNotInFuture)
        } else if self.latest() == u64::MAX {
            Err(PolicyError::Overflow)
        } else {
            let id = (self.latest() + 1) as u64;
            let policy = PolicyView {
                id,
                delegation_id: None,
                owner,
                delegate,
                status: PolicyStatus::Pending,
                params,
                created_at: now,
                updated_at: now,
                version: 1,
            };
            Ok(
                (
                    EngineView { counter: Some(id), ..self }.put(id, policy, PolicyChange::Created),
                    id,
                ),
            )
        }
    }

    pub open spec fn accept(self, env: EnvView, id: u64) -> Result<EngineView, PolicyError> {
        let policy = self.policies[id];
        if !self.policies.contains_key(id) {
            Err(PolicyError::PolicyNotFound)
        } else if !env.authorized(policy.delegate) {
            Err(PolicyError::Unauthorized(policy.delegate))
        } else if policy.status != PolicyStatus::Pending {
            Err(PolicyError::NotPending)
        } else if policy.version == u32::MAX {
            Err(PolicyError::Overflow)
        } else {
            let accepted = self.put(
                id,
                policy.changed(PolicyStatus::Active, env.timestamp),
                PolicyChange::Updated,
            );
            match policy.delegation_id {
                Some(delegation_id) => Ok(accepted.activate(delegation_id, id)),
                None => Ok(accepted),
            }
        }
    }

    pub open spec fn pause(self, env: EnvView, id: u64) -> Result<EngineView, PolicyError> {
        let policy = self.policies[id];
        if !self.policies.contains_key(id) {
            Err(PolicyError::PolicyNotFound)
        } else if !env.authorized(policy.owner) {
            Err(PolicyError::Unauthorized(policy.owner))
        } else if policy.status != PolicyStatus::Active {
            Err(PolicyError::NotActive)
        } else if policy.version == u32::MAX {
            Err(PolicyError::Overflow)
        } else {
            Ok(
                self.put(
                    id,
                    policy.changed(PolicyStatus::Paused, env.timestamp),
                    PolicyChange::Paused,
                ),
            )
        }
    }

    pub open spec fn resume(self, env: EnvView, id: u64) -> Result<EngineView, PolicyError> {
        let policy = self.policies[id];
        if !self.policies.contains_key(id) {
            Err(PolicyError::PolicyNotFound)
        } else if !env.authorized(policy.owner) {
            Err(PolicyError::Unauthorized(policy.owner))
        } else if policy.status != PolicyStatus::Paused {
            Err(PolicyError::NotPaused)
        } else if policy.version == u32::MAX {
            Err(PolicyError::Overflow)
        } else {
            Ok(
                self.put(
                    id,
                    policy.changed(PolicyStatus::Active, env.timestamp),
                    PolicyChange::Resumed,
                ),
            )
        }
    }

    pub open spec fn revoke(self, env: EnvView, id: u64) -> Result<EngineView, PolicyError> {
        let policy = self.policies[id];
        if !self.policies.contains_key(id) {
            Err(PolicyError::PolicyNotFound)
        } else if !env.authorized(policy.owner) {
            Err(PolicyError::Unauthorized(policy.owner))
        } else if policy.status == PolicyStatus::Revoked {
            Err(PolicyError::AlreadyRevoked)
        } else if policy.version == u32::MAX {
            Err(PolicyError::Overflow)
        } else {
            Ok(
                self.put(
                    id,
                    policy.changed(PolicyStatus::Revoked, env.timestamp),
                    PolicyChange::Revoked,
                ).deactivate(policy.delegation_id, id),
            )
        }
    }

    pub open spec fn update(self, env: EnvView, id: u64, params: ParamsView) -> Result<
        EngineView,
        PolicyError,
    > {
        let policy = self.policies[id];
        if !self.policies.contains_key(id) {
            Err(PolicyError::PolicyNotFound)
        } else if !env.authorized(policy.owner) {
            Err(PolicyError::Unauthorized(policy.owner))
        } else if policy.status == PolicyStatus::Revoked {
            Err(PolicyError::UpdateRevoked)
        } else if policy.version == u32::MAX {
            Err(PolicyError::Overflow)
        } else {
            Ok(self.put(id, policy.revised(params, env.timestamp), PolicyChange::Updated))
        }
    }

    /// The status of the policy is brought up to date.
    pub open spec fn refresh(self, id: u64, now: u64) -> Result<EngineView, PolicyError> {
        let policy = self.policies[id];
        if !self.policies.contains_key(id) || !policy.lapses(now) {
            Ok(self)
        } else if policy.version == u32::MAX {
            Err(PolicyError::Overflow)
        } else {
            Ok(
                self.put(
                    id,
                    policy.changed(PolicyStatus::Expired, now),
                    PolicyChange::Expired,
                ).deactivate(policy.delegation_id, id),
            )
        }
    }

    /// The policy that counts for the delegation is asked for.
    pub open spec fn ask_active(self, now: u64, delegation_id: u64) -> Result<
        (EngineView, Option<PolicyView>),
        PolicyError,
    > {
        let id = self.active[delegation_id];
        if !self.active.contains_key(delegation_id) {
            Ok((self, None))
        } else {
            match self.refresh(id, now) {
                Err(error) => Err(error),
                Ok(fresh) => match fresh.find(id) {
                    Some(policy) if policy.status == PolicyStatus::Expired => Ok((fresh, None)),
                    found => Ok((fresh, found)),
                },
            }
        }
    }

    /// Another policy than `id` counts for the delegation, is active, and its
    /// time is not over.
    pub open spec fn occupied(self, now: u64, delegation_id: u64, id: u64) -> bool {
        let holder = self.active[delegation_id];
        &&& self.active.contains_key(delegation_id)
        &&& holder != id
        &&& self.policies.contains_key(holder)
        &&& self.policies[holder].status == PolicyStatus::Active
        &&& !self.policies[holder].params.over(now)
    }

    /// The policy is assigned to a delegation of which the manager says who
    /// owns it and whether it is in force.
    pub open spec fn assign(
        self,
        env: EnvView,
        id: u64,
        delegation_id: u64,
        owner: Option<Address>,
        in_force: Result<bool, DelegationError>,
    ) -> Result<EngineView, PolicyError> {
        let now = env.timestamp;
        let policy = self.policies[id];
        if !self.policies.contains_key(id) {
            Err(PolicyError::PolicyNotFound)
        } else if !env.authorized(policy.owner) {
            Err(PolicyError::Unauthorized(policy.owner))
        } else if self.delegation_manager is None {
            Err(PolicyError::NotInitialized)
        } else if owner is None {
            Err(PolicyError::DelegationNotFound)
        } else if owner != Some(policy.owner) {
            Err(PolicyError::OwnerMismatch)
        } else {
            match in_force {
                Err(error) => Err(PolicyError::Delegation(error)),
                Ok(false) => Err(PolicyError::InactiveDelegation),
                Ok(true) => if policy.status == PolicyStatus::Active && self.occupied(
                    now,
                    delegation_id,
                    id,
                ) {
                    Err(PolicyError::AlreadyActivePolicy)
                } else {
                    Ok(self.attach(now, id, delegation_id))
                },
            }
        }
    }

    /// The policy becomes one of the delegation's, and the one that counts if
    /// it is active.
    pub open spec fn attach(self, now: u64, id: u64, delegation_id: u64) -> EngineView {
        let policy = PolicyView { delegation_id: Some(delegation_id), ..self.policies[id] };
        let attached = EngineView {
            policies: self.policies.insert(id, policy),
            assigned: self.assigned.insert(delegation_id, self.list(delegation_id).push(id)),
            events: self.events.push(
                PolicyEvent::Assigned {
                    policy_id: id,
                    delegation_id,
                    timestamp: now,
                    version: policy.version,
                },
            ),
            ..self
        };
        if policy.status == PolicyStatus::Active {
            attached.activate(delegation_id, id)
        } else {
            attached
        }
    }

    pub open spec fn unassign(self, env: EnvView, id: u64) -> Result<EngineView, PolicyError> {
        let policy = self.policies[id];
        if !self.policies.contains_key(id) {
            Err(PolicyError::PolicyNotFound)
        } else if !env.authorized(policy.owner) {
            Err(PolicyError::Unauthorized(policy.owner))
        } else {
            match policy.delegation_id {
                None => Ok(self),
                Some(delegation_id) => Ok(
                    EngineView {
                        policies: self.policies.insert(
                            id,
                            PolicyView { delegation_id: None, ..policy },
                        ),
                        assigned: if self.assigned.contains_key(delegation_id) {
                            self.assigned.insert(
                                delegation_id,
                                list_without(self.assigned[delegation_id], id),
                            )
                        } else {
                            self.assigned
                        },
                        ..self.deactivate(policy.delegation_id, id)
                    },
                ),
            }
        }
    }

    /// The policies of the delegation, in the order of their assignment.
    pub open spec fn policies_of(self, delegation_id: u64) -> Seq<PolicyView> {
        self.list(delegation_id).filter(|id: u64| self.policies.contains_key(id)).map_values(
            |id: u64| self.policies[id],
        )
    }

    /// What may still be spent under the delegation on the day of `timestamp`.
    pub open spec fn remaining(self, delegation_id: u64, timestamp: u64) -> u128 {
        let id = self.active[delegation_id];
        if !self.active.contains_key(delegation_id) || !self.policies.contains_key(id) {
            0
        } else {
            let limit = self.policies[id].params.max_notional_per_day;
            let spent = self.spent_on(id, timestamp);
            if spent >= limit {
                0
            } else {
                (limit - spent) as u128
            }
        }
    }

    /// Whether an action is allowed, given what the manager says of the
    /// delegation.
    pub open spec fn judge(
        self,
        exists: bool,
        in_force: Result<bool, DelegationError>,
        action: Action,
    ) -> Result<Verdict, PolicyError> {
        let id = self.active[action.delegation_id];
        if self.delegation_manager is None {
            Ok(Verdict::Rejected("Delegation Manager not initialized"@))
        } else if !exists {
            Ok(Verdict::Rejected("delegation does not exist"@))
        } else {
            match in_force {
                Err(error) => Err(PolicyError::Delegation(error)),
                Ok(false) => Ok(Verdict::Rejected("delegation not active"@)),
                Ok(true) => if !self.active.contains_key(action.delegation_id) {
                    Ok(Verdict::Rejected("no active policy assigned"@))
                } else if !self.policies.contains_key(id) {
                    Ok(Verdict::Rejected("policy not found"@))
                } else {
                    self.policies[id].judge(action, self.spent_on(id, action.timestamp))
                },
            }
        }
    }

    /// What was spent under the delegation is added to.
    pub open spec fn record(self, env: EnvView, delegation_id: u64, amount: u128, timestamp: u64) -> Result<
        EngineView,
        PolicyError,
    > {
        let id = self.active[delegation_id];
        match self.execution_router {
            None => Err(PolicyError::RouterNotSet),
            Some(router) => if !env.authorized(router) {
                Err(PolicyError::Unauthorized(router))
            } else if !self.active.contains_key(delegation_id) {
                Err(PolicyError::NoActivePolicy)
            } else if self.spent_on(id, timestamp) + amount > u128::MAX {
                Err(PolicyError::Overflow)
            } else {
                Ok(
                    EngineView {
                        spent: self.spent.insert(
                            PolicyDay { policy_id: id, day_id: day_of(timestamp) },
                            (self.spent_on(id, timestamp) + amount) as u128,
                        ),
                        ..self
                    },
                )
            },
        }
    }
}

} // verus!
