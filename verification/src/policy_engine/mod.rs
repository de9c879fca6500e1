//! The policy engine: owners bound what delegates may do, and every action is
//! held against the policy that counts for its delegation.

pub mod delegation_manager_client;
pub mod laws;
mod model;
pub mod outcomes;
mod types;

pub use laws::{state_of, EngineRequest};
pub use model::{day_of, list_without, Action, EngineView};
pub use types::{
    ParamsView, Policy, PolicyChange, PolicyDay, PolicyError, PolicyEvent, PolicyParams,
    PolicyStatus, PolicyView, ValidationResult, Verdict,
};

use crate::delegation_manager::DelegationError;
use crate::ledger::{contains_address, Address, Env};
use crate::table::{Record, Table};
use delegation_manager_client::{answer_of, DelegationManagerInterface};
use vstd::prelude::*;

verus! {

/// The length of a day in seconds.
const SECONDS_PER_DAY: u64 = 86400;

/// The day on which a time falls.
pub fn day_id(timestamp: u64) -> (r: u64)
    ensures
        r == day_of(timestamp),
{
    timestamp / SECONDS_PER_DAY
}

/// The policy engine.
#[derive(Debug)]
pub struct PolicyEngine {
    pub delegation_manager: Option<Address>,
    pub admin: Option<Address>,
    pub execution_router: Option<Address>,
    /// The id of the latest policy, once there is one.
    pub counter: Option<u64>,
    pub policies: Table<u64, Policy>,
    /// The policies assigned to a delegation.
    pub assigned: Table<u64, Vec<u64>>,
    /// The policy that counts for a delegation.
    pub active: Table<u64, u64>,
    /// What was spent under a policy on a day.
    pub spent: Table<PolicyDay, u128>,
    /// The events published so far.
    pub events: Vec<PolicyEvent>,
}

impl View for PolicyEngine {
    type V = EngineView;

    open spec fn view(&self) -> EngineView {
        EngineView {
            delegation_manager: self.delegation_manager,
            admin: self.admin,
            execution_router: self.execution_router,
            counter: self.counter,
            policies: self.policies@,
            assigned: self.assigned@,
            active: self.active@,
            spent: self.spent@,
            events: self.events@,
        }
    }
}

impl Clone for PolicyEngine {
    fn clone(&self) -> (r: Self)
        ensures
            r@ == self@,
    {
        let events = self.events.clone();
        proof {
            assert(events@ =~= self.events@);
        }
        PolicyEngine {
            delegation_manager: self.delegation_manager,
            admin: self.admin,
            execution_router: self.execution_router,
            counter: self.counter,
            policies: self.policies.duplicate(),
            assigned: self.assigned.duplicate(),
            active: self.active.duplicate(),
            spent: self.spent.duplicate(),
            events,
        }
    }
}

/// The content of an answer.
pub open spec fn option_view(answer: Option<Policy>) -> Option<PolicyView> {
    match answer {
        Some(policy) => Some(policy@),
        None => None,
    }
}

/// A rejection for the given reason.
fn rejected(reason: &str) -> (r: ValidationResult)
    ensures
        r@ == Verdict::Rejected(reason@),
{
    ValidationResult::Rejected(reason.to_string())
}

impl Policy {
    /// Moves the policy to `status` and counts the change.
    fn advance(&mut self, status: PolicyStatus, now: u64)
        requires
            old(self)@.version < u32::MAX,
        ensures
            final(self)@ == old(self)@.changed(status, now),
    {
        self.status = status;
        self.version = self.version + 1;
        self.updated_at = now;
    }

    /// Whether the time limit has been passed.
    fn is_over(&self, now: u64) -> (r: bool)
        ensures
            r == self@.params.over(now),
    {
        match self.params.valid_until {
            Some(until) => now > until,
            None => false,
        }
    }

    /// Holds an action against the rules that the policy sets, given what was
    /// spent under it on the day of the action.
    pub fn check_rules(
        &self,
        asset: Address,
        protocol: Address,
        amount: u128,
        timestamp: u64,
        spent: u128,
        delegation_id: u64,
    ) -> (r: Result<ValidationResult, PolicyError>)
        ensures
            match self@.judge((Action { delegation_id, asset, protocol, amount, timestamp }), spent) {
                Ok(verdict) => r is Ok && r->Ok_0@ == verdict,
                Err(error) => r == Err::<ValidationResult, PolicyError>(error),
            },
    {
        if self.status != PolicyStatus::Active {
            return Ok(rejected("policy not active"));
        }
        if timestamp < self.params.valid_from {
            return Ok(rejected("policy not yet valid"));
        }
        if self.is_over(timestamp) {
            return Ok(rejected("policy expired"));
        }
        if contains_address(&self.params.denied_assets, &asset) {
            return Ok(rejected("asset denied"));
        }
        if self.params.allowed_assets.len() > 0 && !contains_address(
            &self.params.allowed_assets,
            &asset,
        ) {
            return Ok(rejected("asset not allowed"));
        }
        if contains_address(&self.params.denied_protocols, &protocol) {
            return Ok(rejected("protocol denied"));
        }
        if self.params.allowed_protocols.len() > 0 && !contains_address(
            &self.params.allowed_protocols,
            &protocol,
        ) {
            return Ok(rejected("protocol not allowed"));
        }
        if amount > self.params.max_notional_per_tx {
            return Ok(rejected("amount exceeds max_notional_per_tx"));
        }
        match spent.checked_add(amount) {
            None => Err(PolicyError::Overflow),
            Some(total) => if total > self.params.max_notional_per_day {
                Ok(rejected("amount exceeds daily limit"))
            } else {
                Ok(ValidationResult::Approved)
            },
        }
    }
}

impl PolicyEngine {
    /// An engine that is not initialized yet.
    pub fn new() -> (r: PolicyEngine)
        ensures
            r@ == EngineView::empty(),
    {
        PolicyEngine {
            delegation_manager: None,
            admin: None,
            execution_router: None,
            counter: None,
            policies: Table::new(),
            assigned: Table::new(),
            active: Table::new(),
            spent: Table::new(),
            events: Vec::new(),
        }
    }

    /// Stores `policy` under `id` and publishes `change`.
    fn store(&mut self, id: u64, policy: Policy, change: PolicyChange)
        ensures
            final(self)@ == old(self)@.put(id, policy@, change),
    {
        self.events.push(
            PolicyEvent::Changed {
                change,
                policy_id: id,
                owner: policy.owner,
                delegate: policy.delegate,
                timestamp: policy.updated_at,
                version: policy.version,
            },
        );
        self.policies.insert(id, policy);
    }

    /// Makes the policy count no longer for the delegation that it was
    /// assigned to.
    fn deactivate(&mut self, delegation_id: Option<u64>, policy_id: u64)
        ensures
            final(self)@ == old(self)@.deactivate(delegation_id, policy_id),
    {
        if let Some(del_id) = delegation_id {
            let counts = match self.active.get(&del_id) {
                Some(act_id) => *act_id == policy_id,
                None => false,
            };
            if counts {
                self.active.remove(&del_id);
            }
        }
    }

    /// What was spent under a policy on the day of `timestamp`.
    fn spent_on(&self, policy_id: u64, timestamp: u64) -> (r: u128)
        ensures
            r == self@.spent_on(policy_id, timestamp),
    {
        match self.spent.get(&PolicyDay { policy_id, day_id: day_id(timestamp) }) {
            Some(spent) => *spent,
            None => 0,
        }
    }

    /// A copy of the policy.
    fn load(&self, policy_id: u64) -> (r: Result<Policy, PolicyError>)
        ensures
            match r {
                Ok(policy) => self@.policies.contains_key(policy_id) && policy@
                    == self@.policies[policy_id],
                Err(error) => error == PolicyError::PolicyNotFound && !self@.policies.contains_key(
                    policy_id,
                ),
            },
    {
        match self.policies.get(&policy_id) {
            Some(policy) => Ok(policy.duplicate()),
            None => Err(PolicyError::PolicyNotFound),
        }
    }

    pub fn initialize(&mut self, delegation_manager: Address, admin: Address) -> (r: Result<
        (),
        PolicyError,
    >)
        ensures
            match old(self)@.initialize(delegation_manager, admin) {
                Ok(after) => r == Ok::<(), PolicyError>(()) && final(self)@ == after,
                Err(error) => r == Err::<(), PolicyError>(error) && final(self)@ == old(self)@,
            },
    {
        if self.delegation_manager.is_some() {
            return Err(PolicyError::AlreadyInitialized);
        }
        self.delegation_manager = Some(delegation_manager);
        self.admin = Some(admin);
        Ok(())
    }

    pub fn get_delegation_manager(&self) -> (r: Result<Address, PolicyError>)
        ensures
            r == match self@.delegation_manager {
                Some(address) => Ok(address),
                None => Err(PolicyError::NotInitialized),
            },
    {
        match self.delegation_manager {
            Some(address) => Ok(address),
            None => Err(PolicyError::NotInitialized),
        }
    }

    pub fn get_admin(&self) -> (r: Result<Address, PolicyError>)
        ensures
            r == match self@.admin {
                Some(address) => Ok(address),
                None => Err(PolicyError::NotInitialized),
            },
    {
        match self.admin {
            Some(address) => Ok(address),
            None => Err(PolicyError::NotInitialized),
        }
    }

    pub fn set_execution_router(&mut self, env: &Env, router: Address) -> (r: Result<
        (),
        PolicyError,
    >)
        ensures
            match old(self)@.set_router(env@, router) {
                Ok(after) => r == Ok::<(), PolicyError>(()) && final(self)@ == after,
                Err(error) => r == Err::<(), PolicyError>(error) && final(self)@ == old(self)@,
            },
    {
        let admin = self.get_admin()?;
        if !env.has_auth(&admin) {
            return Err(PolicyError::Unauthorized(admin));
        }
        self.execution_router = Some(router);
        Ok(())
    }

    pub fn get_execution_router(&self) -> (r: Option<Address>)
        ensures
            r == self@.execution_router,
    {
        self.execution_router
    }

    pub fn get_remaining_daily_limit(&self, delegation_id: u64, timestamp: u64) -> (r: u128)
        ensures
            r == self@.remaining(delegation_id, timestamp),
    {
        let active_id: u64 = match self.active.get(&delegation_id) {
            Some(id) => *id,
            None => return 0,
        };
        let limit: u128 = match self.policies.get(&active_id) {
            Some(policy) => policy.params.max_notional_per_day,
            None => return 0,
        };
        let spent = self.spent_on(active_id, timestamp);
        if spent >= limit {
            0
        } else {
            limit - spent
        }
    }

    pub fn create_policy(
        &mut self,
        env: &Env,
        owner: Address,
        delegate: Address,
        params: PolicyParams,
    ) -> (r: Result<u64, PolicyError>)
        ensures
            match old(self)@.create(env@, owner, delegate, params@) {
                Ok((after, id)) => r == Ok::<u64, PolicyError>(id) && final(self)@ == after,
                Err(error) => r == Err::<u64, PolicyError>(error) && final(self)@ == old(self)@,
            },
    {
        if !env.has_auth(&owner) {
            return Err(PolicyError::Unauthorized(owner));
        }
        let now = env.timestamp;
        if let Some(until) = params.valid_until {
            if until <= now {
                return Err(PolicyError::ValidUntilNotInFuture);
            }
        }
        let latest: u64 = match self.counter {
            Some(id) => id,
            None => 0,
        };
        if latest == u64::MAX {
            return Err(PolicyError::Overflow);
        }
        let id: u64 = latest + 1;
        self.counter = Some(id);
        let policy = Policy {
            id,
            delegation_id: None,
            owner,
            delegate,
            status: PolicyStatus::Pending,
            params,
            created_at: now,
            updated_at: now,
            version: 1,
        };
        self.store(id, policy, PolicyChange::Created);
        Ok(id)
    }

    pub fn accept_policy(&mut self, env: &Env, policy_id: u64) -> (r: Result<(), PolicyError>)
        ensures
            match old(self)@.accept(env@, policy_id) {
                Ok(after) => r == Ok::<(), PolicyError>(()) && final(self)@ == after,
                Err(error) => r == Err::<(), PolicyError>(error) && final(self)@ == old(self)@,
            },
    {
        let mut policy = self.load(policy_id)?;
        if !env.has_auth(&policy.delegate) {
            return Err(PolicyError::Unauthorized(policy.delegate));
        }
        if policy.status != PolicyStatus::Pending {
            return Err(PolicyError::NotPending);
        }
        if policy.version == u32::MAX {
            return Err(PolicyError::Overflow);
        }
        policy.advance(PolicyStatus::Active, env.timestamp);
        let delegation_id = policy.delegation_id;
        self.store(policy_id, policy, PolicyChange::Updated);
        // If assigned, we update the active policy mapping
        if let Some(del_id) = delegation_id {
            self.active.insert(del_id, policy_id);
        }
        Ok(())
    }

    pub fn pause_policy(&mut self, env: &Env, policy_id: u64) -> (r: Result<(), PolicyError>)
        ensures
            match old(self)@.pause(env@, policy_id) {
                Ok(after) => r == Ok::<(), PolicyError>(()) && final(self)@ == after,
                Err(error) => r == Err::<(), PolicyError>(error) && final(self)@ == old(self)@,
            },
    {
        let mut policy = self.load(policy_id)?;
        if !env.has_auth(&policy.owner) {
            return Err(PolicyError::Unauthorized(policy.owner));
        }
        if policy.status != PolicyStatus::Active {
            return Err(PolicyError::NotActive);
        }
        if policy.version == u32::MAX {
            return Err(PolicyError::Overflow);
        }
        policy.advance(PolicyStatus::Paused, env.timestamp);
        self.store(policy_id, policy, PolicyChange::Paused);
        Ok(())
    }

    pub fn resume_policy(&mut self, env: &Env, policy_id: u64) -> (r: Result<(), PolicyError>)
        ensures
            match old(self)@.resume(env@, policy_id) {
                Ok(after) => r == Ok::<(), PolicyError>(()) && final(self)@ == after,
                Err(error) => r == Err::<(), PolicyError>(error) && final(self)@ == old(self)@,
            },
    {
        let mut policy = self.load(policy_id)?;
        if !env.has_auth(&policy.owner) {
            return Err(PolicyError::Unauthorized(policy.owner));
        }
        if policy.status != PolicyStatus::Paused {
            return Err(PolicyError::NotPaused);
        }
        if policy.version == u32::MAX {
            return Err(PolicyError::Overflow);
        }
        policy.advance(PolicyStatus::Active, env.timestamp);
        self.store(policy_id, policy, PolicyChange::Resumed);
        Ok(())
    }

    pub fn revoke_policy(&mut self, env: &Env, policy_id: u64) -> (r: Result<(), PolicyError>)
        ensures
            match old(self)@.revoke(env@, policy_id) {
                Ok(after) => r == Ok::<(), PolicyError>(()) && final(self)@ == after,
                Err(error) => r == Err::<(), PolicyError>(error) && final(self)@ == old(self)@,
            },
    {
        let mut policy = self.load(policy_id)?;
        if !env.has_auth(&policy.owner) {
            return Err(PolicyError::Unauthorized(policy.owner));
        }
        if policy.status == PolicyStatus::Revoked {
            return Err(PolicyError::AlreadyRevoked);
        }
        if policy.version == u32::MAX {
            return Err(PolicyError::Overflow);
        }
        policy.advance(PolicyStatus::Revoked, env.timestamp);
        let delegation_id = policy.delegation_id;
        self.store(policy_id, policy, PolicyChange::Revoked);
        self.deactivate(delegation_id, policy_id);
        Ok(())
    }

    pub fn update_policy(&mut self, env: &Env, policy_id: u64, params: PolicyParams) -> (r: Result<
        (),
        PolicyError,
    >)
        ensures
            match old(self)@.update(env@, policy_id, params@) {
                Ok(after) => r == Ok::<(), PolicyError>(()) && final(self)@ == after,
                Err(error) => r == Err::<(), PolicyError>(error) && final(self)@ == old(self)@,
            },
    {
        let mut policy = self.load(policy_id)?;
        if !env.has_auth(&policy.owner) {
            return Err(PolicyError::Unauthorized(policy.owner));
        }
        if policy.status == PolicyStatus::Revoked {
            return Err(PolicyError::UpdateRevoked);
        }
        if policy.version == u32::MAX {
            return Err(PolicyError::Overflow);
        }
        let status = policy.status;
        policy.advance(status, env.timestamp);
        policy.params = params;
        self.store(policy_id, policy, PolicyChange::Updated);
        Ok(())
    }

    /// Gives the policy the status `Expired` if its time is over.
    fn ensure_not_expired(&mut self, now: u64, policy_id: u64) -> (r: Result<(), PolicyError>)
        ensures
            match old(self)@.refresh(policy_id, now) {
                Ok(after) => r == Ok::<(), PolicyError>(()) && final(self)@ == after,
                Err(error) => r == Err::<(), PolicyError>(error) && final(self)@ == old(self)@,
            },
    {
        let mut policy = match self.policies.get(&policy_id) {
            Some(found) => found.duplicate(),
            None => return Ok(()),
        };
        if policy.is_over(now) && policy.status != PolicyStatus::Revoked && policy.status
            != PolicyStatus::Expired {
            if policy.version == u32::MAX {
                return Err(PolicyError::Overflow);
            }
            policy.advance(PolicyStatus::Expired, now);
            let delegation_id = policy.delegation_id;
            self.store(policy_id, policy, PolicyChange::Expired);
            self.deactivate(delegation_id, policy_id);
        }
        Ok(())
    }

    /// Makes the policy one of the delegation's.
    fn attach(&mut self, now: u64, policy_id: u64, delegation_id: u64)
        requires
            old(self)@.policies.contains_key(policy_id),
        ensures
            final(self)@ == old(self)@.attach(now, policy_id, delegation_id),
    {
        let mut policy = match self.policies.get(&policy_id) {
            Some(found) => found.duplicate(),
            None => return,
        };
        policy.delegation_id = Some(delegation_id);
        let status = policy.status;
        let version: u32 = policy.version;
        self.policies.insert(policy_id, policy);
        // Add to the policies of the delegation
        let mut list: Vec<u64> = match self.assigned.get(&delegation_id) {
            Some(found) => found.duplicate(),
            None => Vec::new(),
        };
        list.push(policy_id);
        self.assigned.insert(delegation_id, list);
        // Set as active policy if policy is currently Active
        if status == PolicyStatus::Active {
            self.active.insert(delegation_id, policy_id);
        }
        self.events.push(
            PolicyEvent::Assigned { policy_id, delegation_id, timestamp: now, version },
        );
    }

    /// Assigns the policy to a delegation of which the manager says who owns
    /// it and whether it is in force.
    pub fn assign_policy(
        &mut self,
        env: &Env,
        policy_id: u64,
        delegation_id: u64,
        delegation_owner: Option<Address>,
        delegation_active: Result<bool, DelegationError>,
    ) -> (r: Result<(), PolicyError>)
        ensures
            match old(self)@.assign(
                env@,
                policy_id,
                delegation_id,
                delegation_owner,
                delegation_active,
            ) {
                Ok(after) => r == Ok::<(), PolicyError>(()) && final(self)@ == after,
                Err(error) => r == Err::<(), PolicyError>(error) && final(self)@ == old(self)@,
            },
    {
        let policy = self.load(policy_id)?;
        if !env.has_auth(&policy.owner) {
            return Err(PolicyError::Unauthorized(policy.owner));
        }
        self.get_delegation_manager()?;
        let del_owner = match delegation_owner {
            Some(owner) => owner,
            None => return Err(PolicyError::DelegationNotFound),
        };
        if del_owner != policy.owner {
            return Err(PolicyError::OwnerMismatch);
        }
        match delegation_active {
            Err(error) => return Err(PolicyError::Delegation(error)),
            Ok(active) => if !active {
                return Err(PolicyError::InactiveDelegation);
            },
        }
        let now = env.timestamp;
        if policy.status == PolicyStatus::Active && self.has_other_active_policy(
            now,
            delegation_id,
            policy_id,
        ) {
            return Err(PolicyError::AlreadyActivePolicy);
        }
        self.attach(now, policy_id, delegation_id);
        Ok(())
    }

    /// Whether another policy counts for the delegation, is active, and its
    /// time is not over.
    fn has_other_active_policy(&self, now: u64, delegation_id: u64, policy_id: u64) -> (r: bool)
        ensures
            r == self@.occupied(now, delegation_id, policy_id),
    {
        let holder: u64 = match self.active.get(&delegation_id) {
            Some(found) => *found,
            None => return false,
        };
        match self.policies.get(&holder) {
            Some(policy) => holder != policy_id && policy.status == PolicyStatus::Active
                && !policy.is_over(now),
            None => false,
        }
    }

    /// Assigns the policy to the delegation, of which `manager` is asked who
    /// owns it and whether it is in force.
    pub fn assign_policy_to_delegation<D: DelegationManagerInterface>(
        &mut self,
        env: &Env,
        manager: &mut D,
        policy_id: u64,
        delegation_id: u64,
    ) -> (r: Result<(), PolicyError>)
        ensures
            ({
                let (read, owner) = D::ask_owner(old(manager).state(), delegation_id);
                let asked = D::ask_active(read, env.timestamp, delegation_id);
                match old(self)@.assign(
                    env@,
                    policy_id,
                    delegation_id,
                    owner,
                    answer_of(asked),
                ) {
                    Ok(after) => {
                        &&& r == Ok::<(), PolicyError>(())
                        &&& final(self)@ == after
                        &&& final(manager).state() == asked->Ok_0.0
                    },
                    Err(error) => {
                        &&& r == Err::<(), PolicyError>(error)
                        &&& final(self)@ == old(self)@
                        &&& final(manager).state() == old(manager).state()
                    },
                }
            }),
    {
        // What is refused whatever the manager says is refused before it is asked
        match self.assign_policy(env, policy_id, delegation_id, None, Ok(false)) {
            Err(PolicyError::DelegationNotFound) => {},
            other => return other,
        }
        let manager_before = manager.duplicate();
        let owner = manager.get_owner(env, delegation_id);
        let active = manager.is_active_delegation(env, delegation_id);
        let result = self.assign_policy(env, policy_id, delegation_id, owner, active);
        if result.is_err() {
            *manager = manager_before;
        }
        result
    }

    pub fn get_policy(&self, policy_id: u64) -> (r: Option<Policy>)
        ensures
            option_view(r) == self@.find(policy_id),
    {
        match self.policies.get(&policy_id) {
            Some(policy) => Some(policy.duplicate()),
            None => None,
        }
    }

    pub fn get_active_policy(&mut self, env: &Env, delegation_id: u64) -> (r: Result<
        Option<Policy>,
        PolicyError,
    >)
        ensures
            match old(self)@.ask_active(env.timestamp, delegation_id) {
                Ok((after, answer)) => r is Ok && option_view(r->Ok_0) == answer && final(self)@
                    == after,
                Err(error) => r == Err::<Option<Policy>, PolicyError>(error) && final(self)@ == old(
                    self)@,
            },
    {
        let active_id: u64 = match self.active.get(&delegation_id) {
            Some(id) => *id,
            None => return Ok(None),
        };
        self.ensure_not_expired(env.timestamp, active_id)?;
        match self.get_policy(active_id) {
            Some(policy) => if policy.status == PolicyStatus::Expired {
                Ok(None)
            } else {
                Ok(Some(policy))
            },
            None => Ok(None),
        }
    }

    pub fn unassign_policy(&mut self, env: &Env, policy_id: u64) -> (r: Result<(), PolicyError>)
        ensures
            match old(self)@.unassign(env@, policy_id) {
                Ok(after) => r == Ok::<(), PolicyError>(()) && final(self)@ == after,
                Err(error) => r == Err::<(), PolicyError>(error) && final(self)@ == old(self)@,
            },
    {
        let mut policy = self.load(policy_id)?;
        if !env.has_auth(&policy.owner) {
            return Err(PolicyError::Unauthorized(policy.owner));
        }
        if let Some(del_id) = policy.delegation_id {
            // Remove from active policy mapping if active
            self.deactivate(Some(del_id), policy_id);
            // Remove from list
            let remaining: Option<Vec<u64>> = match self.assigned.get(&del_id) {
                Some(list) => Some(without(list, policy_id)),
                None => None,
            };
            if let Some(new_list) = remaining {
                self.assigned.insert(del_id, new_list);
            }
            policy.delegation_id = None;
            self.policies.insert(policy_id, policy);
        }
        Ok(())
    }

    pub fn get_policies_by_delegation(&self, delegation_id: u64) -> (r: Vec<Policy>)
        ensures
            r@.len() == self@.policies_of(delegation_id).len(),
            forall|i: int|
                0 <= i < r@.len() ==> (#[trigger] r@[i])@ == self@.policies_of(delegation_id)[i],
    {
        let mut result: Vec<Policy> = Vec::new();
        let list: Vec<u64> = match self.assigned.get(&delegation_id) {
            Some(found) => found.duplicate(),
            None => Vec::new(),
        };
        let ghost known = |id: u64| self@.policies.contains_key(id);
        let ghost content = |id: u64| self@.policies[id];
        let mut i: usize = 0;
        proof {
            assert(list@ =~= self@.list(delegation_id));
            reveal(Seq::filter);
        }
        while i < list.len()
            invariant
                i <= list.len(),
                known == (|id: u64| self@.policies.contains_key(id)),
                content == (|id: u64| self@.policies[id]),
                result@.len() == list@.take(i as int).filter(known).len(),
                forall|j: int|
                    0 <= j < result@.len() ==> (#[trigger] result@[j])@ == content(
                        list@.take(i as int).filter(known)[j],
                    ),
            decreases list.len() - i,
        {
            proof {
                reveal(Seq::filter);
                assert(list@.take(i + 1).drop_last() =~= list@.take(i as int));
            }
            if let Some(policy) = self.get_policy(list[i]) {
                result.push(policy);
            }
            i = i + 1;
        }
        proof {
            assert(list@.take(i as int) =~= list@);
        }
        result
    }

    /// Whether an action is allowed. `manager` is asked about the delegation.
    pub fn validate_action<D: DelegationManagerInterface>(
        &self,
        env: &Env,
        manager: &mut D,
        delegation_id: u64,
        asset: Address,
        protocol: Address,
        amount: u128,
        timestamp: u64,
    ) -> (r: Result<ValidationResult, PolicyError>)
        ensures
            ({
                let (read, exists) = D::ask_exists(old(manager).state(), delegation_id);
                let asked = D::ask_active(read, env.timestamp, delegation_id);
                match self@.judge(
                    exists,
                    answer_of(asked),
                    (Action { delegation_id, asset, protocol, amount, timestamp }),
                ) {
                    Ok(verdict) => {
                        &&& r is Ok && r->Ok_0@ == verdict
                        &&& final(manager).state() == (if self@.delegation_manager is None {
                            old(manager).state()
                        } else if !exists {
                            read
                        } else {
                            asked->Ok_0.0
                        })
                    },
                    Err(error) => {
                        &&& r == Err::<ValidationResult, PolicyError>(error)
                        &&& final(manager).state() == old(manager).state()
                    },
                }
            }),
    {
        if self.delegation_manager.is_none() {
            return Ok(rejected("Delegation Manager not initialized"));
        }
        let manager_before = manager.duplicate();
        if !manager.delegation_exists(env, delegation_id) {
            return Ok(rejected("delegation does not exist"));
        }
        let active = manager.is_active_delegation(env, delegation_id);
        let result = self.judge_action(
            true,
            active,
            delegation_id,
            asset,
            protocol,
            amount,
            timestamp,
        );
        if result.is_err() {
            *manager = manager_before;
        }
        result
    }

    /// Whether an action is allowed, given what the manager says of the
    /// delegation.
    pub fn judge_action(
        &self,
        delegation_exists: bool,
        delegation_active: Result<bool, DelegationError>,
        delegation_id: u64,
        asset: Address,
        protocol: Address,
        amount: u128,
        timestamp: u64,
    ) -> (r: Result<ValidationResult, PolicyError>)
        ensures
            match self@.judge(
                delegation_exists,
                delegation_active,
                (Action { delegation_id, asset, protocol, amount, timestamp }),
            ) {
                Ok(verdict) => r is Ok && r->Ok_0@ == verdict,
                Err(error) => r == Err::<ValidationResult, PolicyError>(error),
            },
    {
        if self.delegation_manager.is_none() {
            return Ok(rejected("Delegation Manager not initialized"));
        }
        if !delegation_exists {
            return Ok(rejected("delegation does not exist"));
        }
        match delegation_active {
            Err(error) => return Err(PolicyError::Delegation(error)),
            Ok(active) => if !active {
                return Ok(rejected("delegation not active"));
            },
        }
        let policy_id: u64 = match self.active.get(&delegation_id) {
            Some(id) => *id,
            None => return Ok(rejected("no active policy assigned")),
        };
        match self.policies.get(&policy_id) {
            Some(policy) => policy.check_rules(
                asset,
                protocol,
                amount,
                timestamp,
                self.spent_on(policy_id, timestamp),
                delegation_id,
            ),
            None => Ok(rejected("policy not found")),
        }
    }

    pub fn record_action(
        &mut self,
        env: &Env,
        delegation_id: u64,
        amount: u128,
        timestamp: u64,
    ) -> (r: Result<(), PolicyError>)
        ensures
            match old(self)@.record(env@, delegation_id, amount, timestamp) {
                Ok(after) => r == Ok::<(), PolicyError>(()) && final(self)@ == after,
                Err(error) => r == Err::<(), PolicyError>(error) && final(self)@ == old(self)@,
            },
    {
        let router = match self.execution_router {
            Some(address) => address,
            None => return Err(PolicyError::RouterNotSet),
        };
        if !env.has_auth(&router) {
            return Err(PolicyError::Unauthorized(router));
        }
        let active_id: u64 = match self.active.get(&delegation_id) {
            Some(id) => *id,
            None => return Err(PolicyError::NoActivePolicy),
        };
        match self.spent_on(active_id, timestamp).checked_add(amount) {
            Some(total) => {
                let day = PolicyDay { policy_id: active_id, day_id: day_id(timestamp) };
                self.spent.insert(day, total);
                Ok(())
            },
            None => Err(PolicyError::Overflow),
        }
    }
}

/// The list without `id`.
fn without(list: &Vec<u64>, id: u64) -> (r: Vec<u64>)
    ensures
        r@ == list_without(list@, id),
{
    let mut rest: Vec<u64> = Vec::new();
    let mut i: usize = 0;
    proof {
        reveal(Seq::filter);
    }
    while i < list.len()
        invariant
            i <= list.len(),
            rest@ == list_without(list@.take(i as int), id),
        decreases list.len() - i,
    {
        proof {
            reveal(Seq::filter);
            assert(list@.take(i + 1).drop_last() =~= list@.take(i as int));
        }
        if list[i] != id {
            rest.push(list[i]);
        }
        i = i + 1;
    }
    proof {
        assert(list@.take(i as int) =~= list@);
    }
    rest
}

} // verus!
