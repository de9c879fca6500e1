//! The records, events and errors of the policy engine.

use crate::delegation_manager::DelegationError;
use crate::ledger::Address;
use crate::table::{Record, TableKey};
use vstd::prelude::*;

verus! {

/// Where a policy stands in its life.
#[derive(Clone, Copy, Debug, PartialEq, Eq, Structural)]
pub enum PolicyStatus {
    Pending,
    Active,
    Paused,
    Revoked,
    Expired,
}

/// What a policy allows.
#[derive(Debug, PartialEq, Eq)]
pub struct PolicyParams {
    pub strategy_id: Option<u64>,
    pub valid_from: u64,
    pub valid_until: Option<u64>,
    pub max_notional_per_tx: u128,
    pub max_notional_per_day: u128,
    /// Where the list is not empty, only these assets are allowed.
    pub allowed_assets: Vec<Address>,
    pub denied_assets: Vec<Address>,
    /// Where the list is not empty, only these protocols are allowed.
    pub allowed_protocols: Vec<Address>,
    pub denied_protocols: Vec<Address>,
    pub metadata: String,
}

/// The content of [`PolicyParams`].
#[verifier::ext_equal]
pub struct ParamsView {
    pub strategy_id: Option<u64>,
    pub valid_from: u64,
    pub valid_until: Option<u64>,
    pub max_notional_per_tx: u128,
    pub max_notional_per_day: u128,
    pub allowed_assets: Seq<Address>,
    pub denied_assets: Seq<Address>,
    pub allowed_protocols: Seq<Address>,
    pub denied_protocols: Seq<Address>,
    pub metadata: Seq<char>,
}

/// Limits that an owner sets to what a delegate does.
#[derive(Debug, PartialEq, Eq)]
pub struct Policy {
    pub id: u64,
    pub delegation_id: Option<u64>,
    pub owner: Address,
    pub delegate: Address,
    pub status: PolicyStatus,
    pub params: PolicyParams,
    pub created_at: u64,
    pub updated_at: u64,
    pub version: u32,
}

/// The content of a [`Policy`].
#[verifier::ext_equal]
pub struct PolicyView {
    pub id: u64,
    pub delegation_id: Option<u64>,
    pub owner: Address,
    pub delegate: Address,
    pub status: PolicyStatus,
    pub params: ParamsView,
    pub created_at: u64,
    pub updated_at: u64,
    pub version: u32,
}

/// A policy on one day.
#[derive(Clone, Copy, Debug, PartialEq, Eq, Structural)]
pub struct PolicyDay {
    pub policy_id: u64,
    pub day_id: u64,
}

/// Whether an action is allowed, and if not, why.
#[derive(Debug, PartialEq, Eq)]
pub enum ValidationResult {
    Approved,
    Rejected(String),
}

/// The content of a [`ValidationResult`].
#[verifier::ext_equal]
pub enum Verdict {
    Approved,
    Rejected(Seq<char>),
}

/// What happened to a policy.
#[derive(Clone, Copy, Debug, PartialEq, Eq, Structural)]
pub enum PolicyChange {
    Created,
    Updated,
    Paused,
    Resumed,
    Revoked,
    Expired,
}

/// An event that the engine publishes.
#[derive(Clone, Copy, Debug, PartialEq, Eq, Structural)]
pub enum PolicyEvent {
    Changed {
        change: PolicyChange,
        policy_id: u64,
        owner: Address,
        delegate: Address,
        timestamp: u64,
        version: u32,
    },
    Assigned { policy_id: u64, delegation_id: u64, timestamp: u64, version: u32 },
}

/// Why the engine refuses a request.
#[derive(Clone, Copy, Debug, PartialEq, Eq, Structural)]
pub enum PolicyError {
    /// The address has not authorized the request.
    Unauthorized(Address),
    AlreadyInitialized,
    NotInitialized,
    ValidUntilNotInFuture,
    PolicyNotFound,
    NotPending,
    NotActive,
    NotPaused,
    AlreadyRevoked,
    UpdateRevoked,
    DelegationNotFound,
    OwnerMismatch,
    InactiveDelegation,
    AlreadyActivePolicy,
    RouterNotSet,
    NoActivePolicy,
    Overflow,
    /// The delegation manager refuses to answer.
    Delegation(DelegationError),
}

impl PolicyEvent {
    /// The topic under which the event is published.
    pub open spec fn topic_text(self) -> Seq<char> {
        match self {
            PolicyEvent::Changed { change, .. } => match change {
                PolicyChange::Created => "policy_created"@,
                PolicyChange::Updated => "policy_updated"@,
                PolicyChange::Paused => "policy_paused"@,
                PolicyChange::Resumed => "policy_resumed"@,
                PolicyChange::Revoked => "policy_revoked"@,
                PolicyChange::Expired => "policy_expired"@,
            },
            PolicyEvent::Assigned { .. } => "policy_assigned"@,
        }
    }

    /// The topic under which the event is published.
    pub fn topic(&self) -> (r: &'static str)
        ensures
            r@ == self.topic_text(),
    {
        match self {
            PolicyEvent::Changed { change, .. } => match change {
                PolicyChange::Created => "policy_created",
                PolicyChange::Updated => "policy_updated",
                PolicyChange::Paused => "policy_paused",
                PolicyChange::Resumed => "policy_resumed",
                PolicyChange::Revoked => "policy_revoked",
                PolicyChange::Expired => "policy_expired",
            },
            PolicyEvent::Assigned { .. } => "policy_assigned",
        }
    }
}

impl PolicyError {
    /// The message with which the request is refused.
    pub open spec fn message_text(self) -> Seq<char> {
        match self {
            PolicyError::Unauthorized(_) => "not authorized"@,
            PolicyError::AlreadyInitialized => "already initialized"@,
            PolicyError::NotInitialized => "not initialized"@,
            PolicyError::ValidUntilNotInFuture => "valid_until must be in the future"@,
            PolicyError::PolicyNotFound => "policy not found"@,
            PolicyError::NotPending => "policy not pending"@,
            PolicyError::NotActive => "policy not active"@,
            PolicyError::NotPaused => "policy not paused"@,
            PolicyError::AlreadyRevoked => "already revoked"@,
            PolicyError::UpdateRevoked => "cannot update revoked policy"@,
            PolicyError::DelegationNotFound => "delegation not found"@,
            PolicyError::OwnerMismatch => "policy owner must match delegation owner"@,
            PolicyError::InactiveDelegation => "cannot assign policy to an inactive delegation"@,
            PolicyError::AlreadyActivePolicy => "delegation already has an active policy"@,
            PolicyError::RouterNotSet => "Execution Router not set"@,
            PolicyError::NoActivePolicy => "no active policy assigned"@,
            PolicyError::Overflow => "attempt to add with overflow"@,
            PolicyError::Delegation(error) => error.message_text(),
        }
    }

    /// The message with which the request is refused.
    pub fn message(&self) -> (r: &'static str)
        ensures
            r@ == self.message_text(),
    {
        match self {
            PolicyError::Unauthorized(_) => "not authorized",
            PolicyError::AlreadyInitialized => "already initialized",
            PolicyError::NotInitialized => "not initialized",
            PolicyError::ValidUntilNotInFuture => "valid_until must be in the future",
            PolicyError::PolicyNotFound => "policy not found",
            PolicyError::NotPending => "policy not pending",
            PolicyError::NotActive => "policy not active",
            PolicyError::NotPaused => "policy not paused",
            PolicyError::AlreadyRevoked => "already revoked",
            PolicyError::UpdateRevoked => "cannot update revoked policy",
            PolicyError::DelegationNotFound => "delegation not found",
            PolicyError::OwnerMismatch => "policy owner must match delegation owner",
            PolicyError::InactiveDelegation => "cannot assign policy to an inactive delegation",
            PolicyError::AlreadyActivePolicy => "delegation already has an active policy",
            PolicyError::RouterNotSet => "Execution Router not set",
            PolicyError::NoActivePolicy => "no active policy assigned",
            PolicyError::Overflow => "attempt to add with overflow",
            PolicyError::Delegation(error) => error.message(),
        }
    }
}

impl View for PolicyParams {
    type V = ParamsView;

    open spec fn view(&self) -> ParamsView {
        ParamsView {
            strategy_id: self.strategy_id,
            valid_from: self.valid_from,
            valid_until: self.valid_until,
            max_notional_per_tx: self.max_notional_per_tx,
            max_notional_per_day: self.max_notional_per_day,
            allowed_assets: self.allowed_assets@,
            denied_assets: self.denied_assets@,
            allowed_protocols: self.allowed_protocols@,
            denied_protocols: self.denied_protocols@,
            metadata: self.metadata@,
        }
    }
}

impl View for Policy {
    type V = PolicyView;

    open spec fn view(&self) -> PolicyView {
        PolicyView {
            id: self.id,
            delegation_id: self.delegation_id,
            owner: self.owner,
            delegate: self.delegate,
            status: self.status,
            params: self.params@,
            created_at: self.created_at,
            updated_at: self.updated_at,
            version: self.version,
        }
    }
}

impl View for ValidationResult {
    type V = Verdict;

    open spec fn view(&self) -> Verdict {
        match self {
            ValidationResult::Approved => Verdict::Approved,
            ValidationResult::Rejected(reason) => Verdict::Rejected(reason@),
        }
    }
}

impl TableKey for PolicyDay {
    fn same(&self, other: &Self) -> (r: bool) {
        *self == *other
    }
}

/// A copy of a list of addresses.
fn copy_addresses(list: &Vec<Address>) -> (copy: Vec<Address>)
    ensures
        copy@ == list@,
{
    let copy = list.clone();
    proof {
        assert(copy@ =~= list@);
    }
    copy
}

impl Record for PolicyParams {
    fn duplicate(&self) -> (copy: Self) {
        PolicyParams {
            strategy_id: self.strategy_id,
            valid_from: self.valid_from,
            valid_until: self.valid_until,
            max_notional_per_tx: self.max_notional_per_tx,
            max_notional_per_day: self.max_notional_per_day,
            allowed_assets: copy_addresses(&self.allowed_assets),
            denied_assets: copy_addresses(&self.denied_assets),
            allowed_protocols: copy_addresses(&self.allowed_protocols),
            denied_protocols: copy_addresses(&self.denied_protocols),
            metadata: self.metadata.clone(),
        }
    }
}

impl Record for Policy {
    fn duplicate(&self) -> (copy: Self) {
        Policy {
            id: self.id,
            delegation_id: self.delegation_id,
            owner: self.owner,
            delegate: self.delegate,
            status: self.status,
            params: self.params.duplicate(),
            created_at: self.created_at,
            updated_at: self.updated_at,
            version: self.version,
        }
    }
}

impl Clone for ValidationResult {
    fn clone(&self) -> (r: Self)
        ensures
            r@ == self@,
    {
        match self {
            ValidationResult::Approved => ValidationResult::Approved,
            ValidationResult::Rejected(reason) => ValidationResult::Rejected(reason.clone()),
        }
    }
}

impl Clone for PolicyParams {
    fn clone(&self) -> (r: Self)
        ensures
            r@ == self@,
    {
        self.duplicate()
    }
}

impl Clone for Policy {
    fn clone(&self) -> (r: Self)
        ensures
            r@ == self@,
    {
        self.duplicate()
    }
}

} // verus!
