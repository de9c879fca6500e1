//! The records, events and errors of the execution router.

use crate::delegation_manager::DelegationError;
use crate::ledger::{Address, Bytes32};
use crate::policy_engine::PolicyError;
use crate::table::Record;
use vstd::prelude::*;

verus! {

/// What a delegate wants to have executed.
#[derive(Debug, PartialEq, Eq)]
pub struct ExecutionIntent {
    pub intent_hash: Bytes32,
    pub delegation_id: u64,
    pub policy_id: u64,
    pub delegate: Address,
    pub asset: Address,
    pub protocol: Address,
    pub action_type: String,
    pub amount: u128,
    pub target: Address,
    pub payload_hash: Bytes32,
    pub nonce: u64,
    pub timestamp: u64,
    pub expiry: u64,
}

/// The content of an [`ExecutionIntent`].
#[verifier::ext_equal]
pub struct IntentView {
    pub intent_hash: Bytes32,
    pub delegation_id: u64,
    pub policy_id: u64,
    pub delegate: Address,
    pub asset: Address,
    pub protocol: Address,
    pub action_type: Seq<char>,
    pub amount: u128,
    pub target: Address,
    pub payload_hash: Bytes32,
    pub nonce: u64,
    pub timestamp: u64,
    pub expiry: u64,
}

/// What became of an intent.
#[derive(Clone, Copy, Debug, PartialEq, Eq, Structural)]
pub enum ExecutionStatus {
    Pending,
    Approved,
    Executed,
    Rejected,
    Expired,
}

/// The record of an intent that was executed or rejected.
#[derive(Debug, PartialEq, Eq)]
pub struct Execution {
    pub execution_id: u64,
    pub intent_hash: Bytes32,
    pub delegation_id: u64,
    pub policy_id: u64,
    pub delegate: Address,
    pub asset: Address,
    pub protocol: Address,
    pub action_type: String,
    pub amount: u128,
    pub target: Address,
    pub timestamp: u64,
    pub status: ExecutionStatus,
    pub rejection_reason: Option<String>,
}

/// The content of an [`Execution`].
#[verifier::ext_equal]
pub struct ExecutionView {
    pub execution_id: u64,
    pub intent_hash: Bytes32,
    pub delegation_id: u64,
    pub policy_id: u64,
    pub delegate: Address,
    pub asset: Address,
    pub protocol: Address,
    pub action_type: Seq<char>,
    pub amount: u128,
    pub target: Address,
    pub timestamp: u64,
    pub status: ExecutionStatus,
    pub rejection_reason: Option<Seq<char>>,
}

/// How far an intent came.
#[derive(Clone, Copy, Debug, PartialEq, Eq, Structural)]
pub enum ExecutionStage {
    Requested,
    Validated,
    Approved,
    Executed,
    Rejected,
}

/// An event that the router publishes.
#[derive(Clone, Copy, Debug, PartialEq, Eq, Structural)]
pub struct ExecutionEvent {
    pub stage: ExecutionStage,
    pub execution_id: u64,
    pub intent_hash: Bytes32,
    pub delegation_id: u64,
    pub policy_id: u64,
    pub amount: u128,
    pub timestamp: u64,
}

/// Why the router refuses a request.
#[derive(Clone, Copy, Debug, PartialEq, Eq, Structural)]
pub enum RouterError {
    /// The address has not authorized the request.
    Unauthorized(Address),
    AlreadyInitialized,
    NotInitialized,
    /// The intent was executed or rejected before.
    IntentAlreadySeen,
    Overflow,
    /// The delegation manager refuses to answer.
    Delegation(DelegationError),
    /// The policy engine refuses to answer or to record.
    Policy(PolicyError),
}

impl ExecutionStage {
    /// The topic under which the stage is published.
    pub open spec fn topic_text(self) -> Seq<char> {
        match self {
            ExecutionStage::Requested => "execution_requested"@,
            ExecutionStage::Validated => "execution_validated"@,
            ExecutionStage::Approved => "execution_approved"@,
            ExecutionStage::Executed => "execution_executed"@,
            ExecutionStage::Rejected => "execution_rejected"@,
        }
    }

    /// The topic under which the stage is published.
    pub fn topic(&self) -> (r: &'static str)
        ensures
            r@ == self.topic_text(),
    {
        match self {
            ExecutionStage::Requested => "execution_requested",
            ExecutionStage::Validated => "execution_validated",
            ExecutionStage::Approved => "execution_approved",
            ExecutionStage::Executed => "execution_executed",
            ExecutionStage::Rejected => "execution_rejected",
        }
    }
}

impl RouterError {
    /// The message with which the request is refused.
    pub open spec fn message_text(self) -> Seq<char> {
        match self {
            RouterError::Unauthorized(_) => "not authorized"@,
            RouterError::AlreadyInitialized => "already initialized"@,
            RouterError::NotInitialized => "not initialized"@,
            RouterError::IntentAlreadySeen => "intent hash already seen"@,
            RouterError::Overflow => "attempt to add with overflow"@,
            RouterError::Delegation(error) => error.message_text(),
            RouterError::Policy(error) => error.message_text(),
        }
    }

    /// The message with which the request is refused.
    pub fn message(&self) -> (r: &'static str)
        ensures
            r@ == self.message_text(),
    {
        match self {
            RouterError::Unauthorized(_) => "not authorized",
            RouterError::AlreadyInitialized => "already initialized",
            RouterError::NotInitialized => "not initialized",
            RouterError::IntentAlreadySeen => "intent hash already seen",
            RouterError::Overflow => "attempt to add with overflow",
            RouterError::Delegation(error) => error.message(),
            RouterError::Policy(error) => error.message(),
        }
    }
}

impl View for ExecutionIntent {
    type V = IntentView;

    open spec fn view(&self) -> IntentView {
        IntentView {
            intent_hash: self.intent_hash,
            delegation_id: self.delegation_id,
            policy_id: self.policy_id,
            delegate: self.delegate,
            asset: self.asset,
            protocol: self.protocol,
            action_type: self.action_type@,
            amount: self.amount,
            target: self.target,
            payload_hash: self.payload_hash,
            nonce: self.nonce,
            timestamp: self.timestamp,
            expiry: self.expiry,
        }
    }
}

impl View for Execution {
    type V = ExecutionView;

    open spec fn view(&self) -> ExecutionView {
        ExecutionView {
            execution_id: self.execution_id,
            intent_hash: self.intent_hash,
            delegation_id: self.delegation_id,
            policy_id: self.policy_id,
            delegate: self.delegate,
            asset: self.asset,
            protocol: self.protocol,
            action_type: self.action_type@,
            amount: self.amount,
            target: self.target,
            timestamp: self.timestamp,
            status: self.status,
            rejection_reason: match self.rejection_reason {
                Some(reason) => Some(reason@),
                None => None,
            },
        }
    }
}

impl Record for Execution {
    fn duplicate(&self) -> (copy: Self) {
        let rejection_reason = match &self.rejection_reason {
            Some(reason) => Some(reason.clone()),
            None => None,
        };
        Execution {
            execution_id: self.execution_id,
            intent_hash: self.intent_hash,
            delegation_id: self.delegation_id,
            policy_id: self.policy_id,
            delegate: self.delegate,
            asset: self.asset,
            protocol: self.protocol,
            action_type: self.action_type.clone(),
            amount: self.amount,
            target: self.target,
            timestamp: self.timestamp,
            status: self.status,
            rejection_reason,
        }
    }
}

impl Clone for Execution {
    fn clone(&self) -> (r: Self)
        ensures
            r@ == self@,
    {
        self.duplicate()
    }
}

impl Clone for ExecutionIntent {
    fn clone(&self) -> (r: Self)
        ensures
            r@ == self@,
    {
        ExecutionIntent {
            intent_hash: self.intent_hash,
            delegation_id: self.delegation_id,
            policy_id: self.policy_id,
            delegate: self.delegate,
            asset: self.asset,
            protocol: self.protocol,
            action_type: self.action_type.clone(),
            amount: self.amount,
            target: self.target,
            payload_hash: self.payload_hash,
            nonce: self.nonce,
            timestamp: self.timestamp,
            expiry: self.expiry,
        }
    }
}

} // verus!
