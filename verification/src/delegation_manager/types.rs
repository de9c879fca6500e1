//! The records, events and errors of the delegation manager.

use crate::ledger::Address;
use crate::table::{Record, TableKey};
use vstd::prelude::*;

verus! {

/// Where a delegation stands in its life.
#[derive(Clone, Copy, Debug, PartialEq, Eq, Structural)]
pub enum DelegationStatus {
    Pending,
    Active,
    Paused,
    Revoked,
    Expired,
}

/// What the owner says about a delegation.
#[derive(Debug, PartialEq, Eq)]
pub struct DelegationMetadata {
    pub label: String,
    pub strategy_id: Option<u64>,
    pub description: Option<String>,
    pub tags: Vec<String>,
}

/// The content of [`DelegationMetadata`].
#[verifier::ext_equal]
pub struct MetadataView {
    pub label: Seq<char>,
    pub strategy_id: Option<u64>,
    pub description: Option<Seq<char>>,
    pub tags: Seq<Seq<char>>,
}

/// Authority that an owner has given to a delegate.
#[derive(Debug, PartialEq, Eq)]
pub struct Delegation {
    pub id: u64,
    pub owner: Address,
    pub delegate: Address,
    pub status: DelegationStatus,
    pub metadata: DelegationMetadata,
    pub version: u32,
    pub expires_at: Option<u64>,
    pub created_at: u64,
    pub updated_at: u64,
    pub paused_at: Option<u64>,
    pub resumed_at: Option<u64>,
    pub revoked_at: Option<u64>,
}

/// The content of a [`Delegation`].
#[verifier::ext_equal]
pub struct DelegationView {
    pub id: u64,
    pub owner: Address,
    pub delegate: Address,
    pub status: DelegationStatus,
    pub metadata: MetadataView,
    pub version: u32,
    pub expires_at: Option<u64>,
    pub created_at: u64,
    pub updated_at: u64,
    pub paused_at: Option<u64>,
    pub resumed_at: Option<u64>,
    pub revoked_at: Option<u64>,
}

/// An owner and one of the owner's delegates.
#[derive(Clone, Copy, Debug, PartialEq, Eq, Structural)]
pub struct Pair {
    pub owner: Address,
    pub delegate: Address,
}

/// The keys of the manager's entries on the ledger.
#[derive(Clone, Copy, Debug, PartialEq, Eq, Structural)]
pub enum DataKey {
    Counter,
    Delegation(u64),
    ActiveDelegation(Address, Address),
}

/// What happened to a delegation.
#[derive(Clone, Copy, Debug, PartialEq, Eq, Structural)]
pub enum DelegationChange {
    Created,
    Accepted,
    Revoked,
    Renounced,
    Paused,
    Resumed,
    Updated,
    Expired,
}

/// The event that a change of a delegation publishes.
#[derive(Clone, Copy, Debug, PartialEq, Eq, Structural)]
pub struct DelegationEvent {
    pub change: DelegationChange,
    pub delegation_id: u64,
    pub owner: Address,
    pub delegate: Address,
    pub timestamp: u64,
    pub version: u32,
}

/// Why the manager refuses a request.
#[derive(Clone, Copy, Debug, PartialEq, Eq, Structural)]
pub enum DelegationError {
    /// The address has not authorized the request.
    Unauthorized(Address),
    SelfDelegation,
    ExpiryNotInFuture,
    DuplicateDelegation,
    VersionOverflow,
    DelegationNotFound,
    AcceptExpired,
    NotPending,
    AlreadyRevoked,
    PauseExpired,
    NotActive,
    ResumeExpired,
    NotPaused,
    UpdateRevoked,
    UpdateExpired,
}

impl DelegationChange {
    /// The topic under which the change is published.
    pub open spec fn topic_text(self) -> Seq<char> {
        match self {
            DelegationChange::Created => "delegation_created"@,
            DelegationChange::Accepted => "delegation_accepted"@,
            DelegationChange::Revoked => "delegation_revoked"@,
            DelegationChange::Renounced => "delegation_renounced"@,
            DelegationChange::Paused => "delegation_paused"@,
            DelegationChange::Resumed => "delegation_resumed"@,
            DelegationChange::Updated => "delegation_updated"@,
            DelegationChange::Expired => "delegation_expired"@,
        }
    }

    /// The topic under which the change is published.
    pub fn topic(&self) -> (r: &'static str)
        ensures
            r@ == self.topic_text(),
    {
        match self {
            DelegationChange::Created => "delegation_created",
            DelegationChange::Accepted => "delegation_accepted",
            DelegationChange::Revoked => "delegation_revoked",
            DelegationChange::Renounced => "delegation_renounced",
            DelegationChange::Paused => "delegation_paused",
            DelegationChange::Resumed => "delegation_resumed",
            DelegationChange::Updated => "delegation_updated",
            DelegationChange::Expired => "delegation_expired",
        }
    }
}

impl DelegationError {
    /// The message with which the request is refused.
    pub open spec fn message_text(self) -> Seq<char> {
        match self {
            DelegationError::Unauthorized(_) => "not authorized"@,
            DelegationError::SelfDelegation => "owner cannot delegate to self"@,
            DelegationError::ExpiryNotInFuture => "expiry must be in the future"@,
            DelegationError::DuplicateDelegation
                => "duplicate active/paused delegation not allowed"@,
            DelegationError::VersionOverflow => "version overflow"@,
            DelegationError::DelegationNotFound => "delegation does not exist"@,
            DelegationError::AcceptExpired => "cannot accept an expired delegation"@,
            DelegationError::NotPending => "delegation must be pending to accept"@,
            DelegationError::AlreadyRevoked => "delegation already revoked"@,
            DelegationError::PauseExpired => "cannot pause an expired delegation"@,
            DelegationError::NotActive => "delegation must be active to pause"@,
            DelegationError::ResumeExpired => "cannot resume an expired delegation"@,
            DelegationError::NotPaused => "delegation must be paused to resume"@,
            DelegationError::UpdateRevoked => "cannot update metadata of a revoked delegation"@,
            DelegationError::UpdateExpired => "cannot update metadata of an expired delegation"@,
        }
    }

    /// The message with which the request is refused.
    pub fn message(&self) -> (r: &'static str)
        ensures
            r@ == self.message_text(),
    {
        match self {
            DelegationError::Unauthorized(_) => "not authorized",
            DelegationError::SelfDelegation => "owner cannot delegate to self",
            DelegationError::ExpiryNotInFuture => "expiry must be in the future",
            DelegationError::DuplicateDelegation
                => "duplicate active/paused delegation not allowed",
            DelegationError::VersionOverflow => "version overflow",
            DelegationError::DelegationNotFound => "delegation does not exist",
            DelegationError::AcceptExpired => "cannot accept an expired delegation",
            DelegationError::NotPending => "delegation must be pending to accept",
            DelegationError::AlreadyRevoked => "delegation already revoked",
            DelegationError::PauseExpired => "cannot pause an expired delegation",
            DelegationError::NotActive => "delegation must be active to pause",
            DelegationError::ResumeExpired => "cannot resume an expired delegation",
            DelegationError::NotPaused => "delegation must be paused to resume",
            DelegationError::UpdateRevoked => "cannot update metadata of a revoked delegation",
            DelegationError::UpdateExpired => "cannot update metadata of an expired delegation",
        }
    }
}

impl View for DelegationMetadata {
    type V = MetadataView;

    open spec fn view(&self) -> MetadataView {
        MetadataView {
            label: self.label@,
            strategy_id: self.strategy_id,
            description: match self.description {
                Some(text) => Some(text@),
                None => None,
            },
            tags: self.tags.deep_view(),
        }
    }
}

impl View for Delegation {
    type V = DelegationView;

    open spec fn view(&self) -> DelegationView {
        DelegationView {
            id: self.id,
            owner: self.owner,
            delegate: self.delegate,
            status: self.status,
            metadata: self.metadata@,
            version: self.version,
            expires_at: self.expires_at,
            created_at: self.created_at,
            updated_at: self.updated_at,
            paused_at: self.paused_at,
            resumed_at: self.resumed_at,
            revoked_at: self.revoked_at,
        }
    }
}

impl TableKey for Pair {
    fn same(&self, other: &Self) -> (r: bool) {
        *self == *other
    }
}

impl Record for DelegationMetadata {
    fn duplicate(&self) -> (copy: Self) {
        let description = match &self.description {
            Some(text) => Some(text.clone()),
            None => None,
        };
        let tags = self.tags.clone();
        proof {
            assert(tags@ =~= self.tags@);
        }
        DelegationMetadata {
            label: self.label.clone(),
            strategy_id: self.strategy_id,
            description,
            tags,
        }
    }
}

impl Record for Delegation {
    fn duplicate(&self) -> (copy: Self) {
        Delegation {
            id: self.id,
            owner: self.owner,
            delegate: self.delegate,
            status: self.status,
            metadata: self.metadata.duplicate(),
            version: self.version,
            expires_at: self.expires_at,
            created_at: self.created_at,
            updated_at: self.updated_at,
            paused_at: self.paused_at,
            resumed_at: self.resumed_at,
            revoked_at: self.revoked_at,
        }
    }
}

impl Clone for DelegationMetadata {
    fn clone(&self) -> (r: Self)
        ensures
            r@ == self@,
    {
        self.duplicate()
    }
}

impl Clone for Delegation {
    fn clone(&self) -> (r: Self)
        ensures
            r@ == self@,
    {
        self.duplicate()
    }
}

} // verus!
