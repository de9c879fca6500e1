//! The delegation manager: owners give delegates authority over a limited
//! time, and can suspend or withdraw it.

pub mod laws;
mod model;
pub mod outcomes;
mod types;

pub use laws::{state_of, succeeds, ManagerRequest};
pub use model::{is_past, ManagerView};
pub use types::{
    DataKey, Delegation, DelegationChange, DelegationError, DelegationEvent, DelegationMetadata,
    DelegationStatus, DelegationView, MetadataView, Pair,
};

use crate::ledger::{Address, Env};
use crate::table::{Record, Table};
use vstd::prelude::*;

verus! {

/// An entry whose time to live has fallen below this many ledgers gets it extended.
pub const BUMP_THRESHOLD: u32 = 100_000;

/// The time to live, in ledgers, to which an entry is extended.
pub const BUMP_LIMIT: u32 = 500_000;

/// The delegation manager.
#[derive(Debug)]
pub struct DelegationManager {
    /// The id of the latest delegation, once there is one.
    pub counter: Option<u64>,
    pub delegations: Table<u64, Delegation>,
    /// The registry: the delegation that counts for a pair.
    pub active: Table<Pair, u64>,
    /// The events published so far.
    pub events: Vec<DelegationEvent>,
    /// The keys whose time to live on the ledger was extended so far.
    pub extended: Vec<DataKey>,
}

impl View for DelegationManager {
    type V = ManagerView;

    open spec fn view(&self) -> ManagerView {
        ManagerView {
            counter: self.counter,
            delegations: self.delegations@,
            active: self.active@,
            events: self.events@,
            extended: self.extended@,
        }
    }
}

/// Whether a time limit, where there is one, has been reached.
fn reached(limit: Option<u64>, now: u64) -> (r: bool)
    ensures
        r == is_past(limit, now),
{
    match limit {
        Some(time) => time <= now,
        None => false,
    }
}

impl Clone for DelegationManager {
    fn clone(&self) -> (r: Self)
        ensures
            r@ == self@,
    {
        let events = self.events.clone();
        let extended = self.extended.clone();
        proof {
            assert(events@ =~= self.events@);
            assert(extended@ =~= self.extended@);
        }
        DelegationManager {
            counter: self.counter,
            delegations: self.delegations.duplicate(),
            active: self.active.duplicate(),
            events,
            extended,
        }
    }
}

impl Delegation {
    /// Whether the delegation counts as expired.
    fn counts_as_expired(&self, now: u64) -> (r: bool)
        ensures
            r == self@.expired(now),
    {
        self.status == DelegationStatus::Expired || reached(self.expires_at, now)
    }

    /// Whether the status has yet to become `Expired`.
    fn is_due(&self, now: u64) -> (r: bool)
        ensures
            r == self@.lapses(now),
    {
        reached(self.expires_at, now) && self.status != DelegationStatus::Revoked && self.status
            != DelegationStatus::Expired
    }

    fn key_pair(&self) -> (r: Pair)
        ensures
            r == self@.pair(),
    {
        Pair { owner: self.owner, delegate: self.delegate }
    }

    /// Moves the delegation to `status` and counts the change.
    fn advance(&mut self, status: DelegationStatus, now: u64)
        requires
            old(self)@.version < u32::MAX,
        ensures
            final(self)@ == old(self)@.changed(status, now),
    {
        self.status = status;
        self.version = self.version + 1;
        self.updated_at = now;
    }
}

impl DelegationManager {
    /// A manager without delegations.
    pub fn new() -> (r: DelegationManager)
        ensures
            r@ == ManagerView::empty(),
    {
        DelegationManager {
            counter: None,
            delegations: Table::new(),
            active: Table::new(),
            events: Vec::new(),
            extended: Vec::new(),
        }
    }

    /// Notes that the entry at `key` is to live longer.
    fn bump_ttl(&mut self, key: DataKey)
        ensures
            final(self)@ == old(self)@.extend(key),
    {
        self.extended.push(key);
    }

    /// Stores `delegation` under `id` and publishes `change`.
    fn store(&mut self, id: u64, delegation: Delegation, change: DelegationChange)
        ensures
            final(self)@ == old(self)@.put(id, delegation@, change),
    {
        self.events.push(
            DelegationEvent {
                change,
                delegation_id: id,
                owner: delegation.owner,
                delegate: delegation.delegate,
                timestamp: delegation.updated_at,
                version: delegation.version,
            },
        );
        self.delegations.insert(id, delegation);
    }

    /// Takes `id` out of the registry if it counts for `pair`.
    fn unregister(&mut self, pair: Pair, id: u64)
        ensures
            final(self)@ == old(self)@.unregister(pair, id),
    {
        let registered = match self.active.get(&pair) {
            Some(existing_id) => *existing_id == id,
            None => false,
        };
        if registered {
            self.active.remove(&pair);
        }
    }

    /// Whether the delegation is to expire but its version cannot grow.
    fn expiry_overflows(&self, id: u64, now: u64) -> (r: bool)
        ensures
            r == self@.refresh(id, now) is Err,
    {
        match self.delegations.get(&id) {
            Some(delegation) => delegation.is_due(now) && delegation.version == u32::MAX,
            None => false,
        }
    }

    /// Gives the delegation the status `Expired` if its time has come.
    pub fn ensure_not_expired(&mut self, now: u64, delegation_id: u64) -> (r: Result<
        (),
        DelegationError,
    >)
        ensures
            match old(self)@.refresh(delegation_id, now) {
                Ok(fresh) => r == Ok::<(), DelegationError>(()) && final(self)@ == fresh,
                Err(error) => r == Err::<(), DelegationError>(error) && final(self)@ == old(self)@,
            },
    {
        let mut delegation = match self.delegations.get(&delegation_id) {
            Some(found) => found.duplicate(),
            None => return Ok(()),
        };
        if delegation.is_due(now) {
            if delegation.version == u32::MAX {
                return Err(DelegationError::VersionOverflow);
            }
            let pair = delegation.key_pair();
            delegation.advance(DelegationStatus::Expired, now);
            self.store(delegation_id, delegation, DelegationChange::Expired);
            self.unregister(pair, delegation_id);
        }
        self.bump_ttl(DataKey::Delegation(delegation_id));
        Ok(())
    }

    /// Creates a delegation for a delegate in Pending status.
    pub fn create_delegation(
        &mut self,
        env: &Env,
        owner: Address,
        delegate: Address,
        metadata: DelegationMetadata,
        expires_at: Option<u64>,
    ) -> (r: Result<u64, DelegationError>)
        ensures
            match old(self)@.create(env@, (Pair { owner, delegate }), metadata@, expires_at) {
                Ok((after, id)) => r == Ok::<u64, DelegationError>(id) && final(self)@ == after,
                Err(error) => r == Err::<u64, DelegationError>(error) && final(self)@ == old(self)@,
            },
    {
        if !env.has_auth(&owner) {
            return Err(DelegationError::Unauthorized(owner));
        }
        if owner == delegate {
            return Err(DelegationError::SelfDelegation);
        }
        let now = env.timestamp;
        if reached(expires_at, now) {
            return Err(DelegationError::ExpiryNotInFuture);
        }
        let pair = Pair { owner, delegate };
        if let Some(existing_id) = self.active.get(&pair) {
            if let Some(existing) = self.delegations.get(existing_id) {
                if (existing.status == DelegationStatus::Pending || existing.status
                    == DelegationStatus::Active || existing.status == DelegationStatus::Paused)
                    && !existing.counts_as_expired(now) {
                    return Err(DelegationError::DuplicateDelegation);
                }
            }
        }
        let latest: u64 = match self.counter {
            Some(id) => id,
            None => 0,
        };
        if latest == u64::MAX {
            return Err(DelegationError::VersionOverflow);
        }
        let delegation_id: u64 = latest + 1;
        self.counter = Some(delegation_id);
        self.bump_ttl(DataKey::Counter);
        let delegation = Delegation {
            id: delegation_id,
            owner,
            delegate,
            status: DelegationStatus::Pending,
            metadata,
            version: 1,
            expires_at,
            created_at: now,
            updated_at: now,
            paused_at: None,
            resumed_at: None,
            revoked_at: None,
        };
        self.store(delegation_id, delegation, DelegationChange::Created);
        self.bump_ttl(DataKey::Delegation(delegation_id));
        self.active.insert(pair, delegation_id);
        self.bump_ttl(DataKey::ActiveDelegation(owner, delegate));
        Ok(delegation_id)
    }

    /// Delegate accepts the pending delegation.
    pub fn accept_delegation(&mut self, env: &Env, delegation_id: u64) -> (r: Result<
        (),
        DelegationError,
    >)
        ensures
            match old(self)@.accept(env@, delegation_id) {
                Ok(after) => r == Ok::<(), DelegationError>(()) && final(self)@ == after,
                Err(error) => r == Err::<(), DelegationError>(error) && final(self)@ == old(self)@,
            },
    {
        let mut delegation = match self.delegations.get(&delegation_id) {
            Some(found) => found.duplicate(),
            None => return Err(DelegationError::DelegationNotFound),
        };
        if !env.has_auth(&delegation.delegate) {
            return Err(DelegationError::Unauthorized(delegation.delegate));
        }
        let now = env.timestamp;
        if reached(delegation.expires_at, now) {
            return Err(DelegationError::AcceptExpired);
        }
        if delegation.status != DelegationStatus::Pending {
            return Err(DelegationError::NotPending);
        }
        if delegation.version == u32::MAX {
            return Err(DelegationError::VersionOverflow);
        }
        let pair = delegation.key_pair();
        delegation.advance(DelegationStatus::Active, now);
        self.store(delegation_id, delegation, DelegationChange::Accepted);
        self.bump_ttl(DataKey::Delegation(delegation_id));
        self.active.insert(pair, delegation_id);
        self.bump_ttl(DataKey::ActiveDelegation(pair.owner, pair.delegate));
        Ok(())
    }

    /// Withdraws a delegation that `signer` may withdraw.
    fn withdraw(
        &mut self,
        env: &Env,
        delegation_id: u64,
        mut delegation: Delegation,
        signer: Address,
        change: DelegationChange,
    ) -> (r: Result<(), DelegationError>)
        requires
            old(self)@.delegations.contains_key(delegation_id),
            delegation@ == old(self)@.delegations[delegation_id],
        ensures
            match old(self)@.withdraw(env@, delegation_id, signer, change) {
                Ok(after) => r == Ok::<(), DelegationError>(()) && final(self)@ == after,
                Err(error) => r == Err::<(), DelegationError>(error) && final(self)@ == old(self)@,
            },
    {
        if !env.has_auth(&signer) {
            return Err(DelegationError::Unauthorized(signer));
        }
        if delegation.status == DelegationStatus::Revoked {
            return Err(DelegationError::AlreadyRevoked);
        }
        if delegation.version == u32::MAX {
            return Err(DelegationError::VersionOverflow);
        }
        let now = env.timestamp;
        let pair = delegation.key_pair();
        delegation.advance(DelegationStatus::Revoked, now);
        delegation.revoked_at = Some(now);
        self.store(delegation_id, delegation, change);
        self.bump_ttl(DataKey::Delegation(delegation_id));
        self.unregister(pair, delegation_id);
        Ok(())
    }

    /// Owner permanently revokes a delegation.
    pub fn revoke_delegation(&mut self, env: &Env, delegation_id: u64) -> (r: Result<
        (),
        DelegationError,
    >)
        ensures
            match old(self)@.revoke(env@, delegation_id) {
                Ok(after) => r == Ok::<(), DelegationError>(()) && final(self)@ == after,
                Err(error) => r == Err::<(), DelegationError>(error) && final(self)@ == old(self)@,
            },
    {
        let delegation = match self.delegations.get(&delegation_id) {
            Some(found) => found.duplicate(),
            None => return Err(DelegationError::DelegationNotFound),
        };
        let signer = delegation.owner;
        self.withdraw(env, delegation_id, delegation, signer, DelegationChange::Revoked)
    }

    /// Delegate renounces a delegation.
    pub fn renounce_delegation(&mut self, env: &Env, delegation_id: u64) -> (r: Result<
        (),
        DelegationError,
    >)
        ensures
            match old(self)@.renounce(env@, delegation_id) {
                Ok(after) => r == Ok::<(), DelegationError>(()) && final(self)@ == after,
                Err(error) => r == Err::<(), DelegationError>(error) && final(self)@ == old(self)@,
            },
    {
        let delegation = match self.delegations.get(&delegation_id) {
            Some(found) => found.duplicate(),
            None => return Err(DelegationError::DelegationNotFound),
        };
        let signer = delegation.delegate;
        self.withdraw(env, delegation_id, delegation, signer, DelegationChange::Renounced)
    }

    /// Owner temporarily disables a delegation.
    pub fn pause_delegation(&mut self, env: &Env, delegation_id: u64) -> (r: Result<
        (),
        DelegationError,
    >)
        ensures
            match old(self)@.pause(env@, delegation_id) {
                Ok(after) => r == Ok::<(), DelegationError>(()) && final(self)@ == after,
                Err(error) => r == Err::<(), DelegationError>(error) && final(self)@ == old(self)@,
            },
    {
        let now = env.timestamp;
        if self.expiry_overflows(delegation_id, now) {
            return Err(DelegationError::VersionOverflow);
        }
        let mut delegation = match self.delegations.get(&delegation_id) {
            Some(found) => found.duplicate(),
            None => return Err(DelegationError::DelegationNotFound),
        };
        if !env.has_auth(&delegation.owner) {
            return Err(DelegationError::Unauthorized(delegation.owner));
        }
        if reached(delegation.expires_at, now) {
            return Err(DelegationError::PauseExpired);
        }
        if delegation.status != DelegationStatus::Active {
            return Err(DelegationError::NotActive);
        }
        if delegation.version == u32::MAX {
            return Err(DelegationError::VersionOverflow);
        }
        self.bump_ttl(DataKey::Delegation(delegation_id));
        delegation.advance(DelegationStatus::Paused, now);
        delegation.paused_at = Some(now);
        self.store(delegation_id, delegation, DelegationChange::Paused);
        self.bump_ttl(DataKey::Delegation(delegation_id));
        Ok(())
    }

    /// Owner re-enables a paused delegation.
    pub fn resume_delegation(&mut self, env: &Env, delegation_id: u64) -> (r: Result<
        (),
        DelegationError,
    >)
        ensures
            match old(self)@.resume(env@, delegation_id) {
                Ok(after) => r == Ok::<(), DelegationError>(()) && final(self)@ == after,
                Err(error) => r == Err::<(), DelegationError>(error) && final(self)@ == old(self)@,
            },
    {
        let now = env.timestamp;
        if self.expiry_overflows(delegation_id, now) {
            return Err(DelegationError::VersionOverflow);
        }
        let mut delegation = match self.delegations.get(&delegation_id) {
            Some(found) => found.duplicate(),
            None => return Err(DelegationError::DelegationNotFound),
        };
        if !env.has_auth(&delegation.owner) {
            return Err(DelegationError::Unauthorized(delegation.owner));
        }
        if reached(delegation.expires_at, now) {
            return Err(DelegationError::ResumeExpired);
        }
        if delegation.status != DelegationStatus::Paused {
            return Err(DelegationError::NotPaused);
        }
        if delegation.version == u32::MAX {
            return Err(DelegationError::VersionOverflow);
        }
        self.bump_ttl(DataKey::Delegation(delegation_id));
        delegation.advance(DelegationStatus::Active, now);
        delegation.resumed_at = Some(now);
        self.store(delegation_id, delegation, DelegationChange::Resumed);
        self.bump_ttl(DataKey::Delegation(delegation_id));
        Ok(())
    }

    /// Owner updates delegation metadata.
    pub fn update_metadata(
        &mut self,
        env: &Env,
        delegation_id: u64,
        metadata: DelegationMetadata,
    ) -> (r: Result<(), DelegationError>)
        ensures
            match old(self)@.update(env@, delegation_id, metadata@) {
                Ok(after) => r == Ok::<(), DelegationError>(()) && final(self)@ == after,
                Err(error) => r == Err::<(), DelegationError>(error) && final(self)@ == old(self)@,
            },
    {
        let now = env.timestamp;
        if self.expiry_overflows(delegation_id, now) {
            return Err(DelegationError::VersionOverflow);
        }
        let mut delegation = match self.delegations.get(&delegation_id) {
            Some(found) => found.duplicate(),
            None => return Err(DelegationError::DelegationNotFound),
        };
        if !env.has_auth(&delegation.owner) {
            return Err(DelegationError::Unauthorized(delegation.owner));
        }
        if delegation.status == DelegationStatus::Revoked {
            return Err(DelegationError::UpdateRevoked);
        }
        if reached(delegation.expires_at, now) {
            return Err(DelegationError::UpdateExpired);
        }
        if delegation.version == u32::MAX {
            return Err(DelegationError::VersionOverflow);
        }
        self.bump_ttl(DataKey::Delegation(delegation_id));
        let status = delegation.status;
        delegation.advance(status, now);
        delegation.metadata = metadata;
        self.store(delegation_id, delegation, DelegationChange::Updated);
        self.bump_ttl(DataKey::Delegation(delegation_id));
        Ok(())
    }

    /// Explicitly trigger expiry event and update status to Expired if delegation is found to be
    /// expired
    pub fn check_and_expire(&mut self, env: &Env, delegation_id: u64) -> (r: Result<
        bool,
        DelegationError,
    >)
        ensures
            match old(self)@.refresh(delegation_id, env.timestamp) {
                Ok(after) => r == Ok::<bool, DelegationError>(
                    old(self)@.due(delegation_id, env.timestamp),
                ) && final(self)@ == after,
                Err(error) => r == Err::<bool, DelegationError>(error) && final(self)@ == old(self)@,
            },
    {
        let now = env.timestamp;
        let due = match self.delegations.get(&delegation_id) {
            Some(delegation) => delegation.is_due(now),
            None => false,
        };
        self.ensure_not_expired(now, delegation_id)?;
        Ok(due)
    }

    pub fn get_delegation(&mut self, delegation_id: u64) -> (r: Option<Delegation>)
        ensures
            final(self)@ == old(self)@.read(delegation_id),
            r is Some <==> old(self)@.delegations.contains_key(delegation_id),
            r matches Some(delegation) ==> delegation@ == old(self)@.delegations[delegation_id],
    {
        let found = match self.delegations.get(&delegation_id) {
            Some(delegation) => delegation.duplicate(),
            None => return None,
        };
        self.bump_ttl(DataKey::Delegation(delegation_id));
        Some(found)
    }

    pub fn delegation_exists(&mut self, delegation_id: u64) -> (r: bool)
        ensures
            final(self)@ == old(self)@.read(delegation_id),
            r == old(self)@.delegations.contains_key(delegation_id),
    {
        let has = self.delegations.get(&delegation_id).is_some();
        if has {
            self.bump_ttl(DataKey::Delegation(delegation_id));
        }
        has
    }

    pub fn is_active_delegation(&mut self, env: &Env, delegation_id: u64) -> (r: Result<
        bool,
        DelegationError,
    >)
        ensures
            match old(self)@.ask_in_force(env.timestamp, delegation_id) {
                Ok((after, answer)) => r == Ok::<bool, DelegationError>(answer) && final(self)@
                    == after,
                Err(error) => r == Err::<bool, DelegationError>(error) && final(self)@ == old(self)@,
            },
    {
        let now = env.timestamp;
        self.ensure_not_expired(now, delegation_id)?;
        Ok(
            match self.get_delegation(delegation_id) {
                Some(delegation) => delegation.status == DelegationStatus::Active
                    && !delegation.counts_as_expired(now),
                None => false,
            },
        )
    }

    pub fn is_paused(&mut self, delegation_id: u64) -> (r: bool)
        ensures
            final(self)@ == old(self)@.read(delegation_id),
            r == (old(self)@.delegations.contains_key(delegation_id) && old(self)@.delegations[delegation_id].status == DelegationStatus::Paused),
    {
        match self.get_delegation(delegation_id) {
            Some(delegation) => delegation.status == DelegationStatus::Paused,
            None => false,
        }
    }

    pub fn is_revoked(&mut self, delegation_id: u64) -> (r: bool)
        ensures
            final(self)@ == old(self)@.read(delegation_id),
            r == (old(self)@.delegations.contains_key(delegation_id) && old(self)@.delegations[delegation_id].status == DelegationStatus::Revoked),
    {
        match self.get_delegation(delegation_id) {
            Some(delegation) => delegation.status == DelegationStatus::Revoked,
            None => false,
        }
    }

    pub fn is_expired(&mut self, env: &Env, delegation_id: u64) -> (r: bool)
        ensures
            final(self)@ == old(self)@.read(delegation_id),
            r == (old(self)@.delegations.contains_key(delegation_id) && old(self)@.delegations[delegation_id].expired(env.timestamp)),
    {
        match self.get_delegation(delegation_id) {
            Some(delegation) => delegation.counts_as_expired(env.timestamp),
            None => false,
        }
    }

    pub fn get_owner(&mut self, delegation_id: u64) -> (r: Option<Address>)
        ensures
            final(self)@ == old(self)@.read(delegation_id),
            r == match old(self)@.find(delegation_id) {
                Some(delegation) => Some(delegation.owner),
                None => None,
            },
    {
        match self.get_delegation(delegation_id) {
            Some(delegation) => Some(delegation.owner),
            None => None,
        }
    }

    pub fn get_delegate(&mut self, delegation_id: u64) -> (r: Option<Address>)
        ensures
            final(self)@ == old(self)@.read(delegation_id),
            r == match old(self)@.find(delegation_id) {
                Some(delegation) => Some(delegation.delegate),
                None => None,
            },
    {
        match self.get_delegation(delegation_id) {
            Some(delegation) => Some(delegation.delegate),
            None => None,
        }
    }

    pub fn get_delegate_status(&mut self, delegation_id: u64) -> (r: Option<DelegationStatus>)
        ensures
            final(self)@ == old(self)@.read(delegation_id),
            r == match old(self)@.find(delegation_id) {
                Some(delegation) => Some(delegation.status),
                None => None,
            },
    {
        match self.get_delegation(delegation_id) {
            Some(delegation) => Some(delegation.status),
            None => None,
        }
    }

    pub fn get_active_delegation_id(
        &mut self,
        env: &Env,
        owner: Address,
        delegate: Address,
    ) -> (r: Result<Option<u64>, DelegationError>)
        ensures
            match old(self)@.ask_registered(env.timestamp, (Pair { owner, delegate })) {
                Ok((after, answer)) => r == Ok::<Option<u64>, DelegationError>(answer) && final(self)@ == after,
                Err(error) => r == Err::<Option<u64>, DelegationError>(error) && final(self)@
                    == old(self)@,
            },
    {
        let now = env.timestamp;
        let pair = Pair { owner, delegate };
        let id: u64 = match self.active.get(&pair) {
            Some(found) => *found,
            None => return Ok(None),
        };
        if self.expiry_overflows(id, now) {
            return Err(DelegationError::VersionOverflow);
        }
        self.bump_ttl(DataKey::ActiveDelegation(owner, delegate));
        // Ensure we never return an expired delegation
        self.ensure_not_expired(now, id)?;
        if let Some(delegation) = self.get_delegation(id) {
            if delegation.status == DelegationStatus::Expired {
                return Ok(None);
            }
            if delegation.counts_as_expired(now) {
                self.active.remove(&pair);
                return Ok(None);
            }
        }
        Ok(Some(id))
    }

    pub fn verify_authority(
        &mut self,
        env: &Env,
        owner: Address,
        delegate: Address,
    ) -> (r: Result<bool, DelegationError>)
        ensures
            match old(self)@.ask_authority(env.timestamp, (Pair { owner, delegate })) {
                Ok((after, answer)) => r == Ok::<bool, DelegationError>(answer) && final(self)@
                    == after,
                Err(error) => r == Err::<bool, DelegationError>(error) && final(self)@ == old(self)@,
            },
    {
        match self.get_active_delegation_id(env, owner, delegate)? {
            Some(id) => {
                self.ensure_not_expired(env.timestamp, id)?;
                self.is_active_delegation(env, id)
            },
            None => Ok(false),
        }
    }

    pub fn get_active_delegation(
        &mut self,
        env: &Env,
        owner: Address,
        delegate: Address,
    ) -> (r: Result<Option<Delegation>, DelegationError>)
        ensures
            match old(self)@.ask_active(env.timestamp, (Pair { owner, delegate })) {
                Ok((after, answer)) => r is Ok && option_view(r->Ok_0) == answer && final(self)@
                    == after,
                Err(error) => r == Err::<Option<Delegation>, DelegationError>(error) && final(self)@ == old(self)@,
            },
    {
        match self.get_delegation_by_pair(env, owner, delegate)? {
            Some(delegation) => if delegation.status == DelegationStatus::Active
                && !delegation.counts_as_expired(env.timestamp) {
                Ok(Some(delegation))
            } else {
                Ok(None)
            },
            None => Ok(None),
        }
    }

    pub fn get_delegation_by_pair(
        &mut self,
        env: &Env,
        owner: Address,
        delegate: Address,
    ) -> (r: Result<Option<Delegation>, DelegationError>)
        ensures
            match old(self)@.ask_by_pair(env.timestamp, (Pair { owner, delegate })) {
                Ok((after, answer)) => r is Ok && option_view(r->Ok_0) == answer && final(self)@
                    == after,
                Err(error) => r == Err::<Option<Delegation>, DelegationError>(error) && final(self)@ == old(self)@,
            },
    {
        match self.get_active_delegation_id(env, owner, delegate)? {
            Some(id) => {
                self.ensure_not_expired(env.timestamp, id)?;
                Ok(self.get_delegation(id))
            },
            None => Ok(None),
        }
    }

    pub fn is_delegation_valid(&mut self, env: &Env, delegation_id: u64) -> (r: Result<
        bool,
        DelegationError,
    >)
        ensures
            match old(self)@.ask_in_force(env.timestamp, delegation_id) {
                Ok((after, answer)) => r == Ok::<bool, DelegationError>(answer) && final(self)@
                    == after,
                Err(error) => r == Err::<bool, DelegationError>(error) && final(self)@ == old(self)@,
            },
    {
        self.is_active_delegation(env, delegation_id)
    }

    pub fn get_delegations(&mut self, ids: &Vec<u64>) -> (r: Vec<Option<Delegation>>)
        ensures
            final(self)@ == old(self)@.read_all(ids@),
            r@.len() == ids@.len(),
            forall|i: int|
                0 <= i < ids@.len() ==> option_view(#[trigger] r@[i]) == old(self)@.find(ids@[i]),
    {
        let mut result: Vec<Option<Delegation>> = Vec::new();
        let mut i: usize = 0;
        proof {
            assert(self@ =~= old(self)@.read_all(ids@.take(0)));
        }
        while i < ids.len()
            invariant
                i <= ids.len(),
                self@ == old(self)@.read_all(ids@.take(i as int)),
                result@.len() == i,
                forall|j: int|
                    0 <= j < i ==> option_view(#[trigger] result@[j]) == old(self)@.find(ids@[j]),
            decreases ids.len() - i,
        {
            proof {
                lemma_read_one_more(old(self)@, ids@.take(i as int), ids@[i as int]);
                assert(ids@.take(i + 1) =~= ids@.take(i as int).push(ids@[i as int]));
            }
            result.push(self.get_delegation(ids[i]));
            i = i + 1;
        }
        proof {
            assert(ids@.take(i as int) =~= ids@);
        }
        result
    }

    /// Emergency Pause allows the owner to immediately pause a delegation.
    pub fn emergency_pause(&mut self, env: &Env, delegation_id: u64) -> (r: Result<
        (),
        DelegationError,
    >)
        ensures
            match old(self)@.pause(env@, delegation_id) {
                Ok(after) => r == Ok::<(), DelegationError>(()) && final(self)@ == after,
                Err(error) => r == Err::<(), DelegationError>(error) && final(self)@ == old(self)@,
            },
    {
        self.pause_delegation(env, delegation_id)
    }
}

/// The content of an answer.
pub open spec fn option_view(answer: Option<Delegation>) -> Option<DelegationView> {
    match answer {
        Some(delegation) => Some(delegation@),
        None => None,
    }
}

/// Looking at one more delegation extends its entry after the others.
proof fn lemma_read_one_more(manager: ManagerView, ids: Seq<u64>, id: u64)
    ensures
        manager.read_all(ids.push(id)) == manager.read_all(ids).read(id),
{
    let present = |id: u64| manager.delegations.contains_key(id);
    let key = |id: u64| DataKey::Delegation(id);
    reveal(Seq::filter);
    assert(ids.push(id).drop_last() =~= ids);
    if present(id) {
        assert(ids.filter(present).push(id).map_values(key) =~= ids.filter(present).map_values(
            key,
        ).push(DataKey::Delegation(id)));
    }
    assert(manager.read_all(ids.push(id)).extended =~= manager.read_all(ids).read(id).extended);
}

} // verus!
