//! The delegation manager as a state machine: its state, and what each
//! request makes of it.

use super::types::{
    DataKey, DelegationChange, DelegationError, DelegationEvent, DelegationStatus, DelegationView,
    MetadataView, Pair,
};
use crate::ledger::{Address, EnvView};
use vstd::prelude::*;

verus! {

/// The state of the delegation manager.
#[verifier::ext_equal]
pub struct ManagerView {
    /// The id of the latest delegation, once there is one.
    pub counter: Option<u64>,
    pub delegations: Map<u64, DelegationView>,
    /// The registry: the delegation that counts for a pair.
    pub active: Map<Pair, u64>,
    /// The events published so far.
    pub events: Seq<DelegationEvent>,
    /// The keys whose time to live on the ledger was extended so far.
    pub extended: Seq<DataKey>,
}

impl DelegationView {
    pub open spec fn pair(self) -> Pair {
        Pair { owner: self.owner, delegate: self.delegate }
    }

    /// The expiry time has come.
    pub open spec fn past_expiry(self, now: u64) -> bool {
        is_past(self.expires_at, now)
    }

    /// The delegation counts as expired, whether or not its status says so.
    pub open spec fn expired(self, now: u64) -> bool {
        self.status == DelegationStatus::Expired || self.past_expiry(now)
    }

    /// The status has yet to become `Expired`.
    pub open spec fn lapses(self, now: u64) -> bool {
        &&& self.past_expiry(now)
        &&& self.status != DelegationStatus::Revoked
        &&& self.status != DelegationStatus::Expired
    }

    /// The delegation can be acted under, or can still become so.
    pub open spec fn live(self, now: u64) -> bool {
        &&& self.status == DelegationStatus::Pending || self.status == DelegationStatus::Active
            || self.status == DelegationStatus::Paused
        &&& !self.expired(now)
    }

    /// The delegate can act for the owner.
    pub open spec fn in_force(self, now: u64) -> bool {
        self.status == DelegationStatus::Active && !self.expired(now)
    }

    /// The delegation after a change that is noted in its version.
    pub open spec fn changed(self, status: DelegationStatus, now: u64) -> DelegationView {
        DelegationView {
            status,
            version: (self.version + 1) as u32,
            updated_at: now,
            ..self
        }
    }

    pub open spec fn revised(self, metadata: MetadataView, now: u64) -> DelegationView {
        DelegationView { metadata, ..self.changed(self.status, now) }
    }

    pub open spec fn paused(self, now: u64) -> DelegationView {
        DelegationView { paused_at: Some(now), ..self.changed(DelegationStatus::Paused, now) }
    }

    pub open spec fn resumed(self, now: u64) -> DelegationView {
        DelegationView { resumed_at: Some(now), ..self.changed(DelegationStatus::Active, now) }
    }

    pub open spec fn revoked(self, now: u64) -> DelegationView {
        DelegationView { revoked_at: Some(now), ..self.changed(DelegationStatus::Revoked, now) }
    }
}

/// A time limit, where there is one, has been reached.
pub open spec fn is_past(limit: Option<u64>, now: u64) -> bool {
    limit matches Some(time) && time <= now
}

impl ManagerView {
    pub open spec fn empty() -> ManagerView {
        ManagerView {
            counter: None,
            delegations: Map::empty(),
            active: Map::empty(),
            events: Seq::empty(),
            extended: Seq::empty(),
        }
    }

    /// The id of the latest delegation, 0 where there is none.
    pub open spec fn latest(self) -> u64 {
        match self.counter {
            Some(id) => id,
            None => 0,
        }
    }

    pub open spec fn extend(self, key: DataKey) -> ManagerView {
        ManagerView { extended: self.extended.push(key), ..self }
    }

    /// `delegation` is stored under `id`, and `change` is published.
    pub open spec fn put(
        self,
        id: u64,
        delegation: DelegationView,
        change: DelegationChange,
    ) -> ManagerView {
        ManagerView {
            delegations: self.delegations.insert(id, delegation),
            events: self.events.push(
                DelegationEvent {
                    change,
                    delegation_id: id,
                    owner: delegation.owner,
                    delegate: delegation.delegate,
                    timestamp: delegation.updated_at,
                    version: delegation.version,
                },
            ),
            ..self
        }
    }

    /// The registry has `id` for `pair`.
    pub open spec fn registered(self, pair: Pair, id: u64) -> bool {
        self.active.contains_key(pair) && self.active[pair] == id
    }

    pub open spec fn register(self, pair: Pair, id: u64) -> ManagerView {
        ManagerView { active: self.active.insert(pair, id), ..self }
    }

    pub open spec fn clear(self, pair: Pair) -> ManagerView {
        ManagerView { active: self.active.remove(pair), ..self }
    }

    /// The registry no longer has `id` for `pair`.
    pub open spec fn unregister(self, pair: Pair, id: u64) -> ManagerView {
        if self.registered(pair, id) {
            self.clear(pair)
        } else {
            self
        }
    }

    /// A delegation past its expiry gets the status `Expired`.
    pub open spec fn expire(self, id: u64, now: u64) -> ManagerView {
        let delegation = self.delegations[id];
        self.put(
            id,
            delegation.changed(DelegationStatus::Expired, now),
            DelegationChange::Expired,
        ).unregister(delegation.pair(), id)
    }

    /// The delegation is to get the status `Expired`.
    pub open spec fn due(self, id: u64, now: u64) -> bool {
        self.delegations.contains_key(id) && self.delegations[id].lapses(now)
    }

    /// The status of the delegation is brought up to date.
    pub open spec fn refresh(self, id: u64, now: u64) -> Result<ManagerView, DelegationError> {
        if !self.delegations.contains_key(id) {
            Ok(self)
        } else if !self.delegations[id].lapses(now) {
            Ok(self.extend(DataKey::Delegation(id)))
        } else if self.delegations[id].version == u32::MAX {
            Err(DelegationError::VersionOverflow)
        } else {
            Ok(self.expire(id, now).extend(DataKey::Delegation(id)))
        }
    }

    /// The delegation is looked at.
    pub open spec fn read(self, id: u64) -> ManagerView {
        if self.delegations.contains_key(id) {
            self.extend(DataKey::Delegation(id))
        } else {
            self
        }
    }

    pub open spec fn find(self, id: u64) -> Option<DelegationView> {
        if self.delegations.contains_key(id) {
            Some(self.delegations[id])
        } else {
            None
        }
    }

    /// The pair already has a delegation that is live.
    pub open spec fn taken(self, pair: Pair, now: u64) -> bool {
        &&& self.active.contains_key(pair)
        &&& self.delegations.contains_key(self.active[pair])
        &&& self.delegations[self.active[pair]].live(now)
    }

    pub open spec fn create(
        self,
        env: EnvView,
        pair: Pair,
        metadata: MetadataView,
        expires_at: Option<u64>,
    ) -> Result<(ManagerView, u64), DelegationError> {
        let now = env.timestamp;
        if !env.authorized(pair.owner) {
            Err(DelegationError::Unauthorized(pair.owner))
        } else if pair.owner == pair.delegate {
            Err(DelegationError::SelfDelegation)
        } else if is_past(expires_at, now) {
            Err(DelegationError::ExpiryNotInFuture)
        } else if self.taken(pair, now) {
            Err(DelegationError::DuplicateDelegation)
        } else if self.latest() == u64::MAX {
            Err(DelegationError::VersionOverflow)
        } else {
            let id = (self.latest() + 1) as u64;
            let delegation = DelegationView {
                id,
                owner: pair.owner,
                delegate: pair.delegate,
                status: DelegationStatus::Pending,
                metadata,
                version: 1,
                expires_at,
                created_at: now,
                updated_at: now,
                paused_at: None,
                resumed_at: None,
                revoked_at: None,
            };
            let counted = ManagerView { counter: Some(id), ..self }.extend(DataKey::Counter);
            Ok(
                (
                    counted.put(id, delegation, DelegationChange::Created).extend(
                        DataKey::Delegation(id),
                    ).register(pair, id).extend(
                        DataKey::ActiveDelegation(pair.owner, pair.delegate),
                    ),
                    id,
                ),
            )
        }
    }

    pub open spec fn accept(self, env: EnvView, id: u64) -> Result<ManagerView, DelegationError> {
        let now = env.timestamp;
        let delegation = self.delegations[id];
        if !self.delegations.contains_key(id) {
            Err(DelegationError::DelegationNotFound)
        } else if !env.authorized(delegation.delegate) {
            Err(DelegationError::Unauthorized(delegation.delegate))
        } else if delegation.past_expiry(now) {
            Err(DelegationError::AcceptExpired)
        } else if delegation.status != DelegationStatus::Pending {
            Err(DelegationError::NotPending)
        } else if delegation.version == u32::MAX {
            Err(DelegationError::VersionOverflow)
        } else {
            Ok(
                self.put(
                    id,
                    delegation.changed(DelegationStatus::Active, now),
                    DelegationChange::Accepted,
                ).extend(DataKey::Delegation(id)).register(delegation.pair(), id).extend(
                    DataKey::ActiveDelegation(delegation.owner, delegation.delegate),
                ),
            )
        }
    }

    /// The authority is withdrawn for good, by `signer`.
    pub open spec fn withdraw(
        self,
        env: EnvView,
        id: u64,
        signer: Address,
        change: DelegationChange,
    ) -> Result<ManagerView, DelegationError> {
        let delegation = self.delegations[id];
        if !self.delegations.contains_key(id) {
            Err(DelegationError::DelegationNotFound)
        } else if !env.authorized(signer) {
            Err(DelegationError::Unauthorized(signer))
        } else if delegation.status == DelegationStatus::Revoked {
            Err(DelegationError::AlreadyRevoked)
        } else if delegation.version == u32::MAX {
            Err(DelegationError::VersionOverflow)
        } else {
            Ok(
                self.put(id, delegation.revoked(env.timestamp), change).extend(
                    DataKey::Delegation(id),
                ).unregister(delegation.pair(), id),
            )
        }
    }

    pub open spec fn revoke(self, env: EnvView, id: u64) -> Result<ManagerView, DelegationError> {
        self.withdraw(env, id, self.delegations[id].owner, DelegationChange::Revoked)
    }

    pub open spec fn renounce(self, env: EnvView, id: u64) -> Result<ManagerView, DelegationError> {
        self.withdraw(env, id, self.delegations[id].delegate, DelegationChange::Renounced)
    }

    pub open spec fn pause(self, env: EnvView, id: u64) -> Result<ManagerView, DelegationError> {
        let now = env.timestamp;
        let delegation = self.delegations[id];
        if !self.delegations.contains_key(id) {
            Err(DelegationError::DelegationNotFound)
        } else if self.refresh(id, now) is Err {
            Err(DelegationError::VersionOverflow)
        } else if !env.authorized(delegation.owner) {
            Err(DelegationError::Unauthorized(delegation.owner))
        } else if delegation.past_expiry(now) {
            Err(DelegationError::PauseExpired)
        } else if delegation.status != DelegationStatus::Active {
            Err(DelegationError::NotActive)
        } else if delegation.version == u32::MAX {
            Err(DelegationError::VersionOverflow)
        } else {
            Ok(
                self.read(id).put(id, delegation.paused(now), DelegationChange::Paused).extend(
                    DataKey::Delegation(id),
                ),
            )
        }
    }

    pub open spec fn resume(self, env: EnvView, id: u64) -> Result<ManagerView, DelegationError> {
        let now = env.timestamp;
        let delegation = self.delegations[id];
        if !self.delegations.contains_key(id) {
            Err(DelegationError::DelegationNotFound)
        } else if self.refresh(id, now) is Err {
            Err(DelegationError::VersionOverflow)
        } else if !env.authorized(delegation.owner) {
            Err(DelegationError::Unauthorized(delegation.owner))
        } else if delegation.past_expiry(now) {
            Err(DelegationError::ResumeExpired)
        } else if delegation.status != DelegationStatus::Paused {
            Err(DelegationError::NotPaused)
        } else if delegation.version == u32::MAX {
            Err(DelegationError::VersionOverflow)
        } else {
            Ok(
                self.read(id).put(id, delegation.resumed(now), DelegationChange::Resumed).extend(
                    DataKey::Delegation(id),
                ),
            )
        }
    }

    pub open spec fn update(
        self,
        env: EnvView,
        id: u64,
        metadata: MetadataView,
    ) -> Result<ManagerView, DelegationError> {
        let now = env.timestamp;
        let delegation = self.delegations[id];
        if !self.delegations.contains_key(id) {
            Err(DelegationError::DelegationNotFound)
        } else if self.refresh(id, now) is Err {
            Err(DelegationError::VersionOverflow)
        } else if !env.authorized(delegation.owner) {
            Err(DelegationError::Unauthorized(delegation.owner))
        } else if delegation.status == DelegationStatus::Revoked {
            Err(DelegationError::UpdateRevoked)
        } else if delegation.past_expiry(now) {
            Err(DelegationError::UpdateExpired)
        } else if delegation.version == u32::MAX {
            Err(DelegationError::VersionOverflow)
        } else {
            Ok(
                self.read(id).put(
                    id,
                    delegation.revised(metadata, now),
                    DelegationChange::Updated,
                ).extend(DataKey::Delegation(id)),
            )
        }
    }

    /// Whether the delegation is in force is asked.
    pub open spec fn ask_in_force(self, now: u64, id: u64) -> Result<
        (ManagerView, bool),
        DelegationError,
    > {
        match self.refresh(id, now) {
            Err(error) => Err(error),
            Ok(fresh) => Ok(
                (
                    fresh.read(id),
                    fresh.delegations.contains_key(id) && fresh.delegations[id].in_force(now),
                ),
            ),
        }
    }

    /// The delegation that counts for the pair is asked for.
    pub open spec fn ask_registered(self, now: u64, pair: Pair) -> Result<
        (ManagerView, Option<u64>),
        DelegationError,
    > {
        let id = self.active[pair];
        if !self.active.contains_key(pair) {
            Ok((self, None))
        } else {
            match self.extend(DataKey::ActiveDelegation(pair.owner, pair.delegate)).refresh(
                id,
                now,
            ) {
                Err(error) => Err(error),
                Ok(fresh) => if !fresh.delegations.contains_key(id) {
                    Ok((fresh, Some(id)))
                } else if fresh.delegations[id].status == DelegationStatus::Expired {
                    Ok((fresh.read(id), None))
                } else if fresh.delegations[id].past_expiry(now) {
                    Ok((fresh.read(id).clear(pair), None))
                } else {
                    Ok((fresh.read(id), Some(id)))
                },
            }
        }
    }

    /// Whether the delegate of the pair can act for the owner is asked.
    pub open spec fn ask_authority(self, now: u64, pair: Pair) -> Result<
        (ManagerView, bool),
        DelegationError,
    > {
        match self.ask_registered(now, pair) {
            Err(error) => Err(error),
            Ok((found, None)) => Ok((found, false)),
            Ok((found, Some(id))) => match found.refresh(id, now) {
                Err(error) => Err(error),
                Ok(fresh) => fresh.ask_in_force(now, id),
            },
        }
    }

    /// The delegation under which the delegate of the pair can act is asked for.
    pub open spec fn ask_active(self, now: u64, pair: Pair) -> Result<
        (ManagerView, Option<DelegationView>),
        DelegationError,
    > {
        match self.ask_by_pair(now, pair) {
            Ok((read, Some(delegation))) if !delegation.in_force(now) => Ok((read, None)),
            other => other,
        }
    }

    /// The delegation that counts for the pair is asked for, with its content.
    pub open spec fn ask_by_pair(self, now: u64, pair: Pair) -> Result<
        (ManagerView, Option<DelegationView>),
        DelegationError,
    > {
        match self.ask_registered(now, pair) {
            Err(error) => Err(error),
            Ok((found, None)) => Ok((found, None)),
            Ok((found, Some(id))) => match found.refresh(id, now) {
                Err(error) => Err(error),
                Ok(fresh) => Ok((fresh.read(id), fresh.find(id))),
            },
        }
    }

    /// Several delegations are looked at.
    pub open spec fn read_all(self, ids: Seq<u64>) -> ManagerView {
        let found = ids.filter(|id: u64| self.delegations.contains_key(id));
        ManagerView {
            extended: self.extended + found.map_values(|id: u64| DataKey::Delegation(id)),
            ..self
        }
    }
}

} // verus!
