//! What each request to the delegation manager comes to, written out.

use super::model::{is_past, ManagerView};
use super::types::{
    DataKey, Delegation, DelegationChange, DelegationError, DelegationEvent, DelegationMetadata,
    DelegationStatus, DelegationView, MetadataView, Pair,
};
use super::{option_view, DelegationManager, BUMP_LIMIT, BUMP_THRESHOLD};
use crate::ledger::{Address, EnvView};
use vstd::prelude::*;

verus! {

/// Expiry is a matter of seconds: a time limit is past from its very second on,
/// and a delegation without one never expires by itself. A delegation is in
/// force while it is active and its expiry lies ahead; it is live while it is
/// pending, active or paused and its expiry lies ahead; it is to be marked as
/// expired when its expiry has come and it is neither revoked nor marked yet.
pub proof fn law_expiry_is_a_matter_of_seconds(
    delegation: DelegationView,
    limit: Option<u64>,
    now: u64,
)
    ensures
        is_past(limit, now) <==> exists|time: u64| limit == Some(time) && time <= now,
        delegation.past_expiry(now) <==> !(delegation.expires_at matches Some(time) ==> now < time),
        delegation.expired(now) <==> delegation.status == DelegationStatus::Expired || !(
        delegation.expires_at matches Some(time) ==> now < time),
        delegation.in_force(now) <==> delegation.status == DelegationStatus::Active && (
        delegation.expires_at matches Some(time) ==> now < time),
        delegation.live(now) <==> {
            &&& delegation.status == DelegationStatus::Pending || delegation.status
                == DelegationStatus::Active || delegation.status == DelegationStatus::Paused
            &&& delegation.expires_at matches Some(time) ==> now < time
        },
        delegation.lapses(now) <==> {
            &&& delegation.status == DelegationStatus::Pending || delegation.status
                == DelegationStatus::Active || delegation.status == DelegationStatus::Paused
            &&& delegation.expires_at matches Some(time) && time <= now
        },
        delegation.pair().owner == delegation.owner,
        delegation.pair().delegate == delegation.delegate,
{
}

/// A new manager has nothing in it.
pub proof fn law_empty_manager()
    ensures
        ManagerView::empty().counter is None,
        ManagerView::empty().delegations == Map::<u64, DelegationView>::empty(),
        ManagerView::empty().active == Map::<Pair, u64>::empty(),
        ManagerView::empty().events.len() == 0,
        ManagerView::empty().extended.len() == 0,
{
}

/// A delegation is found under its id as it is stored, and looking at it extends
/// its entry and changes nothing else.
pub proof fn law_lookup(manager: ManagerView, id: u64)
    ensures
        manager.delegations.contains_key(id) ==> {
            &&& manager.find(id) == Some(manager.delegations[id])
            &&& manager.read(id).extended == manager.extended.push(DataKey::Delegation(id))
        },
        !manager.delegations.contains_key(id) ==> {
            &&& manager.find(id) is None
            &&& manager.read(id).extended == manager.extended
        },
        manager.read(id).counter == manager.counter,
        manager.read(id).delegations == manager.delegations,
        manager.read(id).active == manager.active,
        manager.read(id).events == manager.events,
        manager.latest() == (if manager.counter is Some {
            manager.counter->0
        } else {
            0
        }),
{
}

/// Looking at several delegations extends the entry of each that is there, in
/// turn, and changes nothing else.
pub proof fn law_lookup_of_several(manager: ManagerView, ids: Seq<u64>, id: u64)
    ensures
        manager.read_all(Seq::empty()) == manager,
        manager.read_all(ids.push(id)).extended == (if manager.delegations.contains_key(id) {
            manager.read_all(ids).extended.push(DataKey::Delegation(id))
        } else {
            manager.read_all(ids).extended
        }),
        manager.read_all(ids).counter == manager.counter,
        manager.read_all(ids).delegations == manager.delegations,
        manager.read_all(ids).active == manager.active,
        manager.read_all(ids).events == manager.events,
{
    reveal(Seq::filter);
    let present = |id: u64| manager.delegations.contains_key(id);
    let key = |id: u64| DataKey::Delegation(id);
    assert(ids.push(id).drop_last() =~= ids);
    assert(manager.read_all(Seq::empty()) =~= manager);
    if present(id) {
        assert(ids.filter(present).push(id).map_values(key) =~= ids.filter(present).map_values(
            key,
        ).push(DataKey::Delegation(id)));
        assert(manager.extended + ids.filter(present).map_values(key).push(
            DataKey::Delegation(id),
        ) =~= (manager.extended + ids.filter(present).map_values(key)).push(
            DataKey::Delegation(id),
        ));
    }
}

/// Creating a delegation succeeds if and only if the owner has authorized it and
/// is not the delegate, the expiry lies ahead, the delegation registered for the
/// pair, if any, is revoked or expired, and there is an id left. The delegation
/// is then stored under the next id as it was asked for, pending, in its first
/// version and dated; it is registered for the pair, and published.
pub proof fn law_creation(
    manager: ManagerView,
    env: EnvView,
    pair: Pair,
    metadata: MetadataView,
    expires_at: Option<u64>,
)
    ensures
        ({
            let now = env.timestamp;
            let outcome = manager.create(env, pair, metadata, expires_at);
            let latest = if manager.counter is Some {
                manager.counter->0
            } else {
                0
            };
            let registered = manager.delegations[manager.active[pair]];
            let free = !(manager.active.contains_key(pair) && manager.delegations.contains_key(
                manager.active[pair],
            ) && registered.status != DelegationStatus::Revoked && registered.status
                != DelegationStatus::Expired && (registered.expires_at matches Some(time) ==> now
                < time));
            let ahead = expires_at matches Some(time) ==> now < time;
            &&& outcome is Ok <==> {
                &&& env.authorized(pair.owner)
                &&& pair.owner != pair.delegate
                &&& ahead
                &&& free
                &&& latest < u64::MAX
            }
            &&& !env.authorized(pair.owner) ==> outcome->Err_0 == DelegationError::Unauthorized(
                pair.owner,
            )
            &&& env.authorized(pair.owner) && pair.owner == pair.delegate ==> outcome->Err_0
                == DelegationError::SelfDelegation
            &&& env.authorized(pair.owner) && pair.owner != pair.delegate && !ahead
                ==> outcome->Err_0 == DelegationError::ExpiryNotInFuture
            &&& env.authorized(pair.owner) && pair.owner != pair.delegate && ahead && !free
                ==> outcome->Err_0 == DelegationError::DuplicateDelegation
            &&& env.authorized(pair.owner) && pair.owner != pair.delegate && ahead && free && latest
                == u64::MAX ==> outcome->Err_0 == DelegationError::VersionOverflow
            &&& outcome matches Ok((after, id)) ==> {
                &&& id == latest + 1
                &&& after.counter == Some(id)
                &&& after.delegations == manager.delegations.insert(id, after.delegations[id])
                &&& after.active == manager.active.insert(pair, id)
                &&& created(after.delegations[id], id, pair, metadata, expires_at, now)
                &&& after.events == manager.events.push(
                    DelegationEvent {
                        change: DelegationChange::Created,
                        delegation_id: id,
                        owner: pair.owner,
                        delegate: pair.delegate,
                        timestamp: now,
                        version: 1,
                    },
                )
                &&& after.extended == manager.extended + seq![
                    DataKey::Counter,
                    DataKey::Delegation(id),
                    DataKey::ActiveDelegation(pair.owner, pair.delegate),
                ]
            }
        }),
{
}

/// The record is that of a delegation that was just created.
pub open spec fn created(
    delegation: DelegationView,
    id: u64,
    pair: Pair,
    metadata: MetadataView,
    expires_at: Option<u64>,
    now: u64,
) -> bool {
    &&& delegation.id == id
    &&& delegation.owner == pair.owner
    &&& delegation.delegate == pair.delegate
    &&& delegation.status == DelegationStatus::Pending
    &&& delegation.metadata == metadata
    &&& delegation.version == 1
    &&& delegation.expires_at == expires_at
    &&& delegation.created_at == now
    &&& delegation.updated_at == now
    &&& delegation.paused_at is None
    &&& delegation.resumed_at is None
    &&& delegation.revoked_at is None
}

/// One delegation was replaced by a later version of it, and that was published;
/// the counter and the other delegations are as before.
pub open spec fn one_changed(
    before: ManagerView,
    after: ManagerView,
    id: u64,
    now: u64,
    change: DelegationChange,
) -> bool {
    let old_record = before.delegations[id];
    let new_record = after.delegations[id];
    &&& before.delegations.contains_key(id)
    &&& after.counter == before.counter
    &&& after.delegations == before.delegations.insert(id, new_record)
    &&& new_record.id == old_record.id
    &&& new_record.owner == old_record.owner
    &&& new_record.delegate == old_record.delegate
    &&& new_record.expires_at == old_record.expires_at
    &&& new_record.created_at == old_record.created_at
    &&& new_record.updated_at == now
    &&& new_record.version == old_record.version + 1
    &&& after.events == before.events.push(
        DelegationEvent {
            change,
            delegation_id: id,
            owner: old_record.owner,
            delegate: old_record.delegate,
            timestamp: now,
            version: new_record.version,
        },
    )
}

/// The times of the changes in the record, and what it says, are as before.
pub open spec fn same_marks(before: DelegationView, after: DelegationView) -> bool {
    &&& after.metadata == before.metadata
    &&& after.paused_at == before.paused_at
    &&& after.resumed_at == before.resumed_at
    &&& after.revoked_at == before.revoked_at
}

/// Accepting succeeds if and only if the delegation is there and pending, its
/// delegate has authorized it, its expiry lies ahead, and its version can grow.
/// The delegation is then active, and registered for its pair.
pub proof fn law_acceptance(manager: ManagerView, env: EnvView, id: u64)
    ensures
        ({
            let now = env.timestamp;
            let outcome = manager.accept(env, id);
            let there = manager.delegations.contains_key(id);
            let before = manager.delegations[id];
            let signed = env.authorized(before.delegate);
            let ahead = before.expires_at matches Some(time) ==> now < time;
            let pending = before.status == DelegationStatus::Pending;
            &&& outcome is Ok <==> there && signed && ahead && pending && before.version < u32::MAX
            &&& !there ==> outcome->Err_0 == DelegationError::DelegationNotFound
            &&& there && !signed ==> outcome->Err_0 == DelegationError::Unauthorized(
                before.delegate,
            )
            &&& there && signed && !ahead ==> outcome->Err_0 == DelegationError::AcceptExpired
            &&& there && signed && ahead && !pending ==> outcome->Err_0
                == DelegationError::NotPending
            &&& there && signed && ahead && pending && before.version == u32::MAX
                ==> outcome->Err_0 == DelegationError::VersionOverflow
            &&& outcome matches Ok(after) ==> {
                &&& one_changed(manager, after, id, now, DelegationChange::Accepted)
                &&& same_marks(before, after.delegations[id])
                &&& after.delegations[id].status == DelegationStatus::Active
                &&& after.active == manager.active.insert(
                    Pair { owner: before.owner, delegate: before.delegate },
                    id,
                )
                &&& after.extended == manager.extended + seq![
                    DataKey::Delegation(id),
                    DataKey::ActiveDelegation(before.owner, before.delegate),
                ]
            }
        }),
{
}

/// The registry is as before, except that it no longer has the delegation.
pub open spec fn struck_off(before: ManagerView, after: ManagerView, id: u64) -> bool {
    let pair = Pair {
        owner: before.delegations[id].owner,
        delegate: before.delegations[id].delegate,
    };
    after.active == (if before.active.contains_key(pair) && before.active[pair] == id {
        before.active.remove(pair)
    } else {
        before.active
    })
}

/// Revoking succeeds if and only if the delegation is there and not revoked yet,
/// its owner has authorized it, and its version can grow; renouncing, likewise,
/// where its delegate has authorized it. Either way the delegation is then
/// revoked at that time, and no longer registered.
pub proof fn law_withdrawal(manager: ManagerView, env: EnvView, id: u64)
    ensures
        ({
            let now = env.timestamp;
            let there = manager.delegations.contains_key(id);
            let before = manager.delegations[id];
            let revoked = before.status == DelegationStatus::Revoked;
            let full = before.version == u32::MAX;
            let outcome = manager.revoke(env, id);
            let signed = env.authorized(before.owner);
            &&& outcome is Ok <==> there && signed && !revoked && !full
            &&& !there ==> outcome->Err_0 == DelegationError::DelegationNotFound
            &&& there && !signed ==> outcome->Err_0 == DelegationError::Unauthorized(before.owner)
            &&& there && signed && revoked ==> outcome->Err_0 == DelegationError::AlreadyRevoked
            &&& there && signed && !revoked && full ==> outcome->Err_0
                == DelegationError::VersionOverflow
            &&& outcome matches Ok(after) ==> one_changed(
                manager,
                after,
                id,
                now,
                DelegationChange::Revoked,
            ) && withdrawn(manager, after, id, now)
        }),
        ({
            let now = env.timestamp;
            let there = manager.delegations.contains_key(id);
            let before = manager.delegations[id];
            let revoked = before.status == DelegationStatus::Revoked;
            let full = before.version == u32::MAX;
            let outcome = manager.renounce(env, id);
            let signed = env.authorized(before.delegate);
            &&& outcome is Ok <==> there && signed && !revoked && !full
            &&& !there ==> outcome->Err_0 == DelegationError::DelegationNotFound
            &&& there && !signed ==> outcome->Err_0 == DelegationError::Unauthorized(
                before.delegate,
            )
            &&& there && signed && revoked ==> outcome->Err_0 == DelegationError::AlreadyRevoked
            &&& there && signed && !revoked && full ==> outcome->Err_0
                == DelegationError::VersionOverflow
            &&& outcome matches Ok(after) ==> one_changed(
                manager,
                after,
                id,
                now,
                DelegationChange::Renounced,
            ) && withdrawn(manager, after, id, now)
        }),
{
}

/// The delegation is revoked, and no longer registered.
pub open spec fn withdrawn(before: ManagerView, after: ManagerView, id: u64, now: u64) -> bool {
    let old_record = before.delegations[id];
    let new_record = after.delegations[id];
    &&& new_record.status == DelegationStatus::Revoked
    &&& new_record.revoked_at == Some(now)
    &&& new_record.metadata == old_record.metadata
    &&& new_record.paused_at == old_record.paused_at
    &&& new_record.resumed_at == old_record.resumed_at
    &&& struck_off(before, after, id)
    &&& after.extended == before.extended.push(DataKey::Delegation(id))
}

/// Pausing succeeds if and only if the delegation is there and active, its owner
/// has authorized it, its expiry lies ahead, and its version can grow. The
/// delegation is then paused at that time, and stays registered as it was.
pub proof fn law_pausing(manager: ManagerView, env: EnvView, id: u64)
    ensures
        ({
            let now = env.timestamp;
            let outcome = manager.pause(env, id);
            let there = manager.delegations.contains_key(id);
            let before = manager.delegations[id];
            let ahead = before.expires_at matches Some(time) ==> now < time;
            let active = before.status == DelegationStatus::Active;
            let signed = env.authorized(before.owner);
            &&& outcome is Ok <==> there && signed && ahead && active && before.version < u32::MAX
            &&& !there ==> outcome->Err_0 == DelegationError::DelegationNotFound
            &&& there && before.version < u32::MAX ==> {
                &&& !signed ==> outcome->Err_0 == DelegationError::Unauthorized(before.owner)
                &&& signed && !ahead ==> outcome->Err_0 == DelegationError::PauseExpired
                &&& signed && ahead && !active ==> outcome->Err_0 == DelegationError::NotActive
            }
            &&& there && ahead ==> {
                &&& !signed ==> outcome->Err_0 == DelegationError::Unauthorized(before.owner)
                &&& signed && !active ==> outcome->Err_0 == DelegationError::NotActive
                &&& signed && active && before.version == u32::MAX ==> outcome->Err_0
                    == DelegationError::VersionOverflow
            }
            &&& outcome matches Ok(after) ==> {
                &&& one_changed(manager, after, id, now, DelegationChange::Paused)
                &&& after.delegations[id].status == DelegationStatus::Paused
                &&& after.delegations[id].paused_at == Some(now)
                &&& after.delegations[id].resumed_at == before.resumed_at
                &&& after.delegations[id].revoked_at == before.revoked_at
                &&& after.delegations[id].metadata == before.metadata
                &&& after.active == manager.active
                &&& after.extended == manager.extended + seq![
                    DataKey::Delegation(id),
                    DataKey::Delegation(id),
                ]
            }
        }),
{
}

/// Resuming succeeds if and only if the delegation is there and paused, its
/// owner has authorized it, its expiry lies ahead, and its version can grow. The
/// delegation is then active, resumed at that time, and stays registered as it
/// was.
pub proof fn law_resuming(manager: ManagerView, env: EnvView, id: u64)
    ensures
        ({
            let now = env.timestamp;
            let outcome = manager.resume(env, id);
            let there = manager.delegations.contains_key(id);
            let before = manager.delegations[id];
            let ahead = before.expires_at matches Some(time) ==> now < time;
            let paused = before.status == DelegationStatus::Paused;
            let signed = env.authorized(before.owner);
            &&& outcome is Ok <==> there && signed && ahead && paused && before.version < u32::MAX
            &&& !there ==> outcome->Err_0 == DelegationError::DelegationNotFound
            &&& there && before.version < u32::MAX ==> {
                &&& !signed ==> outcome->Err_0 == DelegationError::Unauthorized(before.owner)
                &&& signed && !ahead ==> outcome->Err_0 == DelegationError::ResumeExpired
                &&& signed && ahead && !paused ==> outcome->Err_0 == DelegationError::NotPaused
            }
            &&& there && ahead ==> {
                &&& !signed ==> outcome->Err_0 == DelegationError::Unauthorized(before.owner)
                &&& signed && !paused ==> outcome->Err_0 == DelegationError::NotPaused
                &&& signed && paused && before.version == u32::MAX ==> outcome->Err_0
                    == DelegationError::VersionOverflow
            }
            &&& outcome matches Ok(after) ==> {
                &&& one_changed(manager, after, id, now, DelegationChange::Resumed)
                &&& after.delegations[id].status == DelegationStatus::Active
                &&& after.delegations[id].resumed_at == Some(now)
                &&& after.delegations[id].paused_at == before.paused_at
                &&& after.delegations[id].revoked_at == before.revoked_at
                &&& after.delegations[id].metadata == before.metadata
                &&& after.active == manager.active
                &&& after.extended == manager.extended + seq![
                    DataKey::Delegation(id),
                    DataKey::Delegation(id),
                ]
            }
        }),
{
}

/// Describing anew succeeds if and only if the delegation is there and not
/// revoked, its owner has authorized it, its expiry lies ahead, and its version
/// can grow. The delegation then has exactly the given description, and the
/// status that it had.
pub proof fn law_description(manager: ManagerView, env: EnvView, id: u64, metadata: MetadataView)
    ensures
        ({
            let now = env.timestamp;
            let outcome = manager.update(env, id, metadata);
            let there = manager.delegations.contains_key(id);
            let before = manager.delegations[id];
            let ahead = before.expires_at matches Some(time) ==> now < time;
            let revoked = before.status == DelegationStatus::Revoked;
            let signed = env.authorized(before.owner);
            &&& outcome is Ok <==> there && signed && ahead && !revoked && before.version < u32::MAX
            &&& !there ==> outcome->Err_0 == DelegationError::DelegationNotFound
            &&& there && (before.version < u32::MAX || ahead || revoked) ==> {
                &&& !signed ==> outcome->Err_0 == DelegationError::Unauthorized(before.owner)
                &&& signed && revoked ==> outcome->Err_0 == DelegationError::UpdateRevoked
            }
            &&& there && signed && !revoked && !ahead && before.version < u32::MAX
                ==> outcome->Err_0 == DelegationError::UpdateExpired
            &&& there && signed && !revoked && ahead && before.version == u32::MAX
                ==> outcome->Err_0 == DelegationError::VersionOverflow
            &&& outcome matches Ok(after) ==> {
                &&& one_changed(manager, after, id, now, DelegationChange::Updated)
                &&& after.delegations[id].metadata == metadata
                &&& after.delegations[id].status == before.status
                &&& after.delegations[id].paused_at == before.paused_at
                &&& after.delegations[id].resumed_at == before.resumed_at
                &&& after.delegations[id].revoked_at == before.revoked_at
                &&& after.active == manager.active
                &&& after.extended == manager.extended + seq![
                    DataKey::Delegation(id),
                    DataKey::Delegation(id),
                ]
            }
        }),
{
}

/// Pausing, resuming and describing anew begin with the expiry step: where the
/// delegation is due and its version cannot grow, they fail for that.
pub proof fn law_expiry_comes_first(
    manager: ManagerView,
    env: EnvView,
    id: u64,
    metadata: MetadataView,
    time: u64,
)
    requires
        manager.delegations.contains_key(id),
        manager.delegations[id].version == u32::MAX,
        manager.delegations[id].expires_at == Some(time),
        time <= env.timestamp,
        manager.delegations[id].status != DelegationStatus::Revoked,
        manager.delegations[id].status != DelegationStatus::Expired,
    ensures
        manager.pause(env, id)->Err_0 == DelegationError::VersionOverflow,
        manager.resume(env, id)->Err_0 == DelegationError::VersionOverflow,
        manager.update(env, id, metadata)->Err_0 == DelegationError::VersionOverflow,
{
}

/// The delegation is pending, active or paused, and its expiry has come.
pub open spec fn overdue(manager: ManagerView, id: u64, now: u64) -> bool {
    &&& manager.delegations.contains_key(id)
    &&& manager.delegations[id].status == DelegationStatus::Pending || manager.delegations[id].status
        == DelegationStatus::Active || manager.delegations[id].status == DelegationStatus::Paused
    &&& manager.delegations[id].expires_at matches Some(time) && time <= now
}

/// The delegation was marked as expired and struck off the registry, and that
/// was published.
pub open spec fn marked_expired(before: ManagerView, after: ManagerView, id: u64, now: u64) -> bool {
    &&& one_changed(before, after, id, now, DelegationChange::Expired)
    &&& same_marks(before.delegations[id], after.delegations[id])
    &&& after.delegations[id].status == DelegationStatus::Expired
    &&& struck_off(before, after, id)
}

/// The counter, the delegations, the registry and the events are the same.
pub open spec fn unmoved(before: ManagerView, after: ManagerView) -> bool {
    &&& after.counter == before.counter
    &&& after.delegations == before.delegations
    &&& after.active == before.active
    &&& after.events == before.events
}

/// The expiry check marks a delegation as expired if and only if it is pending,
/// active or paused and its expiry has come. It fails only where the version of
/// such a delegation cannot grow, and otherwise changes nothing.
pub proof fn law_expiry(manager: ManagerView, id: u64, now: u64)
    ensures
        manager.due(id, now) <==> overdue(manager, id, now),
        manager.refresh(id, now) is Err <==> overdue(manager, id, now)
            && manager.delegations[id].version == u32::MAX,
        manager.refresh(id, now) is Err ==> manager.refresh(id, now)->Err_0
            == DelegationError::VersionOverflow,
        manager.refresh(id, now) matches Ok(after) ==> {
            &&& if overdue(manager, id, now) {
                marked_expired(manager, after, id, now)
            } else {
                unmoved(manager, after)
            }
            &&& after.extended == (if manager.delegations.contains_key(id) {
                manager.extended.push(DataKey::Delegation(id))
            } else {
                manager.extended
            })
        },
{
}

/// A delegation is said to be active if and only if its status is `Active` and
/// its expiry lies ahead. Asking marks it as expired where that is due.
pub proof fn law_activity(manager: ManagerView, id: u64, now: u64)
    ensures
        manager.ask_in_force(now, id) is Err <==> overdue(manager, id, now)
            && manager.delegations[id].version == u32::MAX,
        manager.ask_in_force(now, id) is Err ==> manager.ask_in_force(now, id)->Err_0
            == DelegationError::VersionOverflow,
        manager.ask_in_force(now, id) matches Ok((after, answer)) ==> {
            &&& answer <==> {
                &&& manager.delegations.contains_key(id)
                &&& manager.delegations[id].status == DelegationStatus::Active
                &&& manager.delegations[id].expires_at matches Some(time) ==> now < time
            }
            &&& if overdue(manager, id, now) {
                marked_expired(manager, after, id, now)
            } else {
                unmoved(manager, after)
            }
            &&& after.extended == (if manager.delegations.contains_key(id) {
                manager.extended + seq![DataKey::Delegation(id), DataKey::Delegation(id)]
            } else {
                manager.extended
            })
        },
{
}

/// The delegation given for a pair is the registered one, unless it is marked as
/// expired or its expiry has come.
pub proof fn law_registry(manager: ManagerView, pair: Pair, now: u64)
    ensures
        ({
            let id = manager.active[pair];
            let record = manager.delegations[id];
            let outcome = manager.ask_registered(now, pair);
            &&& outcome is Err <==> manager.active.contains_key(pair) && overdue(manager, id, now)
                && record.version == u32::MAX
            &&& outcome is Err ==> outcome->Err_0 == DelegationError::VersionOverflow
            &&& outcome matches Ok((after, answer)) ==> {
                &&& answer is Some <==> {
                    &&& manager.active.contains_key(pair)
                    &&& manager.delegations.contains_key(id) ==> {
                        &&& record.status != DelegationStatus::Expired
                        &&& record.expires_at matches Some(time) ==> now < time
                    }
                }
                &&& answer matches Some(given) ==> given == id && unmoved(manager, after)
                &&& !manager.active.contains_key(pair) ==> after == manager
                &&& manager.active.contains_key(pair) ==> after.extended == (
                if manager.delegations.contains_key(id) {
                    manager.extended + seq![
                        DataKey::ActiveDelegation(pair.owner, pair.delegate),
                        DataKey::Delegation(id),
                        DataKey::Delegation(id),
                    ]
                } else {
                    manager.extended.push(DataKey::ActiveDelegation(pair.owner, pair.delegate))
                })
                &&& manager.active.contains_key(pair) && overdue(manager, id, now)
                    ==> marked_expired(manager, after, id, now)
                &&& manager.active.contains_key(pair) && manager.delegations.contains_key(id)
                    && record.status == DelegationStatus::Expired ==> unmoved(manager, after)
                &&& manager.active.contains_key(pair) && manager.delegations.contains_key(id)
                    && record.status == DelegationStatus::Revoked && !(record.expires_at matches Some(
                    time,
                ) ==> now < time) ==> {
                    &&& after.active == manager.active.remove(pair)
                    &&& after.delegations == manager.delegations
                    &&& after.events == manager.events
                    &&& after.counter == manager.counter
                }
            }
        }),
{
}

/// Authority is confirmed if and only if the delegation registered for the pair
/// is active and its expiry lies ahead.
pub proof fn law_authority_by_the_registry(manager: ManagerView, pair: Pair, now: u64)
    ensures
        ({
            let id = manager.active[pair];
            let record = manager.delegations[id];
            let outcome = manager.ask_authority(now, pair);
            &&& outcome is Err <==> manager.active.contains_key(pair) && overdue(manager, id, now)
                && record.version == u32::MAX
            &&& outcome is Err ==> outcome->Err_0 == DelegationError::VersionOverflow
            &&& outcome matches Ok((after, answer)) ==> {
                &&& answer <==> {
                    &&& manager.active.contains_key(pair)
                    &&& manager.delegations.contains_key(id)
                    &&& record.status == DelegationStatus::Active
                    &&& record.expires_at matches Some(time) ==> now < time
                }
                &&& answer ==> unmoved(manager, after)
                &&& !manager.active.contains_key(pair) ==> after == manager
                &&& manager.active.contains_key(pair) && overdue(manager, id, now)
                    ==> marked_expired(manager, after, id, now)
                &&& manager.active.contains_key(pair) && !overdue(manager, id, now) ==> {
                    &&& after.delegations == manager.delegations
                    &&& after.events == manager.events
                    &&& after.counter == manager.counter
                }
                &&& manager.active.contains_key(pair) ==> after.extended == manager.extended + (
                if !manager.delegations.contains_key(id) {
                    seq![DataKey::ActiveDelegation(pair.owner, pair.delegate)]
                } else if record.status != DelegationStatus::Expired && (
                record.expires_at matches Some(time) ==> now < time) {
                    seq![
                        DataKey::ActiveDelegation(pair.owner, pair.delegate),
                        DataKey::Delegation(id),
                        DataKey::Delegation(id),
                        DataKey::Delegation(id),
                        DataKey::Delegation(id),
                        DataKey::Delegation(id),
                    ]
                } else {
                    seq![
                        DataKey::ActiveDelegation(pair.owner, pair.delegate),
                        DataKey::Delegation(id),
                        DataKey::Delegation(id),
                    ]
                })
            }
        }),
{
    law_registry(manager, pair, now);
}

/// In a sound manager, authority is confirmed if and only if some delegation of
/// the owner to the delegate is active and its expiry lies ahead.
pub proof fn law_authority_in_seconds(manager: ManagerView, pair: Pair, now: u64)
    requires
        manager.sound(now),
        manager.ask_authority(now, pair) is Ok,
    ensures
        manager.ask_authority(now, pair)->Ok_0.1 <==> exists|id: u64| #[trigger]
            manager.delegations.contains_key(id) && {
                let record = manager.delegations[id];
                &&& record.owner == pair.owner
                &&& record.delegate == pair.delegate
                &&& record.status == DelegationStatus::Active
                &&& record.expires_at matches Some(time) ==> now < time
            },
{
    law_authority_by_the_registry(manager, pair, now);
    if manager.ask_authority(now, pair)->Ok_0.1 {
        let id = manager.active[pair];
        assert(manager.delegations.contains_key(id));
        assert(manager.delegations[id].pair() == pair);
    }
    assert forall|id: u64| #[trigger] manager.delegations.contains_key(id) && {
        let record = manager.delegations[id];
        &&& record.owner == pair.owner
        &&& record.delegate == pair.delegate
        &&& record.status == DelegationStatus::Active
        &&& record.expires_at matches Some(time) ==> now < time
    } implies manager.ask_authority(now, pair)->Ok_0.1 by {
        assert(manager.delegations[id].pair() == pair);
        assert(manager.registered(pair, id));
    }
}

/// The content given for a pair is that of the delegation which the registry
/// gives; as the active one it is given if and only if it is active and its
/// expiry lies ahead.
pub proof fn law_content_by_pair(manager: ManagerView, pair: Pair, now: u64)
    ensures
        ({
            let id = manager.active[pair];
            let record = manager.delegations[id];
            let found = manager.ask_by_pair(now, pair);
            let active = manager.ask_active(now, pair);
            let fails = manager.active.contains_key(pair) && overdue(manager, id, now)
                && record.version == u32::MAX;
            &&& found is Err <==> fails
            &&& active is Err <==> fails
            &&& found is Err ==> found->Err_0 == DelegationError::VersionOverflow
            &&& active is Err ==> active->Err_0 == DelegationError::VersionOverflow
            &&& found matches Ok((after, answer)) ==> {
                &&& answer is Some <==> {
                    &&& manager.active.contains_key(pair)
                    &&& manager.delegations.contains_key(id)
                    &&& record.status != DelegationStatus::Expired
                    &&& record.expires_at matches Some(time) ==> now < time
                }
                &&& answer matches Some(given) ==> given == record && unmoved(manager, after)
                &&& manager.active.contains_key(pair) && overdue(manager, id, now)
                    ==> marked_expired(manager, after, id, now)
                &&& manager.active.contains_key(pair) && !overdue(manager, id, now)
                    ==> after.delegations == manager.delegations && after.events == manager.events
                &&& !manager.active.contains_key(pair) ==> after == manager
                &&& manager.active.contains_key(pair) ==> after.extended == manager.extended + (
                if !manager.delegations.contains_key(id) {
                    seq![DataKey::ActiveDelegation(pair.owner, pair.delegate)]
                } else if answer is Some {
                    seq![
                        DataKey::ActiveDelegation(pair.owner, pair.delegate),
                        DataKey::Delegation(id),
                        DataKey::Delegation(id),
                        DataKey::Delegation(id),
                        DataKey::Delegation(id),
                    ]
                } else {
                    seq![
                        DataKey::ActiveDelegation(pair.owner, pair.delegate),
                        DataKey::Delegation(id),
                        DataKey::Delegation(id),
                    ]
                })
            }
            &&& active matches Ok((after, answer)) ==> {
                &&& answer is Some <==> {
                    &&& manager.active.contains_key(pair)
                    &&& manager.delegations.contains_key(id)
                    &&& record.status == DelegationStatus::Active
                    &&& record.expires_at matches Some(time) ==> now < time
                }
                &&& answer matches Some(given) ==> given == record && unmoved(manager, after)
                &&& found matches Ok((same, _)) && same == after
            }
        }),
{
    law_registry(manager, pair, now);
}

/// The content of a record is what the record holds, field by field.
pub proof fn law_content(
    metadata: DelegationMetadata,
    delegation: Delegation,
    manager: DelegationManager,
)
    ensures
        metadata@.label == metadata.label@,
        metadata@.strategy_id == metadata.strategy_id,
        metadata@.description is Some <==> metadata.description is Some,
        metadata.description matches Some(text) ==> metadata@.description == Some(text@),
        metadata@.tags.len() == metadata.tags@.len(),
        forall|i: int|
            0 <= i < metadata.tags@.len() ==> #[trigger] metadata@.tags[i] == metadata.tags@[i]@,
        delegation@.id == delegation.id,
        delegation@.owner == delegation.owner,
        delegation@.delegate == delegation.delegate,
        delegation@.status == delegation.status,
        delegation@.metadata == delegation.metadata@,
        delegation@.version == delegation.version,
        delegation@.expires_at == delegation.expires_at,
        delegation@.created_at == delegation.created_at,
        delegation@.updated_at == delegation.updated_at,
        delegation@.paused_at == delegation.paused_at,
        delegation@.resumed_at == delegation.resumed_at,
        delegation@.revoked_at == delegation.revoked_at,
        manager@.counter == manager.counter,
        manager@.delegations == manager.delegations@,
        manager@.active == manager.active@,
        manager@.events == manager.events@,
        manager@.extended == manager.extended@,
        option_view(Some(delegation)) == Some(delegation@),
        option_view(None) is None,
{
}

/// The topic of every event.
pub proof fn law_topics()
    ensures
        DelegationChange::Created.topic_text() == "delegation_created"@,
        DelegationChange::Accepted.topic_text() == "delegation_accepted"@,
        DelegationChange::Revoked.topic_text() == "delegation_revoked"@,
        DelegationChange::Renounced.topic_text() == "delegation_renounced"@,
        DelegationChange::Paused.topic_text() == "delegation_paused"@,
        DelegationChange::Resumed.topic_text() == "delegation_resumed"@,
        DelegationChange::Updated.topic_text() == "delegation_updated"@,
        DelegationChange::Expired.topic_text() == "delegation_expired"@,
{
}

/// The message of every refusal.
pub proof fn law_messages(address: Address)
    ensures
        DelegationError::Unauthorized(address).message_text() == "not authorized"@,
        DelegationError::SelfDelegation.message_text() == "owner cannot delegate to self"@,
        DelegationError::ExpiryNotInFuture.message_text() == "expiry must be in the future"@,
        DelegationError::DuplicateDelegation.message_text()
            == "duplicate active/paused delegation not allowed"@,
        DelegationError::VersionOverflow.message_text() == "version overflow"@,
        DelegationError::DelegationNotFound.message_text() == "delegation does not exist"@,
        DelegationError::AcceptExpired.message_text() == "cannot accept an expired delegation"@,
        DelegationError::NotPending.message_text() == "delegation must be pending to accept"@,
        DelegationError::AlreadyRevoked.message_text() == "delegation already revoked"@,
        DelegationError::PauseExpired.message_text() == "cannot pause an expired delegation"@,
        DelegationError::NotActive.message_text() == "delegation must be active to pause"@,
        DelegationError::ResumeExpired.message_text() == "cannot resume an expired delegation"@,
        DelegationError::NotPaused.message_text() == "delegation must be paused to resume"@,
        DelegationError::UpdateRevoked.message_text()
            == "cannot update metadata of a revoked delegation"@,
        DelegationError::UpdateExpired.message_text()
            == "cannot update metadata of an expired delegation"@,
{
}

/// An entry is extended to half a million ledgers once fewer than a hundred
/// thousand are left.
pub proof fn law_extension()
    ensures
        BUMP_THRESHOLD == 100_000,
        BUMP_LIMIT == 500_000,
{
}

} // verus!
