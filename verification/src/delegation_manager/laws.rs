//! What holds of the delegation manager over any series of requests.

use super::model::ManagerView;
use super::types::{DelegationError, DelegationStatus, DelegationView, MetadataView, Pair};
use crate::ledger::EnvView;
use vstd::prelude::*;

verus! {

/// A request to the delegation manager.
pub enum ManagerRequest {
    Create { pair: Pair, metadata: MetadataView, expires_at: Option<u64> },
    Accept(u64),
    Revoke(u64),
    Renounce(u64),
    Pause(u64),
    Resume(u64),
    Update(u64, MetadataView),
    CheckAndExpire(u64),
    Read(u64),
    ReadAll(Seq<u64>),
    IsActive(u64),
    GetActiveId(Pair),
    VerifyAuthority(Pair),
    GetActive(Pair),
    GetByPair(Pair),
}

impl ManagerView {
    /// The state after a request, or why it is refused.
    pub open spec fn after(self, env: EnvView, request: ManagerRequest) -> Result<
        ManagerView,
        DelegationError,
    > {
        match request {
            ManagerRequest::Create { pair, metadata, expires_at } => state_of(
                self.create(env, pair, metadata, expires_at),
            ),
            ManagerRequest::Accept(id) => self.accept(env, id),
            ManagerRequest::Revoke(id) => self.revoke(env, id),
            ManagerRequest::Renounce(id) => self.renounce(env, id),
            ManagerRequest::Pause(id) => self.pause(env, id),
            ManagerRequest::Resume(id) => self.resume(env, id),
            ManagerRequest::Update(id, metadata) => self.update(env, id, metadata),
            ManagerRequest::CheckAndExpire(id) => self.refresh(id, env.timestamp),
            ManagerRequest::Read(id) => Ok(self.read(id)),
            ManagerRequest::ReadAll(ids) => Ok(self.read_all(ids)),
            ManagerRequest::IsActive(id) => state_of(self.ask_in_force(env.timestamp, id)),
            ManagerRequest::GetActiveId(pair) => state_of(
                self.ask_registered(env.timestamp, pair),
            ),
            ManagerRequest::VerifyAuthority(pair) => state_of(
                self.ask_authority(env.timestamp, pair),
            ),
            ManagerRequest::GetActive(pair) => state_of(self.ask_active(env.timestamp, pair)),
            ManagerRequest::GetByPair(pair) => state_of(self.ask_by_pair(env.timestamp, pair)),
        }
    }

    /// What holds of the manager at the time `now`, after any requests:
    /// delegations are numbered from 1 to the counter without gaps and are
    /// between two addresses; the registry has a delegation of the pair, neither
    /// revoked nor marked as expired; and every live delegation is in the
    /// registry.
    pub open spec fn sound(self, now: u64) -> bool {
        &&& forall|id: u64| #[trigger]
            self.delegations.contains_key(id) ==> {
                let delegation = self.delegations[id];
                &&& delegation.id == id
                &&& 1 <= id <= self.latest()
                &&& delegation.owner != delegation.delegate
                &&& delegation.version >= 1
                &&& delegation.created_at <= delegation.updated_at <= now
                &&& delegation.live(now) ==> self.registered(delegation.pair(), id)
            }
        &&& forall|id: u64|
            1 <= id <= self.latest() ==> #[trigger] self.delegations.contains_key(id)
        &&& forall|pair: Pair| #[trigger]
            self.active.contains_key(pair) ==> {
                let id = self.active[pair];
                &&& self.delegations.contains_key(id)
                &&& self.delegations[id].pair() == pair
                &&& self.delegations[id].status != DelegationStatus::Revoked
                &&& self.delegations[id].status != DelegationStatus::Expired
            }
    }

    /// There is a delegation in force for the pair.
    pub open spec fn has_authority(self, pair: Pair, now: u64) -> bool {
        exists|id: u64| #[trigger]
            self.delegations.contains_key(id) && self.delegations[id].pair() == pair
                && self.delegations[id].in_force(now)
    }
}

/// The state that a request with an answer leaves.
pub open spec fn state_of<T>(outcome: Result<(ManagerView, T), DelegationError>) -> Result<
    ManagerView,
    DelegationError,
> {
    match outcome {
        Ok((state, _)) => Ok(state),
        Err(error) => Err(error),
    }
}

/// The later record is the earlier one, or the earlier one changed once.
pub open spec fn succeeds(before: DelegationView, after: DelegationView, now: u64) -> bool {
    ||| after == before
    ||| {
        &&& after.id == before.id
        &&& after.owner == before.owner
        &&& after.delegate == before.delegate
        &&& after.created_at == before.created_at
        &&& after.expires_at == before.expires_at
        &&& after.version == before.version + 1
        &&& after.updated_at == now
    }
}

/// A manager without delegations is sound.
pub proof fn law_empty_is_sound(now: u64)
    ensures
        ManagerView::empty().sound(now),
{
}

/// Time passing leaves the manager sound.
proof fn lemma_sound_later(manager: ManagerView, then: u64, now: u64)
    requires
        manager.sound(then),
        then <= now,
    ensures
        manager.sound(now),
{
    assert forall|id: u64| #[trigger] manager.delegations.contains_key(id) implies ({
        let delegation = manager.delegations[id];
        delegation.live(now) ==> delegation.live(then)
    }) by {}
}

/// The two states differ at most in what was extended.
spec fn same_books(a: ManagerView, b: ManagerView) -> bool {
    &&& a.counter == b.counter
    &&& a.delegations == b.delegations
    &&& a.active == b.active
    &&& a.events == b.events
}

/// The request asks for something and authorizes no change.
pub open spec fn is_question(request: ManagerRequest) -> bool {
    match request {
        ManagerRequest::Create { .. } => false,
        ManagerRequest::Accept(_) => false,
        ManagerRequest::Revoke(_) => false,
        ManagerRequest::Renounce(_) => false,
        ManagerRequest::Pause(_) => false,
        ManagerRequest::Resume(_) => false,
        ManagerRequest::Update(_, _) => false,
        _ => true,
    }
}

/// The delegation that a question is about.
spec fn subject(manager: ManagerView, request: ManagerRequest) -> u64 {
    match request {
        ManagerRequest::CheckAndExpire(id) => id,
        ManagerRequest::Read(id) => id,
        ManagerRequest::IsActive(id) => id,
        ManagerRequest::GetActiveId(pair) => manager.active[pair],
        ManagerRequest::VerifyAuthority(pair) => manager.active[pair],
        ManagerRequest::GetActive(pair) => manager.active[pair],
        ManagerRequest::GetByPair(pair) => manager.active[pair],
        _ => arbitrary(),
    }
}

/// The books after a question: those before it, or those in which its subject
/// has expired.
spec fn answered(manager: ManagerView, after: ManagerView, id: u64, now: u64) -> bool {
    ||| same_books(after, manager)
    ||| {
        &&& manager.due(id, now)
        &&& manager.delegations[id].version < u32::MAX
        &&& same_books(after, manager.expire(id, now))
    }
}

proof fn lemma_registered_answered(manager: ManagerView, then: u64, now: u64, pair: Pair)
    requires
        manager.sound(then),
        manager.ask_registered(now, pair) is Ok,
    ensures
        answered(manager, manager.ask_registered(now, pair)->Ok_0.0, manager.active[pair], now),
        manager.ask_registered(now, pair)->Ok_0.1 matches Some(id) ==> {
            &&& id == manager.active[pair]
            &&& manager.active.contains_key(pair)
            &&& manager.delegations.contains_key(id)
            &&& !manager.delegations[id].past_expiry(now)
            &&& same_books(manager.ask_registered(now, pair)->Ok_0.0, manager)
        },
{
}

proof fn lemma_question_answered(
    manager: ManagerView,
    then: u64,
    env: EnvView,
    request: ManagerRequest,
)
    requires
        manager.sound(then),
        is_question(request),
        manager.after(env, request) is Ok,
    ensures
        answered(
            manager,
            manager.after(env, request)->Ok_0,
            subject(manager, request),
            env.timestamp,
        ),
{
    let now = env.timestamp;
    match request {
        ManagerRequest::GetActiveId(pair) => lemma_registered_answered(manager, then, now, pair),
        ManagerRequest::VerifyAuthority(pair) => lemma_registered_answered(
            manager,
            then,
            now,
            pair,
        ),
        ManagerRequest::GetActive(pair) => lemma_registered_answered(manager, then, now, pair),
        ManagerRequest::GetByPair(pair) => lemma_registered_answered(manager, then, now, pair),
        _ => {},
    }
}

/// What a request can make of a delegation.
pub open spec fn transition(before: DelegationView, after: DelegationView, env: EnvView) -> bool {
    let now = env.timestamp;
    ||| after == before
    ||| {
        &&& before.version < u32::MAX
        &&& {
            ||| {
                &&& before.lapses(now)
                &&& after == before.changed(DelegationStatus::Expired, now)
            }
            ||| {
                &&& before.status == DelegationStatus::Pending
                &&& !before.past_expiry(now)
                &&& env.authorized(before.delegate)
                &&& after == before.changed(DelegationStatus::Active, now)
            }
            ||| {
                &&& before.status != DelegationStatus::Revoked
                &&& env.authorized(before.owner) || env.authorized(before.delegate)
                &&& after == before.revoked(now)
            }
            ||| {
                &&& before.status == DelegationStatus::Active
                &&& !before.past_expiry(now)
                &&& env.authorized(before.owner)
                &&& after == before.paused(now)
            }
            ||| {
                &&& before.status == DelegationStatus::Paused
                &&& !before.past_expiry(now)
                &&& env.authorized(before.owner)
                &&& after == before.resumed(now)
            }
            ||| {
                &&& before.status != DelegationStatus::Revoked
                &&& !before.past_expiry(now)
                &&& env.authorized(before.owner)
                &&& after == before.revised(after.metadata, now)
            }
        }
    }
}

/// The life of a delegation: no request removes it, and each leaves it as it
/// is or takes it one step on. It expires when its time has come; its delegate
/// accepts it while it is pending; its owner or its delegate withdraws it for
/// good; its owner pauses it while it is active, resumes it while it is
/// paused, and describes it anew until it is revoked or its time has come.
pub proof fn law_life_of_a_delegation(
    manager: ManagerView,
    then: u64,
    env: EnvView,
    request: ManagerRequest,
    id: u64,
)
    requires
        manager.sound(then),
        manager.after(env, request) is Ok,
        manager.delegations.contains_key(id),
    ensures
        manager.after(env, request)->Ok_0.delegations.contains_key(id),
        transition(manager.delegations[id], manager.after(env, request)->Ok_0.delegations[id], env),
{
    if is_question(request) {
        lemma_question_answered(manager, then, env, request);
    }
}

/// A delegation appears only where its owner creates it, and is pending then.
pub proof fn law_birth_of_a_delegation(
    manager: ManagerView,
    then: u64,
    env: EnvView,
    request: ManagerRequest,
    id: u64,
)
    requires
        manager.sound(then),
        manager.after(env, request) is Ok,
        !manager.delegations.contains_key(id),
        manager.after(env, request)->Ok_0.delegations.contains_key(id),
    ensures
        ({
            let created = manager.after(env, request)->Ok_0.delegations[id];
            &&& created.status == DelegationStatus::Pending
            &&& created.version == 1
            &&& created.created_at == env.timestamp
            &&& !created.past_expiry(env.timestamp)
            &&& env.authorized(created.owner)
            &&& request matches ManagerRequest::Create { pair, metadata, expires_at }
                && created.pair() == pair && created.metadata == metadata && created.expires_at
                == expires_at
        }),
{
    if is_question(request) {
        lemma_question_answered(manager, then, env, request);
    }
}

/// Every request leaves a sound manager sound, provided that the clock does
/// not run backwards.
pub proof fn law_requests_keep_soundness(
    manager: ManagerView,
    then: u64,
    env: EnvView,
    request: ManagerRequest,
)
    requires
        manager.sound(then),
        then <= env.timestamp,
        manager.after(env, request) is Ok,
    ensures
        manager.after(env, request)->Ok_0.sound(env.timestamp),
{
    lemma_sound_later(manager, then, env.timestamp);
    if is_question(request) {
        lemma_question_answered(manager, then, env, request);
    }
}

/// A pair never has two live delegations.
pub proof fn law_one_live_delegation_per_pair(manager: ManagerView, now: u64, a: u64, b: u64)
    requires
        manager.sound(now),
        manager.delegations.contains_key(a),
        manager.delegations.contains_key(b),
        manager.delegations[a].pair() == manager.delegations[b].pair(),
        manager.delegations[a].live(now),
        manager.delegations[b].live(now),
    ensures
        a == b,
{
}

/// A delegation is refused as a duplicate if and only if the pair has a live
/// one. So once the earlier one is revoked or expired, a new one can be made.
pub proof fn law_duplicate_exactly_when_live(
    manager: ManagerView,
    env: EnvView,
    pair: Pair,
    metadata: MetadataView,
    expires_at: Option<u64>,
)
    requires
        manager.sound(env.timestamp),
        env.authorized(pair.owner),
        pair.owner != pair.delegate,
        expires_at matches Some(time) ==> env.timestamp < time,
    ensures
        manager.create(env, pair, metadata, expires_at) == Err::<(ManagerView, u64), _>(
            DelegationError::DuplicateDelegation,
        ) <==> exists|id: u64| #[trigger]
            manager.delegations.contains_key(id) && manager.delegations[id].pair() == pair
                && manager.delegations[id].live(env.timestamp),
{
    if manager.taken(pair, env.timestamp) {
        assert(manager.delegations.contains_key(manager.active[pair]));
    }
}

/// A new delegation gets an id that none had before.
pub proof fn law_ids_are_fresh(
    manager: ManagerView,
    env: EnvView,
    pair: Pair,
    metadata: MetadataView,
    expires_at: Option<u64>,
)
    requires
        manager.sound(env.timestamp),
        manager.create(env, pair, metadata, expires_at) is Ok,
    ensures
        ({
            let (after, id) = manager.create(env, pair, metadata, expires_at)->Ok_0;
            &&& !manager.delegations.contains_key(id)
            &&& id == manager.latest() + 1
            &&& after.latest() == id
        }),
{
}

/// No request removes a delegation, and none changes its parties, its expiry
/// or its creation time. A change raises the version by one and is dated.
pub proof fn law_history_is_kept(
    manager: ManagerView,
    then: u64,
    env: EnvView,
    request: ManagerRequest,
    id: u64,
)
    requires
        manager.sound(then),
        manager.after(env, request) is Ok,
        manager.delegations.contains_key(id),
    ensures
        manager.after(env, request)->Ok_0.delegations.contains_key(id),
        succeeds(
            manager.delegations[id],
            manager.after(env, request)->Ok_0.delegations[id],
            env.timestamp,
        ),
{
    law_life_of_a_delegation(manager, then, env, request, id);
}

/// A revoked delegation stays as it is, whatever is requested.
pub proof fn law_revocation_is_permanent(
    manager: ManagerView,
    then: u64,
    env: EnvView,
    request: ManagerRequest,
    id: u64,
)
    requires
        manager.sound(then),
        manager.after(env, request) is Ok,
        manager.delegations.contains_key(id),
        manager.delegations[id].status == DelegationStatus::Revoked,
    ensures
        manager.after(env, request)->Ok_0.delegations.contains_key(id),
        manager.after(env, request)->Ok_0.delegations[id] == manager.delegations[id],
{
    law_life_of_a_delegation(manager, then, env, request, id);
}

/// A delegation marked as expired stays so until it is revoked.
pub proof fn law_expiry_is_final(
    manager: ManagerView,
    then: u64,
    env: EnvView,
    request: ManagerRequest,
    id: u64,
)
    requires
        manager.sound(then),
        manager.after(env, request) is Ok,
        manager.delegations.contains_key(id),
        manager.delegations[id].status == DelegationStatus::Expired,
    ensures
        ({
            let status = manager.after(env, request)->Ok_0.delegations[id].status;
            status == DelegationStatus::Expired || status == DelegationStatus::Revoked
        }),
{
    law_life_of_a_delegation(manager, then, env, request, id);
}

/// A delegation whose expiry time has come is not in force at any later time.
pub proof fn law_no_force_after_expiry(
    manager: ManagerView,
    then: u64,
    env: EnvView,
    request: ManagerRequest,
    id: u64,
    later: u64,
)
    requires
        manager.sound(then),
        manager.after(env, request) is Ok,
        manager.delegations.contains_key(id),
        manager.delegations[id].past_expiry(env.timestamp),
        env.timestamp <= later,
    ensures
        !manager.after(env, request)->Ok_0.delegations[id].in_force(later),
{
    law_life_of_a_delegation(manager, then, env, request, id);
}

/// A delegation changes only by expiring, by a request that its owner has
/// authorized, or by one that its delegate has authorized. The delegate's word
/// alone only accepts a pending delegation or renounces it.
pub proof fn law_changes_need_consent(
    manager: ManagerView,
    then: u64,
    env: EnvView,
    request: ManagerRequest,
    id: u64,
)
    requires
        manager.sound(then),
        manager.after(env, request) is Ok,
        manager.delegations.contains_key(id),
        manager.after(env, request)->Ok_0.delegations[id] != manager.delegations[id],
    ensures
        ({
            let before = manager.delegations[id];
            let after = manager.after(env, request)->Ok_0.delegations[id];
            ||| {
                &&& before.lapses(env.timestamp)
                &&& after == before.changed(DelegationStatus::Expired, env.timestamp)
            }
            ||| env.authorized(before.owner)
            ||| {
                &&& env.authorized(before.delegate)
                &&& before.status == DelegationStatus::Pending && after.status
                    == DelegationStatus::Active || after.status == DelegationStatus::Revoked
            }
        }),
{
    law_life_of_a_delegation(manager, then, env, request, id);
}

/// A delegate can come to act for an owner only by accepting, or by the
/// owner's resuming what the delegate once accepted: no request makes a
/// delegation active unless its delegate authorized it or it was paused.
pub proof fn law_activation_needs_acceptance(
    manager: ManagerView,
    then: u64,
    env: EnvView,
    request: ManagerRequest,
    id: u64,
)
    requires
        manager.sound(then),
        manager.after(env, request) is Ok,
        manager.after(env, request)->Ok_0.delegations.contains_key(id),
        manager.after(env, request)->Ok_0.delegations[id].status == DelegationStatus::Active,
    ensures
        manager.delegations.contains_key(id),
        ({
            let before = manager.delegations[id];
            ||| before.status == DelegationStatus::Active
            ||| before.status == DelegationStatus::Pending && env.authorized(before.delegate)
            ||| before.status == DelegationStatus::Paused && env.authorized(before.owner)
        }),
{
    if manager.delegations.contains_key(id) {
        law_life_of_a_delegation(manager, then, env, request, id);
    } else {
        law_birth_of_a_delegation(manager, then, env, request, id);
    }
}

/// Authority is confirmed if and only if a delegation is in force for the pair.
pub proof fn law_authority_is_exact(manager: ManagerView, now: u64, pair: Pair)
    requires
        manager.sound(now),
        manager.ask_authority(now, pair) is Ok,
    ensures
        manager.ask_authority(now, pair)->Ok_0.1 == manager.has_authority(pair, now),
{
    if manager.active.contains_key(pair) {
        let id = manager.active[pair];
        assert(manager.delegations.contains_key(id));
        if manager.delegations[id].in_force(now) {
            assert(manager.has_authority(pair, now));
        }
    }
}

/// An expired delegation is never given as the one that counts for a pair.
pub proof fn law_expired_is_never_given(manager: ManagerView, now: u64, pair: Pair)
    requires
        manager.sound(now),
    ensures
        manager.ask_registered(now, pair) matches Ok((_, Some(id))) ==> {
            &&& manager.delegations.contains_key(id)
            &&& manager.delegations[id].live(now)
        },
        manager.ask_by_pair(now, pair) matches Ok((_, Some(delegation))) ==> delegation.live(now)
            && delegation.pair() == pair,
        manager.ask_active(now, pair) matches Ok((_, Some(delegation))) ==> delegation.in_force(now)
            && delegation.pair() == pair,
{
}

/// Asking gives no pair authority and takes none away.
pub proof fn law_asking_changes_no_authority(
    manager: ManagerView,
    env: EnvView,
    request: ManagerRequest,
    pair: Pair,
)
    requires
        manager.sound(env.timestamp),
        is_question(request),
        manager.after(env, request) is Ok,
    ensures
        manager.after(env, request)->Ok_0.has_authority(pair, env.timestamp)
            == manager.has_authority(pair, env.timestamp),
{
    let now = env.timestamp;
    let after = manager.after(env, request)->Ok_0;
    lemma_question_answered(manager, now, env, request);
    assert forall|id: u64| #[trigger]
        manager.delegations.contains_key(id) == after.delegations.contains_key(id) by {}
    assert forall|id: u64| #[trigger] manager.delegations.contains_key(id) implies {
        &&& after.delegations.contains_key(id)
        &&& after.delegations[id].pair() == manager.delegations[id].pair()
        &&& after.delegations[id].in_force(now) == manager.delegations[id].in_force(now)
    } by {}
    if manager.has_authority(pair, now) {
        let id = choose|id: u64| #[trigger]
            manager.delegations.contains_key(id) && manager.delegations[id].pair() == pair
                && manager.delegations[id].in_force(now);
        assert(after.delegations.contains_key(id));
    }
    if after.has_authority(pair, now) {
        let id = choose|id: u64| #[trigger]
            after.delegations.contains_key(id) && after.delegations[id].pair() == pair
                && after.delegations[id].in_force(now);
        assert(manager.delegations.contains_key(id));
    }
}

/// The expiry step, with which other requests begin, does what the request for
/// an expiry check does. It fails only where the version of a delegation that is
/// due cannot grow; for an unknown id it does nothing.
pub proof fn law_expiry_step_is_the_expiry_check(manager: ManagerView, env: EnvView, id: u64)
    ensures
        manager.after(env, ManagerRequest::CheckAndExpire(id)) == manager.refresh(
            id,
            env.timestamp,
        ),
        manager.refresh(id, env.timestamp) is Err <==> manager.due(id, env.timestamp)
            && manager.delegations[id].version == u32::MAX,
        !manager.delegations.contains_key(id) ==> manager.refresh(id, env.timestamp) == Ok::<
            ManagerView,
            DelegationError,
        >(manager),
{
}

/// Once a delegation was checked for expiry, it is not pending, active or paused
/// past its expiry. A second check at the same time finds nothing due, and
/// leaves the counter, the delegations, the registry and the events as they are.
pub proof fn law_expiry_check_is_idempotent(manager: ManagerView, id: u64, now: u64)
    requires
        manager.refresh(id, now) is Ok,
    ensures
        ({
            let once = manager.refresh(id, now)->Ok_0;
            &&& !once.due(id, now)
            &&& once.delegations.contains_key(id) && once.delegations[id].past_expiry(now) ==> {
                let status = once.delegations[id].status;
                status == DelegationStatus::Expired || status == DelegationStatus::Revoked
            }
            &&& once.refresh(id, now) matches Ok(twice) && {
                &&& twice.counter == once.counter
                &&& twice.delegations == once.delegations
                &&& twice.active == once.active
                &&& twice.events == once.events
            }
        }),
{
}

/// Resuming undoes pausing: the delegation is as it was, but for the version
/// and the times of the two changes; all else is untouched.
pub proof fn law_resume_undoes_pause(manager: ManagerView, pausing: EnvView, resuming: EnvView, id: u64)
    requires
        manager.pause(pausing, id) is Ok,
        manager.delegations[id].version + 1 < u32::MAX,
        resuming.authorized(manager.delegations[id].owner),
        !manager.delegations[id].past_expiry(resuming.timestamp),
    ensures
        ({
            let paused = manager.pause(pausing, id)->Ok_0;
            let resumed = paused.resume(resuming, id)->Ok_0;
            &&& paused.resume(resuming, id) is Ok
            &&& resumed.active == manager.active
            &&& resumed.delegations == manager.delegations.insert(
                id,
                DelegationView {
                    version: (manager.delegations[id].version + 2) as u32,
                    updated_at: resuming.timestamp,
                    paused_at: Some(pausing.timestamp),
                    resumed_at: Some(resuming.timestamp),
                    ..manager.delegations[id]
                },
            )
        }),
{
    let paused = manager.pause(pausing, id)->Ok_0;
    let resumed = paused.resume(resuming, id)->Ok_0;
    assert(resumed.delegations =~= manager.delegations.insert(id, resumed.delegations[id]));
}

/// While a delegation is paused or once it is withdrawn, the delegate cannot
/// act under it.
pub proof fn law_pause_and_withdrawal_stop_the_delegate(manager: ManagerView, env: EnvView, id: u64)
    requires
        manager.sound(env.timestamp),
    ensures
        manager.pause(env, id) matches Ok(after) ==> !after.has_authority(
            manager.delegations[id].pair(),
            env.timestamp,
        ),
        manager.revoke(env, id) matches Ok(after) ==> !after.delegations[id].in_force(
            env.timestamp,
        ),
        manager.renounce(env, id) matches Ok(after) ==> !after.delegations[id].in_force(
            env.timestamp,
        ),
{
}

/// The pair that a request is about, if it is about one.
pub open spec fn concerned(manager: ManagerView, request: ManagerRequest) -> Option<Pair> {
    match request {
        ManagerRequest::Create { pair, .. } => Some(pair),
        ManagerRequest::Accept(id) | ManagerRequest::Revoke(id) | ManagerRequest::Renounce(id)
        | ManagerRequest::Pause(id) | ManagerRequest::Resume(id) | ManagerRequest::Update(id, _)
        | ManagerRequest::CheckAndExpire(id) | ManagerRequest::Read(id)
        | ManagerRequest::IsActive(id) => match manager.find(id) {
            Some(delegation) => Some(delegation.pair()),
            None => None,
        },
        ManagerRequest::ReadAll(_) => None,
        ManagerRequest::GetActiveId(pair) | ManagerRequest::VerifyAuthority(pair)
        | ManagerRequest::GetActive(pair) | ManagerRequest::GetByPair(pair) => Some(pair),
    }
}

/// A request leaves alone what it is not about: the delegations of any other
/// pair, and what the registry has for that pair.
pub proof fn law_other_pairs_are_untouched(
    manager: ManagerView,
    then: u64,
    env: EnvView,
    request: ManagerRequest,
    pair: Pair,
    id: u64,
)
    requires
        manager.sound(then),
        manager.after(env, request) is Ok,
        concerned(manager, request) != Some(pair),
    ensures
        ({
            let after = manager.after(env, request)->Ok_0;
            &&& after.active.contains_key(pair) == manager.active.contains_key(pair)
            &&& manager.active.contains_key(pair) ==> after.active[pair] == manager.active[pair]
            &&& manager.delegations.contains_key(id) && manager.delegations[id].pair() == pair ==> {
                &&& after.delegations.contains_key(id)
                &&& after.delegations[id] == manager.delegations[id]
            }
        }),
{
    if is_question(request) {
        lemma_question_answered(manager, then, env, request);
    }
}

/// Every change of a delegation is published, once, with the parties, the
/// version and the time that the delegation then has; a request that changes
/// no delegation publishes nothing.
pub proof fn law_changes_are_published(
    manager: ManagerView,
    then: u64,
    env: EnvView,
    request: ManagerRequest,
)
    requires
        manager.sound(then),
        manager.after(env, request) is Ok,
    ensures
        ({
            let after = manager.after(env, request)->Ok_0;
            let event = after.events.last();
            let changed = after.delegations[event.delegation_id];
            ||| after.delegations == manager.delegations && after.events == manager.events
            ||| {
                &&& after.events == manager.events.push(event)
                &&& after.delegations == manager.delegations.insert(event.delegation_id, changed)
                &&& event.owner == changed.owner
                &&& event.delegate == changed.delegate
                &&& event.version == changed.version
                &&& event.timestamp == changed.updated_at == env.timestamp
            }
        }),
{
    if is_question(request) {
        lemma_question_answered(manager, then, env, request);
    }
    let after = manager.after(env, request)->Ok_0;
    let event = after.events.last();
    if after.events != manager.events {
        assert(after.events =~= manager.events.push(event));
        assert(after.delegations =~= manager.delegations.insert(
            event.delegation_id,
            after.delegations[event.delegation_id],
        ));
    }
}

} // verus!
