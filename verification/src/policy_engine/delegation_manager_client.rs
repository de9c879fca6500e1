//! What the policy engine asks of a delegation manager.

use crate::delegation_manager::{DelegationError, DelegationManager, ManagerView};
use crate::ledger::{Address, Env};
use vstd::prelude::*;

verus! {

/// A delegation manager that can be asked about its delegations.
pub trait DelegationManagerInterface: Sized {
    /// What the answers of the manager depend on, and what a question can
    /// change.
    type State;

    spec fn state(&self) -> Self::State;

    /// The state that [`Self::delegation_exists`] leaves, and its answer.
    spec fn ask_exists(state: Self::State, delegation_id: u64) -> (Self::State, bool);

    /// The state that [`Self::is_active_delegation`] leaves at the time `now`,
    /// and its answer.
    spec fn ask_active(state: Self::State, now: u64, delegation_id: u64) -> Result<
        (Self::State, bool),
        DelegationError,
    >;

    /// The state that [`Self::get_owner`] leaves, and its answer.
    spec fn ask_owner(state: Self::State, delegation_id: u64) -> (Self::State, Option<Address>);

    fn delegation_exists(&mut self, env: &Env, delegation_id: u64) -> (r: bool)
        ensures
            Self::ask_exists(old(self).state(), delegation_id) == (final(self).state(), r),
    ;

    fn is_active_delegation(&mut self, env: &Env, delegation_id: u64) -> (r: Result<
        bool,
        DelegationError,
    >)
        ensures
            match Self::ask_active(old(self).state(), env.timestamp, delegation_id) {
                Ok((after, answer)) => r == Ok::<bool, DelegationError>(answer) && final(
                    self).state() == after,
                Err(error) => r == Err::<bool, DelegationError>(error) && final(self).state()
                    == old(self).state(),
            },
    ;

    fn get_owner(&mut self, env: &Env, delegation_id: u64) -> (r: Option<Address>)
        ensures
            Self::ask_owner(old(self).state(), delegation_id) == (final(self).state(), r),
    ;

    /// The manager as it is, to go back to where a request is refused.
    fn duplicate(&self) -> (copy: Self)
        ensures
            copy.state() == self.state(),
    ;
}

/// The answer to a question that can fail, without the state that it leaves.
pub open spec fn answer_of<S>(asked: Result<(S, bool), DelegationError>) -> Result<
    bool,
    DelegationError,
> {
    match asked {
        Ok((_, answer)) => Ok(answer),
        Err(error) => Err(error),
    }
}

impl DelegationManagerInterface for DelegationManager {
    type State = ManagerView;

    open spec fn state(&self) -> ManagerView {
        self@
    }

    open spec fn ask_exists(state: ManagerView, delegation_id: u64) -> (ManagerView, bool) {
        (state.read(delegation_id), state.delegations.contains_key(delegation_id))
    }

    open spec fn ask_active(state: ManagerView, now: u64, delegation_id: u64) -> Result<
        (ManagerView, bool),
        DelegationError,
    > {
        state.ask_in_force(now, delegation_id)
    }

    open spec fn ask_owner(state: ManagerView, delegation_id: u64) -> (
        ManagerView,
        Option<Address>,
    ) {
        (
            state.read(delegation_id),
            match state.find(delegation_id) {
                Some(delegation) => Some(delegation.owner),
                None => None,
            },
        )
    }

    fn delegation_exists(&mut self, env: &Env, delegation_id: u64) -> (r: bool) {
        DelegationManager::delegation_exists(self, delegation_id)
    }

    fn is_active_delegation(&mut self, env: &Env, delegation_id: u64) -> (r: Result<
        bool,
        DelegationError,
    >) {
        DelegationManager::is_active_delegation(self, env, delegation_id)
    }

    fn get_owner(&mut self, env: &Env, delegation_id: u64) -> (r: Option<Address>) {
        DelegationManager::get_owner(self, delegation_id)
    }

    fn duplicate(&self) -> (copy: Self) {
        self.clone()
    }
}

} // verus!
