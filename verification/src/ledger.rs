//! What a contract sees of the ledger that invokes it.

use vstd::prelude::*;

verus! {

/// Whether an address names an account or a contract.
#[derive(Clone, Copy, Debug, PartialEq, Eq, Structural)]
pub enum AddressKind {
    Account,
    Contract,
}

/// The address of an account (its public key) or of a contract (its hash).
///
/// The 32 bytes are held as two big-endian halves.
#[derive(Clone, Copy, Debug, PartialEq, Eq, Structural)]
pub struct Address {
    pub kind: AddressKind,
    pub high: u128,
    pub low: u128,
}

/// A 32-byte value, such as the hash of an intent, as two big-endian halves.
#[derive(Clone, Copy, Debug, PartialEq, Eq, Structural)]
pub struct Bytes32 {
    pub high: u128,
    pub low: u128,
}

/// The circumstances of one contract invocation.
#[derive(Debug, PartialEq, Eq)]
pub struct Env {
    /// The ledger's clock, in seconds.
    pub timestamp: u64,
    /// The contract that is being invoked.
    pub contract: Address,
    /// The contract that makes this invocation, where a contract does.
    pub invoker: Option<Address>,
    /// The addresses that have signed this very invocation.
    pub signers: Vec<Address>,
    /// The addresses that have signed the invocations which this one makes in
    /// turn.
    pub inner_signers: Vec<Address>,
}

/// The content of an [`Env`].
#[verifier::ext_equal]
pub struct EnvView {
    pub timestamp: u64,
    pub contract: Address,
    pub invoker: Option<Address>,
    pub signers: Seq<Address>,
    pub inner_signers: Seq<Address>,
}

impl View for Env {
    type V = EnvView;

    open spec fn view(&self) -> EnvView {
        EnvView {
            timestamp: self.timestamp,
            contract: self.contract,
            invoker: self.invoker,
            signers: self.signers@,
            inner_signers: self.inner_signers@,
        }
    }
}

impl EnvView {
    /// `address` has authorized this invocation: it is the contract that makes
    /// it, or it has signed it.
    pub open spec fn authorized(self, address: Address) -> bool {
        self.invoker == Some(address) || self.signers.contains(address)
    }

    /// The circumstances under which the current contract invokes `callee`:
    /// the clock is the same, the current contract is the invoker, and who has
    /// signed is who has signed inner invocations. Who has authorized only the
    /// current invocation, by making it or by signing it, has not authorized
    /// this one.
    pub open spec fn invoke(self, callee: Address) -> EnvView {
        EnvView {
            timestamp: self.timestamp,
            contract: callee,
            invoker: Some(self.contract),
            signers: self.inner_signers,
            inner_signers: self.inner_signers,
        }
    }
}

impl Env {
    /// Whether `address` has authorized this invocation.
    pub fn has_auth(&self, address: &Address) -> (r: bool)
        ensures
            r == self@.authorized(*address),
    {
        let invoked_by = match self.invoker {
            Some(invoker) => invoker == *address,
            None => false,
        };
        invoked_by || contains_address(&self.signers, address)
    }

    /// The circumstances under which the current contract invokes `callee`:
    /// the clock is the same, the current contract is the invoker, and who has
    /// signed is who has signed inner invocations.
    pub fn invoke(&self, callee: Address) -> (r: Env)
        ensures
            r@ == self@.invoke(callee),
    {
        let signers = self.inner_signers.clone();
        let inner_signers = self.inner_signers.clone();
        proof {
            assert(signers@ =~= self.inner_signers@);
            assert(inner_signers@ =~= self.inner_signers@);
        }
        Env {
            timestamp: self.timestamp,
            contract: callee,
            invoker: Some(self.contract),
            signers,
            inner_signers,
        }
    }
}

/// Whether `list` holds `address`.
pub fn contains_address(list: &Vec<Address>, address: &Address) -> (r: bool)
    ensures
        r == list@.contains(*address),
{
    let mut i: usize = 0;
    while i < list.len()
        invariant
            i <= list.len(),
            forall|j: int| 0 <= j < i ==> list@[j] != *address,
        decreases list.len() - i,
    {
        if list[i] == *address {
            assert(list@[i as int] == *address);
            return true;
        }
        i = i + 1;
    }
    false
}

/// An invocation is authorized by the contract that makes it and by those who
/// have signed it, and by no one else.
pub proof fn law_authorization(env: EnvView, address: Address)
    ensures
        env.authorized(address) <==> {
            ||| env.invoker is Some && env.invoker->0 == address
            ||| exists|i: int| 0 <= i < env.signers.len() && env.signers[i] == address
        },
{
}

/// An inner invocation is made at the same time, by the current contract, and is
/// authorized by that and by those who have signed inner invocations, and by no
/// one else.
pub proof fn law_inner_invocation(env: EnvView, callee: Address, address: Address)
    ensures
        env.invoke(callee).timestamp == env.timestamp,
        env.invoke(callee).contract == callee,
        env.invoke(callee).inner_signers == env.inner_signers,
        env.invoke(callee).authorized(address) <==> address == env.contract || exists|i: int|
            0 <= i < env.inner_signers.len() && env.inner_signers[i] == address,
{
}

/// The content of an [`Env`] is what it holds, field by field.
pub proof fn law_env_content(env: Env)
    ensures
        env@.timestamp == env.timestamp,
        env@.contract == env.contract,
        env@.invoker == env.invoker,
        env@.signers == env.signers@,
        env@.inner_signers == env.inner_signers@,
{
}

} // verus!
