# Delegated execution

Three contracts of a ledger, written and verified with Verus.

- The **delegation manager** keeps the authority that owners give to delegates:
  a delegation is created, accepted, paused, resumed, revoked or renounced, and
  expires at its time.
- The **policy engine** keeps the bounds that owners set: times, assets,
  protocols, and limits for a transaction and for a day. It judges an action by
  the policy that counts for its delegation.
- The **execution router** holds a delegate's intent against both, charges it to
  the policy, and records it. No intent is executed twice.

## Layout

- `src/ledger.rs`, `src/table.rs`: addresses, the circumstances of an
  invocation, and tables of entries.
- `src/delegation_manager/`, `src/policy_engine/`, `src/execution_router/`: one
  directory for each contract. `types.rs` has the records, events and errors;
  `model.rs` the state machine that the contracts of the functions speak of;
  `mod.rs` the executable code; `laws.rs` what holds over any series of requests.
- `app/`: the contracts on a Soroban ledger, which read and write the ledger's
  entries around the library.
- `tests/`: the library on concrete values.

A request that the library refuses changes nothing, and the error says why.
