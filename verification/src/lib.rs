//! Delegated execution: an owner delegates authority to a delegate, bounds it
//! by policies, and a router executes the delegate's intents within them.

pub mod delegation_manager;
pub mod execution_router;
pub mod ledger;
pub mod policy_engine;
pub mod table;
