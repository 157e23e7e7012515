// A single value exposed through a chain of trust: a storage that trusts one
// logic component, a logic component that trusts one proxy for reads and the
// owner badge for writes, a proxy that trusts any holder of a white-list
// badge, and a consumer that holds such a badge and forwards calls.
//
// Every call takes the ledger, the identity of its immediate caller and the
// proofs it presents; each operation is proved equal to a transition of the
// ledger's model, and a failed call leaves the ledger as it was.

pub mod auth;
pub mod consumer;
pub mod laws;
pub mod ledger;
pub mod logic;
pub mod proxy;
pub mod storage;
pub mod value;
