//! An over-collateralized lending ledger: per-account balances, collateral
//! and debt, a fixed collateralization ratio on borrows, a pool utilization
//! classifier, and a freshness-checked price oracle gateway.
//!
//! Every operation's meaning is a spec-level transition, every executable
//! operation is proved to follow its transition, and the laws that relate
//! operations to each other are proved in `laws`. The persisted records live
//! in keyed stores accessed through the trusted primitives of `store`.

pub mod error;
pub mod store;
pub mod token;
pub mod ledger;
pub mod pool;
pub mod oracle;
pub mod token_wrapper;
pub mod laws;
pub mod invariants;
pub mod euclid;
