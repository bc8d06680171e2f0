//! Run shell jobs on a set of remote hosts through a bounded worker pool.
//!
//! The library holds the logic: the selection lists that an operator drives from
//! a terminal, the plan of (host, job) work units, the life cycle of one remote
//! session, the per-unit worker and the store that gathers one result per unit.
//! Network, terminal and thread plumbing live with the caller.
pub mod job;
pub mod selection;
pub mod session;
pub mod dispatch;
pub mod store;
pub mod timer;
pub mod user;
pub mod console;
