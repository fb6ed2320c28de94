//! Verified core of an uptime-guarantee system made of two ledger contracts.
//!
//! `watcher_registry` keeps the set of eligible watchers; `sla_vault` holds
//! providers' bonds and pays a fixed penalty to the beneficiary whenever a
//! round is confirmed down by a quorum of watcher votes.
//!
//! Each contract is a state machine: its state is what the contract keeps in
//! ledger storage, and every entry point is a method that moves the state on
//! and returns the event (and with it the token movement) that the host must
//! carry out. Authentication, storage, token transfers and cross-contract
//! calls are the host's work and happen around these methods.
pub mod address;
pub mod sla_vault;
pub mod watcher_registry;
