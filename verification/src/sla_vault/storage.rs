use vstd::prelude::*;

use crate::address::Address;

verus! {

/// Whether an SLA still stands behind its guarantee.
#[derive(Clone, Copy, PartialEq, Eq, Debug, Structural)]
pub enum SLAStatus {
    Active,
    Cancelled,
}

/// A provider's bonded uptime guarantee.
///
/// `uptime_target_bps` is stored so that it can be shown, but nothing
/// computes an uptime percentage over a billing period or enforces that
/// number. What the vault does is simpler: every time a round is confirmed
/// down by quorum, a fixed `penalty_per_breach` is paid out of the bond.
#[derive(Clone, Copy, Debug, PartialEq, Eq, Structural)]
pub struct SLAConfig {
    pub provider: Address,
    pub token: Address,
    pub bond_amount: i128,
    pub uptime_target_bps: u32,
    pub quorum_threshold: u32,
    pub penalty_per_breach: i128,
    pub beneficiary: Address,
    pub status: SLAStatus,
}

/// The ways a vault call can be refused.
#[derive(Copy, Clone, Debug, Eq, PartialEq, PartialOrd, Ord, Structural)]
pub enum Error {
    NotAuthorized,
    AlreadyInitialized,
    SlaNotActive,
    AlreadySettled,
    QuorumNotMet,
    BondExhausted,
    InvalidAmount,
    ContractPaused,
    SlaNotFound,
}

} // verus!
