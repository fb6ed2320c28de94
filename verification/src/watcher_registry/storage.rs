use vstd::prelude::*;

verus! {

/// A single watcher's report for one round: whether the endpoint was
/// reachable or not, from that watcher's own vantage point.
#[derive(Clone, Copy, PartialEq, Eq, Debug, Structural)]
pub enum CheckStatus {
    Up,
    Down,
}

/// Running vote counts for one `(sla_id, round_id)` pair. The registry only
/// counts; it has no notion of a quorum threshold. That judgment belongs to
/// the vault.
#[derive(Clone, Copy, Default, Debug, PartialEq, Eq, Structural)]
pub struct RoundTally {
    pub votes_up: u32,
    pub votes_down: u32,
}

/// The ways a registry call can be refused.
#[derive(Copy, Clone, Debug, Eq, PartialEq, PartialOrd, Ord, Structural)]
pub enum Error {
    NotAuthorized,
    AlreadyInitialized,
    NotAWatcher,
    DuplicateCheck,
    ContractPaused,
}

} // verus!
