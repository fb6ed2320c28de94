use vstd::prelude::*;

use crate::address::Address;
use crate::watcher_registry::storage::CheckStatus;

verus! {

/// Emitted when an address is added to the eligible watcher set.
#[derive(Clone, Copy, Debug, Eq, PartialEq)]
pub struct WatcherRegistered {
    pub watcher: Address,
}

/// Emitted when an address is removed from the eligible watcher set.
#[derive(Clone, Copy, Debug, Eq, PartialEq)]
pub struct WatcherRemoved {
    pub watcher: Address,
}

/// A watcher's check for one round of one SLA, as published on the event
/// stream (`sla_id` and `watcher` are its topics).
#[derive(Clone, Copy, Debug, Eq, PartialEq)]
pub struct CheckSubmitted {
    pub sla_id: u64,
    pub watcher: Address,
    pub round_id: u64,
    pub status: CheckStatus,
}

} // verus!
