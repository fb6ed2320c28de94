//! What each registry call does, stated directly over its inputs and
//! results.
use vstd::prelude::*;

use crate::address::Address;
use crate::watcher_registry::events::{WatcherRegistered, WatcherRemoved};
use crate::watcher_registry::storage::Error;
use crate::watcher_registry::RegistryState;

verus! {

/// `initialize` succeeds exactly on a registry without an admin; it then
/// sets the admin and a zero count. Otherwise it is refused and nothing
/// changes.
pub proof fn lemma_initialize_behaviour(s: RegistryState, admin: Address)
    ensures
        ({
            let (t, r) = s.initialize(admin);
            &&& s.admin is Some ==> r == Err::<(), Error>(Error::AlreadyInitialized) && t == s
            &&& s.admin is None ==> r == Ok::<(), Error>(()) && t == RegistryState {
                admin: Some(admin),
                watchers: s.watchers,
                watcher_count: 0,
            }
        }),
{
}

/// `register_watcher` by the admin of an address that is not yet eligible
/// always succeeds, however many watchers there are (short of the count's
/// range): the event names the watcher, it becomes eligible and the count
/// grows by one. Registering an eligible watcher again succeeds with no
/// event and no change. Anyone but the admin is `NotAuthorized` and nothing
/// changes.
pub proof fn lemma_register_watcher_behaviour(s: RegistryState, caller: Address, watcher: Address)
    requires
        s.can_register(caller, watcher),
    ensures
        ({
            let (t, r) = s.register_watcher(caller, watcher);
            &&& s.admin != Some(caller) ==> r == Err::<Option<WatcherRegistered>, Error>(
                Error::NotAuthorized,
            ) && t == s
            &&& s.admin == Some(caller) && s.watchers.contains(watcher) ==> r == Ok::<
                Option<WatcherRegistered>,
                Error,
            >(None) && t == s
            &&& s.admin == Some(caller) && !s.watchers.contains(watcher) ==> {
                &&& r == Ok::<Option<WatcherRegistered>, Error>(Some(WatcherRegistered { watcher }))
                &&& t.watchers.contains(watcher)
                &&& t.watchers == s.watchers.insert(watcher)
                &&& t.watcher_count == s.watcher_count + 1
                &&& t.admin == s.admin
            }
        }),
{
}

/// `remove_watcher` by the admin of an eligible watcher succeeds: the event
/// names the watcher, it is no longer eligible and the count drops by one
/// (never below zero). Removing an address that is not eligible succeeds
/// with no event and no change. Anyone but the admin is `NotAuthorized` and
/// nothing changes.
pub proof fn lemma_remove_watcher_behaviour(s: RegistryState, caller: Address, watcher: Address)
    ensures
        ({
            let (t, r) = s.remove_watcher(caller, watcher);
            &&& s.admin != Some(caller) ==> r == Err::<Option<WatcherRemoved>, Error>(
                Error::NotAuthorized,
            ) && t == s
            &&& s.admin == Some(caller) && !s.watchers.contains(watcher) ==> r == Ok::<
                Option<WatcherRemoved>,
                Error,
            >(None) && t == s
            &&& s.admin == Some(caller) && s.watchers.contains(watcher) ==> {
                &&& r == Ok::<Option<WatcherRemoved>, Error>(Some(WatcherRemoved { watcher }))
                &&& !t.watchers.contains(watcher)
                &&& t.watchers == s.watchers.remove(watcher)
                &&& s.watcher_count > 0 ==> t.watcher_count == s.watcher_count - 1
                &&& s.watcher_count == 0 ==> t.watcher_count == 0
                &&& t.admin == s.admin
            }
        }),
{
}

/// The only registrations left out by `requires` are those of a new
/// watcher by the admin when the count is already `u32::MAX`.
pub proof fn lemma_overflow_bound(s: RegistryState, caller: Address, watcher: Address)
    ensures
        !s.can_register(caller, watcher) <==> (s.admin == Some(caller) && !s.watchers.contains(
            watcher,
        ) && s.watcher_count == u32::MAX),
{
}

/// A freshly deployed registry has no admin, no eligible watcher and a
/// zero count.
pub proof fn lemma_fresh_registry(watcher: Address)
    ensures
        RegistryState::empty().admin is None,
        !RegistryState::empty().watchers.contains(watcher),
        RegistryState::empty().watcher_count == 0,
{
}

} // verus!
