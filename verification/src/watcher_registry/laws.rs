//! Properties of the registry that span calls.
use vstd::prelude::*;

use crate::address::Address;
use crate::watcher_registry::events::WatcherRegistered;
use crate::watcher_registry::storage::Error;
use crate::watcher_registry::{RegistryCall, RegistryState};

verus! {

/// Every registry call keeps the stored count equal to the number of
/// eligible watchers: registering a watcher twice does not count it twice,
/// and removing one that is not registered does not lower the count.
pub proof fn lemma_calls_keep_count(s: RegistryState, caller: Address, watcher: Address)
    requires
        s.inv(),
    ensures
        s.initialize(caller).0.inv(),
        s.can_register(caller, watcher) ==> s.register_watcher(caller, watcher).0.inv(),
        s.remove_watcher(caller, watcher).0.inv(),
{
    if s.is_admin(caller) && s.watchers.contains(watcher) {
        assert(s.watchers.remove(watcher).len() == s.watchers.len() - 1);
    }
}

/// Registering the same watcher twice has the effect of registering it
/// once; the second call is a successful no-op.
pub proof fn lemma_register_twice_counts_once(s: RegistryState, caller: Address, watcher: Address)
    requires
        s.register_watcher(caller, watcher).1 is Ok,
    ensures
        ({
            let t = s.register_watcher(caller, watcher).0;
            t.register_watcher(caller, watcher) == (t, Ok::<Option<WatcherRegistered>, Error>(
                None,
            ))
        }),
{
}

/// Removing a watcher undoes registering it: for an admin and a watcher
/// that was not eligible, register then remove gives back the same state.
pub proof fn lemma_remove_undoes_register(s: RegistryState, caller: Address, watcher: Address)
    requires
        s.inv(),
        s.is_admin(caller),
        !s.watchers.contains(watcher),
        s.can_register(caller, watcher),
    ensures
        s.register_watcher(caller, watcher).0.remove_watcher(caller, watcher).0 == s,
{
    assert(s.watchers.insert(watcher).remove(watcher) =~= s.watchers);
}

/// `initialize` works once: a second call is refused and changes nothing.
pub proof fn lemma_initialize_once(s: RegistryState, admin: Address, admin2: Address)
    requires
        s.initialize(admin).1 is Ok,
    ensures
        ({
            let t = s.initialize(admin).0;
            t.initialize(admin2) == (t, Err::<(), Error>(Error::AlreadyInitialized))
        }),
{
}

/// Registering or removing one watcher leaves every other address's
/// eligibility as it was.
pub proof fn lemma_calls_touch_one_watcher(
    s: RegistryState,
    caller: Address,
    watcher: Address,
    other: Address,
)
    requires
        other != watcher,
    ensures
        s.register_watcher(caller, watcher).0.watchers.contains(other) == s.watchers.contains(other),
        s.remove_watcher(caller, watcher).0.watchers.contains(other) == s.watchers.contains(other),
{
}

/// Registering and removing `watcher` read nothing but the admin, the count
/// and whether `watcher` is eligible: two states that agree there give the
/// same answer and still agree there afterwards.
pub proof fn lemma_calls_read_only_their_watcher(
    s1: RegistryState,
    s2: RegistryState,
    caller: Address,
    watcher: Address,
)
    requires
        s1.agree_at(s2, watcher),
    ensures
        s1.register_watcher(caller, watcher).1 == s2.register_watcher(caller, watcher).1,
        s1.register_watcher(caller, watcher).0.agree_at(
            s2.register_watcher(caller, watcher).0,
            watcher,
        ),
        s1.remove_watcher(caller, watcher).1 == s2.remove_watcher(caller, watcher).1,
        s1.remove_watcher(caller, watcher).0.agree_at(s2.remove_watcher(caller, watcher).0, watcher),
        s1.initialize(caller).1 == s2.initialize(caller).1,
        s1.initialize(caller).0.agree_at(s2.initialize(caller).0, watcher),
{
}

/// In every state reached from a fresh registry, whatever calls were made,
/// the stored count is the number of eligible watchers.
pub proof fn lemma_reachable_count(calls: Seq<RegistryCall>)
    requires
        RegistryState::empty().allows_all(calls),
    ensures
        RegistryState::empty().run(calls).inv(),
{
    lemma_runs_keep_count(RegistryState::empty(), calls);
}

/// Any sequence of calls that overflows nothing keeps the count equal to
/// the number of eligible watchers.
pub proof fn lemma_runs_keep_count(s: RegistryState, calls: Seq<RegistryCall>)
    requires
        s.inv(),
        s.allows_all(calls),
    ensures
        s.run(calls).inv(),
    decreases calls.len(),
{
    if calls.len() > 0 {
        lemma_runs_keep_count(s, calls.drop_last());
        let before = s.run(calls.drop_last());
        match calls.last() {
            RegistryCall::Initialize { admin } => lemma_calls_keep_count(before, admin, admin),
            RegistryCall::RegisterWatcher { caller, watcher } => lemma_calls_keep_count(
                before,
                caller,
                watcher,
            ),
            RegistryCall::RemoveWatcher { caller, watcher } => lemma_calls_keep_count(
                before,
                caller,
                watcher,
            ),
        }
    }
}

/// A watcher is eligible exactly when the last successful registration or
/// removal naming it was a registration; with no such call, eligibility is
/// as it was at the start.
pub proof fn lemma_eligibility_follows_the_last_call(
    s: RegistryState,
    calls: Seq<RegistryCall>,
    watcher: Address,
)
    ensures
        s.run(calls).watchers.contains(watcher) == match s.last_verdict(calls, watcher) {
            Some(b) => b,
            None => s.watchers.contains(watcher),
        },
    decreases calls.len(),
{
    if calls.len() > 0 {
        lemma_eligibility_follows_the_last_call(s, calls.drop_last(), watcher);
    }
}

} // verus!
