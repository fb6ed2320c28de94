//! The watcher registry: an admin-curated set of eligible watchers.
pub mod behaviour;
pub mod events;
pub mod laws;
pub mod storage;

use vstd::prelude::*;

use crate::address::Address;
use crate::watcher_registry::events::{WatcherRegistered, WatcherRemoved};
use crate::watcher_registry::storage::Error;

verus! {

/// What the registry keeps in ledger storage, as mathematical values.
pub struct RegistryState {
    /// Set once by `initialize`.
    pub admin: Option<Address>,
    /// The eligible watchers.
    pub watchers: Set<Address>,
    /// The stored `WatcherCount`.
    pub watcher_count: u32,
}

/// One call of a registry entry point that changes storage, with its
/// arguments.
pub enum RegistryCall {
    Initialize { admin: Address },
    RegisterWatcher { caller: Address, watcher: Address },
    RemoveWatcher { caller: Address, watcher: Address },
}

impl RegistryState {
    /// The storage of a freshly deployed registry.
    pub open spec fn empty() -> RegistryState {
        RegistryState { admin: None, watchers: Set::empty(), watcher_count: 0 }
    }

    /// The stored count is the number of eligible watchers, and nobody is
    /// eligible before the registry has an admin.
    pub open spec fn inv(self) -> bool {
        &&& self.watchers.finite()
        &&& self.watcher_count == self.watchers.len()
        &&& self.admin is None ==> self.watchers.is_empty()
    }

    pub open spec fn is_admin(self, caller: Address) -> bool {
        self.admin == Some(caller)
    }

    /// `initialize`: one-time setup of the admin.
    pub open spec fn initialize(self, admin: Address) -> (RegistryState, Result<(), Error>) {
        if self.admin is Some {
            (self, Err(Error::AlreadyInitialized))
        } else {
            (RegistryState { admin: Some(admin), watcher_count: 0, ..self }, Ok(()))
        }
    }

    /// `register_watcher`: the admin adds `watcher`; registering an
    /// eligible watcher again changes nothing.
    pub open spec fn register_watcher(self, caller: Address, watcher: Address) -> (
        RegistryState,
        Result<Option<WatcherRegistered>, Error>,
    ) {
        if !self.is_admin(caller) {
            (self, Err(Error::NotAuthorized))
        } else if self.watchers.contains(watcher) {
            (self, Ok(None))
        } else {
            (
                RegistryState {
                    watchers: self.watchers.insert(watcher),
                    watcher_count: (self.watcher_count + 1) as u32,
                    ..self
                },
                Ok(Some(WatcherRegistered { watcher })),
            )
        }
    }

    /// `remove_watcher`: the admin removes `watcher`; removing an address
    /// that is not eligible changes nothing. The count never goes below zero.
    pub open spec fn remove_watcher(self, caller: Address, watcher: Address) -> (
        RegistryState,
        Result<Option<WatcherRemoved>, Error>,
    ) {
        if !self.is_admin(caller) {
            (self, Err(Error::NotAuthorized))
        } else if !self.watchers.contains(watcher) {
            (self, Ok(None))
        } else {
            (
                RegistryState {
                    watchers: self.watchers.remove(watcher),
                    watcher_count: if self.watcher_count == 0 {
                        0
                    } else {
                        (self.watcher_count - 1) as u32
                    },
                    ..self
                },
                Ok(Some(WatcherRemoved { watcher })),
            )
        }
    }

    /// The two states hold the same admin and count, and agree on whether
    /// `watcher` is eligible.
    pub open spec fn agree_at(self, other: RegistryState, watcher: Address) -> bool {
        &&& self.admin == other.admin
        &&& self.watcher_count == other.watcher_count
        &&& self.watchers.contains(watcher) == other.watchers.contains(watcher)
    }

    /// The state after the call.
    pub open spec fn step(self, call: RegistryCall) -> RegistryState {
        match call {
            RegistryCall::Initialize { admin } => self.initialize(admin).0,
            RegistryCall::RegisterWatcher { caller, watcher } => self.register_watcher(
                caller,
                watcher,
            ).0,
            RegistryCall::RemoveWatcher { caller, watcher } => self.remove_watcher(
                caller,
                watcher,
            ).0,
        }
    }

    /// The call returns `Ok`.
    pub open spec fn succeeds(self, call: RegistryCall) -> bool {
        match call {
            RegistryCall::Initialize { admin } => self.initialize(admin).1 is Ok,
            RegistryCall::RegisterWatcher { caller, watcher } => self.register_watcher(
                caller,
                watcher,
            ).1 is Ok,
            RegistryCall::RemoveWatcher { caller, watcher } => self.remove_watcher(
                caller,
                watcher,
            ).1 is Ok,
        }
    }

    /// The call does not overflow the count.
    pub open spec fn allows(self, call: RegistryCall) -> bool {
        match call {
            RegistryCall::RegisterWatcher { caller, watcher } => self.can_register(caller, watcher),
            _ => true,
        }
    }

    /// The state after the calls, made in order.
    pub open spec fn run(self, calls: Seq<RegistryCall>) -> RegistryState
        decreases calls.len(),
    {
        if calls.len() == 0 {
            self
        } else {
            self.run(calls.drop_last()).step(calls.last())
        }
    }

    /// No call of the sequence overflows the count.
    pub open spec fn allows_all(self, calls: Seq<RegistryCall>) -> bool
        decreases calls.len(),
    {
        calls.len() == 0 || (self.allows_all(calls.drop_last()) && self.run(
            calls.drop_last(),
        ).allows(calls.last()))
    }

    /// What the last successful call of the sequence that names `watcher`
    /// made of it: `Some(true)` for a registration, `Some(false)` for a
    /// removal, `None` if no successful call names it.
    pub open spec fn last_verdict(self, calls: Seq<RegistryCall>, watcher: Address) -> Option<bool>
        decreases calls.len(),
    {
        if calls.len() == 0 {
            None
        } else {
            let before = self.run(calls.drop_last());
            let call = calls.last();
            if before.succeeds(call) && (call matches RegistryCall::RegisterWatcher {
                watcher: w,
                ..
            } && w == watcher) {
                Some(true)
            } else if before.succeeds(call) && (call matches RegistryCall::RemoveWatcher {
                watcher: w,
                ..
            } && w == watcher) {
                Some(false)
            } else {
                self.last_verdict(calls.drop_last(), watcher)
            }
        }
    }

    /// A registration of a new watcher needs room in the 32-bit count.
    pub open spec fn can_register(self, caller: Address, watcher: Address) -> bool {
        self.is_admin(caller) && !self.watchers.contains(watcher) ==> self.watcher_count < u32::MAX
    }
}

/// The watcher registry contract's storage: the admin, the eligible
/// watchers (in no particular order, each once) and the stored count.
pub struct WatcherRegistry {
    pub admin: Option<Address>,
    pub watchers: Vec<Address>,
    pub watcher_count: u32,
}

impl View for WatcherRegistry {
    type V = RegistryState;

    open spec fn view(&self) -> RegistryState {
        RegistryState {
            admin: self.admin,
            watchers: self.watchers@.to_set(),
            watcher_count: self.watcher_count,
        }
    }
}

impl Default for WatcherRegistry {
    /// A freshly deployed registry: no admin, no watchers.
    fn default() -> (r: WatcherRegistry)
        ensures
            r.wf(),
            r@ == RegistryState::empty(),
    {
        let r = WatcherRegistry { admin: None, watchers: Vec::new(), watcher_count: 0 };
        assert(r@.watchers =~= Set::<Address>::empty());
        r
    }
}

impl WatcherRegistry {
    /// No watcher is listed twice.
    pub open spec fn wf(&self) -> bool {
        self.watchers@.no_duplicates()
    }

    fn require_admin(&self, caller: &Address) -> (r: Result<(), Error>)
        ensures
            r is Ok <==> self@.is_admin(*caller),
            r is Err ==> r == Err::<(), Error>(Error::NotAuthorized),
    {
        match self.admin {
            None => Err(Error::NotAuthorized),
            Some(admin) => {
                if admin != *caller {
                    Err(Error::NotAuthorized)
                } else {
                    Ok(())
                }
            },
        }
    }

    /// The index of `watcher` in the list, if it is eligible.
    fn position(&self, watcher: &Address) -> (r: Option<usize>)
        ensures
            match r {
                Some(i) => i < self.watchers@.len() && self.watchers@[i as int] == *watcher,
                None => !self.watchers@.contains(*watcher),
            },
    {
        let mut i: usize = 0;
        while i < self.watchers.len()
            invariant
                i <= self.watchers@.len(),
                forall|j: int| 0 <= j < i ==> self.watchers@[j] != *watcher,
            decreases self.watchers@.len() - i,
        {
            if self.watchers[i] == *watcher {
                return Some(i);
            }
            i = i + 1;
        }
        None
    }

    /// Auth: `admin` (checked by the host). One-time setup; fails if the
    /// registry already has an admin.
    pub fn initialize(&mut self, admin: Address) -> (r: Result<(), Error>)
        requires
            old(self).wf(),
        ensures
            final(self).wf(),
            (final(self)@, r) == old(self)@.initialize(admin),
    {
        if self.admin.is_some() {
            return Err(Error::AlreadyInitialized);
        }
        self.admin = Some(admin);
        self.watcher_count = 0;
        Ok(())
    }

    /// Auth: the admin. Adds `watcher` to the eligible set and returns the
    /// event to publish; a no-op (no event) if it is already eligible, so the
    /// count is never bumped twice for one watcher.
    pub fn register_watcher(&mut self, caller: Address, watcher: Address) -> (r: Result<
        Option<WatcherRegistered>,
        Error,
    >)
        requires
            old(self).wf(),
            old(self)@.can_register(caller, watcher),
        ensures
            final(self).wf(),
            (final(self)@, r) == old(self)@.register_watcher(caller, watcher),
    {
        self.require_admin(&caller)?;
        if self.position(&watcher).is_some() {
            return Ok(None);
        }
        let ghost before = self.watchers@;
        self.watchers.push(watcher);
        self.watcher_count = self.watcher_count + 1;
        assert(self.watchers@.to_set() =~= before.to_set().insert(watcher)) by {
            assert(forall|j: int| 0 <= j < before.len() ==> self.watchers@[j] == before[j]);
            assert(self.watchers@[before.len() as int] == watcher);
        }
        Ok(Some(WatcherRegistered { watcher }))
    }

    /// Auth: the admin. Removes `watcher` from the eligible set and returns
    /// the event to publish; a no-op (no event) if it was not eligible.
    pub fn remove_watcher(&mut self, caller: Address, watcher: Address) -> (r: Result<
        Option<WatcherRemoved>,
        Error,
    >)
        requires
            old(self).wf(),
        ensures
            final(self).wf(),
            (final(self)@, r) == old(self)@.remove_watcher(caller, watcher),
    {
        self.require_admin(&caller)?;
        let found = self.position(&watcher);
        match found {
            None => Ok(None),
            Some(i) => {
                let ghost before = self.watchers@;
                self.watchers.remove(i);
                self.watcher_count = self.watcher_count.saturating_sub(1);
                assert(self.watchers@ =~= before.remove(i as int));
                assert(self.watchers@.to_set() =~= before.to_set().remove(watcher)) by {
                    assert forall|y: Address| #[trigger]
                        self.watchers@.contains(y) <==> (before.contains(y) && y != watcher) by {
                        if self.watchers@.contains(y) {
                            let k = choose|k: int|
                                0 <= k < self.watchers@.len() && self.watchers@[k] == y;
                            if k < i {
                                assert(before[k] == y);
                            } else {
                                assert(before[k + 1] == y);
                            }
                        }
                        if before.contains(y) && y != watcher {
                            let k = choose|k: int| 0 <= k < before.len() && before[k] == y;
                            if k < i {
                                assert(self.watchers@[k] == y);
                            } else {
                                assert(self.watchers@[k - 1] == y);
                            }
                        }
                    }
                }
                Ok(Some(WatcherRemoved { watcher }))
            },
        }
    }

    /// Public view. True if `watcher` is currently eligible.
    pub fn is_watcher(&self, watcher: Address) -> (b: bool)
        ensures
            b == self@.watchers.contains(watcher),
    {
        self.position(&watcher).is_some()
    }

    /// Public view. The stored number of eligible watchers.
    pub fn get_watcher_count(&self) -> (n: u32)
        ensures
            n == self@.watcher_count,
    {
        self.watcher_count
    }
}

} // verus!
