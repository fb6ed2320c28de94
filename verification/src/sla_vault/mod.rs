//! The SLA vault: providers' bonds, and their payout on confirmed breaches.
pub mod behaviour;
pub mod events;
pub mod laws;
pub mod state;
pub mod storage;

use std::collections::HashMap;
use vstd::prelude::*;

use crate::address::Address;
use crate::sla_vault::events::{
    BondToppedUp, BondWithdrawn, SettlementPaid, SlaCancelled, SlaCreated,
};
use crate::sla_vault::state::VaultState;
use crate::sla_vault::storage::{Error, SLAConfig, SLAStatus};
use crate::watcher_registry::storage::RoundTally;

verus! {

broadcast use vstd::std_specs::hash::group_hash_axioms;

/// The SLA vault contract's storage: the contract-wide entries, the SLA
/// records and bond balances by SLA id, and the settled
/// `(sla_id, round_id)` pairs.
pub struct SlaVault {
    pub admin: Option<Address>,
    pub watcher_registry: Option<Address>,
    pub next_sla_id: u64,
    pub paused: bool,
    pub slas: HashMap<u64, SLAConfig>,
    pub balances: HashMap<u64, i128>,
    pub settled: Vec<(u64, u64)>,
}

impl View for SlaVault {
    type V = VaultState;

    open spec fn view(&self) -> VaultState {
        VaultState {
            admin: self.admin,
            watcher_registry: self.watcher_registry,
            next_sla_id: self.next_sla_id,
            paused: self.paused,
            slas: self.slas@,
            balances: self.balances@,
            settled: self.settled@.to_set(),
        }
    }
}

impl Default for SlaVault {
    /// A freshly deployed vault: not initialized, not paused, no SLAs.
    fn default() -> (v: SlaVault)
        ensures
            v@ == VaultState::empty(),
    {
        let v = SlaVault {
            admin: None,
            watcher_registry: None,
            next_sla_id: 0,
            paused: false,
            slas: HashMap::new(),
            balances: HashMap::new(),
            settled: Vec::new(),
        };
        assert(v@.settled =~= Set::<(u64, u64)>::empty());
        v
    }
}

impl SlaVault {
    fn require_admin(&self, caller: &Address) -> (r: Result<(), Error>)
        ensures
            r is Ok <==> self@.is_admin(*caller),
            r is Err ==> r == Err::<(), Error>(Error::NotAuthorized),
    {
        match self.admin {
            None => Err(Error::NotAuthorized),
            Some(admin) => {
                if admin != *caller {
                    Err(Error::NotAuthorized)
                } else {
                    Ok(())
                }
            },
        }
    }

    fn require_not_paused(&self) -> (r: Result<(), Error>)
        ensures
            r is Ok <==> !self@.paused,
            r is Err ==> r == Err::<(), Error>(Error::ContractPaused),
    {
        if self.paused {
            return Err(Error::ContractPaused);
        }
        Ok(())
    }

    /// The stored record of an SLA, if there is one.
    fn config_of(&self, sla_id: u64) -> (r: Option<SLAConfig>)
        ensures
            match r {
                Some(c) => self@.slas.contains_key(sla_id) && self@.slas[sla_id] == c,
                None => !self@.slas.contains_key(sla_id),
            },
    {
        match self.slas.get(&sla_id) {
            Some(c) => Some(*c),
            None => None,
        }
    }

    /// Auth: `admin` (checked by the host). One-time setup; `watcher_registry`
    /// is the registry this vault asks for vote tallies.
    pub fn initialize(&mut self, admin: Address, watcher_registry: Address) -> (r: Result<
        (),
        Error,
    >)
        ensures
            (final(self)@, r) == old(self)@.initialize(admin, watcher_registry),
    {
        if self.admin.is_some() {
            return Err(Error::AlreadyInitialized);
        }
        self.admin = Some(admin);
        self.watcher_registry = Some(watcher_registry);
        self.next_sla_id = 0;
        Ok(())
    }

    /// Auth: `provider` (checked by the host). Creates a new SLA and returns
    /// its creation event, which names the bond that the host moves from
    /// the provider into the vault. Refused while the vault is paused, for
    /// a non-positive bond, and for a penalty outside `1..=bond`.
    ///
    /// `uptime_target_bps` is stored for display only.
    pub fn create_sla(
        &mut self,
        provider: Address,
        token: Address,
        bond_amount: i128,
        uptime_target_bps: u32,
        quorum_threshold: u32,
        penalty_per_breach: i128,
        beneficiary: Address,
    ) -> (r: Result<SlaCreated, Error>)
        requires
            !old(self)@.create_sla_overflows(bond_amount, penalty_per_breach),
        ensures
            (final(self)@, r) == old(self)@.create_sla(
                provider,
                token,
                bond_amount,
                uptime_target_bps,
                quorum_threshold,
                penalty_per_breach,
                beneficiary,
            ),
    {
        self.require_not_paused()?;
        if bond_amount <= 0 {
            return Err(Error::InvalidAmount);
        }
        if penalty_per_breach <= 0 || penalty_per_breach > bond_amount {
            return Err(Error::InvalidAmount);
        }
        let sla_id = self.next_sla_id;
        self.next_sla_id = sla_id + 1;
        let config = SLAConfig {
            provider,
            token,
            bond_amount,
            uptime_target_bps,
            quorum_threshold,
            penalty_per_breach,
            beneficiary,
            status: SLAStatus::Active,
        };
        self.slas.insert(sla_id, config);
        self.balances.insert(sla_id, bond_amount);
        Ok(SlaCreated { sla_id, provider, token, bond_amount, beneficiary })
    }

    /// Public view. The stored record of an SLA.
    pub fn get_sla(&self, sla_id: u64) -> (r: Result<SLAConfig, Error>)
        ensures
            r == self@.get_sla(sla_id),
    {
        match self.config_of(sla_id) {
            Some(c) => Ok(c),
            None => Err(Error::SlaNotFound),
        }
    }

    /// Public view. The bond balance of an SLA; zero for an unknown id.
    pub fn get_bond_balance(&self, sla_id: u64) -> (b: i128)
        ensures
            b == self@.balance_of(sla_id),
    {
        match self.balances.get(&sla_id) {
            Some(b) => *b,
            None => 0,
        }
    }

    /// Auth: `caller` (checked by the host), who must be the SLA's provider.
    /// Adds `amount` of the SLA's own token to its bond and returns the event,
    /// which names the amount that the host moves from the caller into the
    /// vault.
    pub fn top_up_bond(&mut self, caller: Address, sla_id: u64, amount: i128) -> (r: Result<
        BondToppedUp,
        Error,
    >)
        requires
            !old(self)@.top_up_overflows(caller, sla_id, amount),
        ensures
            (final(self)@, r) == old(self)@.top_up_bond(caller, sla_id, amount),
    {
        if amount <= 0 {
            return Err(Error::InvalidAmount);
        }
        let config = match self.config_of(sla_id) {
            Some(c) => c,
            None => return Err(Error::SlaNotFound),
        };
        if config.provider != caller {
            return Err(Error::NotAuthorized);
        }
        let balance = self.get_bond_balance(sla_id);
        self.balances.insert(sla_id, balance + amount);
        Ok(BondToppedUp { sla_id, amount })
    }

    /// The checks that settlement makes before the registry is asked for the
    /// round's tally. On success, the registry to ask; the host passes its
    /// answer to `trigger_settlement`.
    pub fn settlement_tally_source(&self, sla_id: u64, round_id: u64) -> (r: Result<
        Address,
        Error,
    >)
        ensures
            r == self@.settlement_tally_source(sla_id, round_id),
    {
        let config = match self.config_of(sla_id) {
            Some(c) => c,
            None => return Err(Error::SlaNotFound),
        };
        if config.status != SLAStatus::Active {
            return Err(Error::SlaNotActive);
        }
        if self.is_round_settled(sla_id, round_id) {
            return Err(Error::AlreadySettled);
        }
        match self.watcher_registry {
            Some(registry) => Ok(registry),
            None => Err(Error::NotAuthorized),
        }
    }

    /// No authorization: anyone may ask for a round to be settled; the
    /// keeper `caller` is recorded in the returned event only. `tally`
    /// is the registry's raw vote count for the round; the vault alone
    /// decides whether it is a quorum. On success the balance loses the
    /// payout, the round is marked settled, and the returned event names the
    /// payout that the host moves from the vault to the beneficiary. A round
    /// is paid at most once.
    pub fn trigger_settlement(
        &mut self,
        caller: Address,
        sla_id: u64,
        round_id: u64,
        tally: RoundTally,
    ) -> (r: Result<SettlementPaid, Error>)
        ensures
            (final(self)@, r) == old(self)@.trigger_settlement(caller, sla_id, round_id, tally),
    {
        self.settlement_tally_source(sla_id, round_id)?;
        let config = match self.config_of(sla_id) {
            Some(c) => c,
            None => return Err(Error::SlaNotFound),
        };
        if tally.votes_down < config.quorum_threshold {
            return Err(Error::QuorumNotMet);
        }
        let balance = self.get_bond_balance(sla_id);
        let payout = if config.penalty_per_breach < balance {
            config.penalty_per_breach
        } else {
            balance
        };
        if payout <= 0 {
            return Err(Error::BondExhausted);
        }
        self.balances.insert(sla_id, balance - payout);
        let ghost before = self.settled@;
        self.settled.push((sla_id, round_id));
        assert(self.settled@.to_set() =~= before.to_set().insert((sla_id, round_id))) by {
            assert(forall|j: int| 0 <= j < before.len() ==> self.settled@[j] == before[j]);
            assert(self.settled@[before.len() as int] == (sla_id, round_id));
        }
        Ok(SettlementPaid { sla_id, round_id, payout, beneficiary: config.beneficiary, caller })
    }

    /// Public view. True once the round has been paid out.
    pub fn is_round_settled(&self, sla_id: u64, round_id: u64) -> (b: bool)
        ensures
            b == self@.settled.contains((sla_id, round_id)),
    {
        let mut i: usize = 0;
        while i < self.settled.len()
            invariant
                i <= self.settled@.len(),
                forall|j: int| 0 <= j < i ==> self.settled@[j] != (sla_id, round_id),
            decreases self.settled@.len() - i,
        {
            let (s, r) = self.settled[i];
            if s == sla_id && r == round_id {
                return true;
            }
            i = i + 1;
        }
        false
    }

    /// Auth: `caller` (checked by the host), who must be the SLA's provider.
    /// Marks the SLA Cancelled, a visible step that must come before the
    /// bond can be withdrawn.
    pub fn cancel_sla(&mut self, caller: Address, sla_id: u64) -> (r: Result<SlaCancelled, Error>)
        ensures
            (final(self)@, r) == old(self)@.cancel_sla(caller, sla_id),
    {
        let config = match self.config_of(sla_id) {
            Some(c) => c,
            None => return Err(Error::SlaNotFound),
        };
        if config.provider != caller {
            return Err(Error::NotAuthorized);
        }
        self.slas.insert(sla_id, SLAConfig { status: SLAStatus::Cancelled, ..config });
        Ok(SlaCancelled { sla_id })
    }

    /// Auth: `caller` (checked by the host), who must be the SLA's provider.
    /// The SLA must already be Cancelled (`SlaNotActive` otherwise). Hands
    /// back the whole remaining balance: the returned event names the amount
    /// that the host moves from the vault to the caller when it is positive.
    pub fn withdraw_remaining_bond(&mut self, caller: Address, sla_id: u64) -> (r: Result<
        BondWithdrawn,
        Error,
    >)
        ensures
            (final(self)@, r) == old(self)@.withdraw_remaining_bond(caller, sla_id),
    {
        let config = match self.config_of(sla_id) {
            Some(c) => c,
            None => return Err(Error::SlaNotFound),
        };
        if config.provider != caller {
            return Err(Error::NotAuthorized);
        }
        if config.status != SLAStatus::Cancelled {
            return Err(Error::SlaNotActive);
        }
        let balance = self.get_bond_balance(sla_id);
        if balance > 0 {
            self.balances.insert(sla_id, 0);
        }
        Ok(BondWithdrawn { sla_id, amount: balance })
    }

    /// Auth: the admin. Stops `create_sla` from accepting new SLAs; top-ups
    /// and settlements go on.
    pub fn pause(&mut self, caller: Address) -> (r: Result<(), Error>)
        ensures
            (final(self)@, r) == old(self)@.set_paused(caller, true),
    {
        self.require_admin(&caller)?;
        self.paused = true;
        Ok(())
    }

    /// Auth: the admin. Lets `create_sla` accept new SLAs again.
    pub fn unpause(&mut self, caller: Address) -> (r: Result<(), Error>)
        ensures
            (final(self)@, r) == old(self)@.set_paused(caller, false),
    {
        self.require_admin(&caller)?;
        self.paused = false;
        Ok(())
    }
}

} // verus!
