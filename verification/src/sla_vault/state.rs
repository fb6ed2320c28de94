use vstd::prelude::*;

use crate::address::Address;
use crate::sla_vault::events::{
    BondToppedUp, BondWithdrawn, SettlementPaid, SlaCancelled, SlaCreated,
};
use crate::sla_vault::storage::{Error, SLAConfig, SLAStatus};
use crate::watcher_registry::storage::RoundTally;

verus! {

/// What the vault keeps in ledger storage, as mathematical values.
pub struct VaultState {
    /// Set once by `initialize`.
    pub admin: Option<Address>,
    /// The registry that counts the watchers' votes.
    pub watcher_registry: Option<Address>,
    /// The id that the next SLA gets.
    pub next_sla_id: u64,
    /// While set, no new SLA is accepted.
    pub paused: bool,
    /// The SLA records, by id.
    pub slas: Map<u64, SLAConfig>,
    /// The bond balances, by SLA id.
    pub balances: Map<u64, i128>,
    /// The `(sla_id, round_id)` pairs that have been paid out.
    pub settled: Set<(u64, u64)>,
}

/// One call of a vault entry point, with its arguments.
pub enum VaultCall {
    Initialize { admin: Address, watcher_registry: Address },
    CreateSla {
        provider: Address,
        token: Address,
        bond_amount: i128,
        uptime_target_bps: u32,
        quorum_threshold: u32,
        penalty_per_breach: i128,
        beneficiary: Address,
    },
    TopUpBond { caller: Address, sla_id: u64, amount: i128 },
    TriggerSettlement { caller: Address, sla_id: u64, round_id: u64, tally: RoundTally },
    CancelSla { caller: Address, sla_id: u64 },
    WithdrawRemainingBond { caller: Address, sla_id: u64 },
    Pause { caller: Address },
    Unpause { caller: Address },
}

impl VaultState {
    /// The storage of a freshly deployed vault.
    pub open spec fn empty() -> VaultState {
        VaultState {
            admin: None,
            watcher_registry: None,
            next_sla_id: 0,
            paused: false,
            slas: Map::empty(),
            balances: Map::empty(),
            settled: Set::empty(),
        }
    }

    /// The stored bond balance of an SLA; zero where none is stored.
    pub open spec fn balance_of(self, sla_id: u64) -> i128 {
        if self.balances.contains_key(sla_id) {
            self.balances[sla_id]
        } else {
            0
        }
    }

    /// What holds of every state the vault can reach: each SLA has a
    /// balance and nothing else does, no balance is negative, every SLA was
    /// created with a positive bond and a penalty in `1..=bond`, and only
    /// rounds of existing SLAs are ever settled.
    pub open spec fn inv(self) -> bool {
        &&& self.balances.dom() == self.slas.dom()
        &&& forall|id: u64| #[trigger] self.balances.contains_key(id) ==> self.balances[id] >= 0
        &&& forall|id: u64| #[trigger]
            self.slas.contains_key(id) ==> {
                let c = self.slas[id];
                &&& c.bond_amount > 0
                &&& 0 < c.penalty_per_breach <= c.bond_amount
            }
        &&& forall|p: (u64, u64)| #[trigger] self.settled.contains(p) ==> self.slas.contains_key(p.0)
    }

    pub open spec fn is_admin(self, caller: Address) -> bool {
        self.admin == Some(caller)
    }

    /// `initialize`: one-time setup of the admin and the registry; it also
    /// sets the next SLA id to zero.
    pub open spec fn initialize(self, admin: Address, watcher_registry: Address) -> (
        VaultState,
        Result<(), Error>,
    ) {
        if self.admin is Some {
            (self, Err(Error::AlreadyInitialized))
        } else {
            (
                VaultState {
                    admin: Some(admin),
                    watcher_registry: Some(watcher_registry),
                    next_sla_id: 0,
                    ..self
                },
                Ok(()),
            )
        }
    }

    /// The record that `create_sla` stores.
    pub open spec fn new_config(
        provider: Address,
        token: Address,
        bond_amount: i128,
        uptime_target_bps: u32,
        quorum_threshold: u32,
        penalty_per_breach: i128,
        beneficiary: Address,
    ) -> SLAConfig {
        SLAConfig {
            provider,
            token,
            bond_amount,
            uptime_target_bps,
            quorum_threshold,
            penalty_per_breach,
            beneficiary,
            status: SLAStatus::Active,
        }
    }

    /// `create_sla`: refused while paused; the bond must be positive and the
    /// penalty in `1..=bond`. The new SLA gets the next id, starts Active,
    /// and its balance is the whole bond.
    pub open spec fn create_sla(
        self,
        provider: Address,
        token: Address,
        bond_amount: i128,
        uptime_target_bps: u32,
        quorum_threshold: u32,
        penalty_per_breach: i128,
        beneficiary: Address,
    ) -> (VaultState, Result<SlaCreated, Error>) {
        if self.paused {
            (self, Err(Error::ContractPaused))
        } else if bond_amount <= 0 {
            (self, Err(Error::InvalidAmount))
        } else if penalty_per_breach <= 0 || penalty_per_breach > bond_amount {
            (self, Err(Error::InvalidAmount))
        } else {
            let id = self.next_sla_id;
            let config = Self::new_config(
                provider,
                token,
                bond_amount,
                uptime_target_bps,
                quorum_threshold,
                penalty_per_breach,
                beneficiary,
            );
            (
                VaultState {
                    next_sla_id: (id + 1) as u64,
                    slas: self.slas.insert(id, config),
                    balances: self.balances.insert(id, bond_amount),
                    ..self
                },
                Ok(SlaCreated { sla_id: id, provider, token, bond_amount, beneficiary }),
            )
        }
    }

    /// `create_sla` would move the id counter past `u64::MAX`.
    pub open spec fn create_sla_overflows(self, bond_amount: i128, penalty_per_breach: i128) -> bool {
        &&& !self.paused
        &&& bond_amount > 0
        &&& 0 < penalty_per_breach <= bond_amount
        &&& self.next_sla_id == u64::MAX
    }

    /// `get_sla`: the stored record, or `SlaNotFound`.
    pub open spec fn get_sla(self, sla_id: u64) -> Result<SLAConfig, Error> {
        if self.slas.contains_key(sla_id) {
            Ok(self.slas[sla_id])
        } else {
            Err(Error::SlaNotFound)
        }
    }

    /// `top_up_bond`: the amount must be positive, the SLA must exist and
    /// the caller must be its provider; the balance grows by the amount.
    /// The SLA's status and the pause flag play no part.
    pub open spec fn top_up_bond(self, caller: Address, sla_id: u64, amount: i128) -> (
        VaultState,
        Result<BondToppedUp, Error>,
    ) {
        if amount <= 0 {
            (self, Err(Error::InvalidAmount))
        } else if !self.slas.contains_key(sla_id) {
            (self, Err(Error::SlaNotFound))
        } else if self.slas[sla_id].provider != caller {
            (self, Err(Error::NotAuthorized))
        } else {
            (
                VaultState {
                    balances: self.balances.insert(
                        sla_id,
                        (self.balance_of(sla_id) + amount) as i128,
                    ),
                    ..self
                },
                Ok(BondToppedUp { sla_id, amount }),
            )
        }
    }

    /// `top_up_bond` would push the balance past `i128::MAX`.
    pub open spec fn top_up_overflows(self, caller: Address, sla_id: u64, amount: i128) -> bool {
        &&& amount > 0
        &&& self.slas.contains_key(sla_id)
        &&& self.slas[sla_id].provider == caller
        &&& self.balance_of(sla_id) + amount > i128::MAX
    }

    /// The checks that settlement makes before it asks the registry for the
    /// tally: the SLA exists and is Active, the round is not settled yet, and
    /// a registry is configured. On success, the registry to ask.
    pub open spec fn settlement_tally_source(self, sla_id: u64, round_id: u64) -> Result<
        Address,
        Error,
    > {
        if !self.slas.contains_key(sla_id) {
            Err(Error::SlaNotFound)
        } else if self.slas[sla_id].status != SLAStatus::Active {
            Err(Error::SlaNotActive)
        } else if self.settled.contains((sla_id, round_id)) {
            Err(Error::AlreadySettled)
        } else if self.watcher_registry is None {
            Err(Error::NotAuthorized)
        } else {
            Ok(self.watcher_registry->0)
        }
    }

    /// What settling a round pays: the penalty, capped at what is left of
    /// the bond.
    pub open spec fn payout_for(self, sla_id: u64) -> i128 {
        let penalty = self.slas[sla_id].penalty_per_breach;
        let balance = self.balance_of(sla_id);
        if penalty < balance {
            penalty
        } else {
            balance
        }
    }

    /// `trigger_settlement`, given the registry's tally for the round: after
    /// the checks of `settlement_tally_source`, the down votes must reach
    /// the SLA's quorum and the payout must be positive. The payout leaves
    /// the balance and the round is marked settled. The keeper `caller` needs
    /// no authority; the event records it.
    pub open spec fn trigger_settlement(
        self,
        caller: Address,
        sla_id: u64,
        round_id: u64,
        tally: RoundTally,
    ) -> (
        VaultState,
        Result<SettlementPaid, Error>,
    ) {
        match self.settlement_tally_source(sla_id, round_id) {
            Err(e) => (self, Err(e)),
            Ok(_) => {
                let config = self.slas[sla_id];
                let payout = self.payout_for(sla_id);
                if tally.votes_down < config.quorum_threshold {
                    (self, Err(Error::QuorumNotMet))
                } else if payout <= 0 {
                    (self, Err(Error::BondExhausted))
                } else {
                    (
                        VaultState {
                            balances: self.balances.insert(
                                sla_id,
                                (self.balance_of(sla_id) - payout) as i128,
                            ),
                            settled: self.settled.insert((sla_id, round_id)),
                            ..self
                        },
                        Ok(
                            SettlementPaid {
                                sla_id,
                                round_id,
                                payout,
                                beneficiary: config.beneficiary,
                                caller,
                            },
                        ),
                    )
                }
            },
        }
    }

    /// `cancel_sla`: the SLA must exist and the caller must be its provider;
    /// the SLA becomes Cancelled.
    pub open spec fn cancel_sla(self, caller: Address, sla_id: u64) -> (
        VaultState,
        Result<SlaCancelled, Error>,
    ) {
        if !self.slas.contains_key(sla_id) {
            (self, Err(Error::SlaNotFound))
        } else if self.slas[sla_id].provider != caller {
            (self, Err(Error::NotAuthorized))
        } else {
            (
                VaultState {
                    slas: self.slas.insert(
                        sla_id,
                        SLAConfig { status: SLAStatus::Cancelled, ..self.slas[sla_id] },
                    ),
                    ..self
                },
                Ok(SlaCancelled { sla_id }),
            )
        }
    }

    /// `withdraw_remaining_bond`: the SLA must exist, the caller must be its
    /// provider and the SLA must already be Cancelled. The whole remaining
    /// balance is handed back: a positive balance becomes zero.
    pub open spec fn withdraw_remaining_bond(self, caller: Address, sla_id: u64) -> (
        VaultState,
        Result<BondWithdrawn, Error>,
    ) {
        if !self.slas.contains_key(sla_id) {
            (self, Err(Error::SlaNotFound))
        } else if self.slas[sla_id].provider != caller {
            (self, Err(Error::NotAuthorized))
        } else if self.slas[sla_id].status != SLAStatus::Cancelled {
            (self, Err(Error::SlaNotActive))
        } else {
            let balance = self.balance_of(sla_id);
            (
                if balance > 0 {
                    VaultState { balances: self.balances.insert(sla_id, 0), ..self }
                } else {
                    self
                },
                Ok(BondWithdrawn { sla_id, amount: balance }),
            )
        }
    }

    /// `pause` (`paused == true`) and `unpause` (`paused == false`): the
    /// admin sets the pause flag.
    pub open spec fn set_paused(self, caller: Address, paused: bool) -> (
        VaultState,
        Result<(), Error>,
    ) {
        if !self.is_admin(caller) {
            (self, Err(Error::NotAuthorized))
        } else {
            (VaultState { paused, ..self }, Ok(()))
        }
    }

    /// The SLA whose entries the call may write: the new id for
    /// `create_sla`, the given id for the calls that take one, and none for
    /// the contract-wide calls.
    pub open spec fn target_of(self, call: VaultCall) -> Option<u64> {
        match call {
            VaultCall::CreateSla { .. } => Some(self.next_sla_id),
            VaultCall::TopUpBond { sla_id, .. } => Some(sla_id),
            VaultCall::TriggerSettlement { sla_id, .. } => Some(sla_id),
            VaultCall::CancelSla { sla_id, .. } => Some(sla_id),
            VaultCall::WithdrawRemainingBond { sla_id, .. } => Some(sla_id),
            _ => None,
        }
    }

    /// The two states hold the same contract-wide entries, and the same
    /// record, balance and settled flag for `(sla_id, round_id)`.
    pub open spec fn agree_at(self, other: VaultState, sla_id: u64, round_id: u64) -> bool {
        &&& self.admin == other.admin
        &&& self.watcher_registry == other.watcher_registry
        &&& self.next_sla_id == other.next_sla_id
        &&& self.paused == other.paused
        &&& self.slas.contains_key(sla_id) == other.slas.contains_key(sla_id)
        &&& self.slas.contains_key(sla_id) ==> self.slas[sla_id] == other.slas[sla_id]
        &&& self.balance_of(sla_id) == other.balance_of(sla_id)
        &&& self.settled.contains((sla_id, round_id)) == other.settled.contains((sla_id, round_id))
    }

    /// The call does not overflow a counter or a balance.
    pub open spec fn allows(self, call: VaultCall) -> bool {
        match call {
            VaultCall::CreateSla { bond_amount, penalty_per_breach, .. } => !self.create_sla_overflows(
                bond_amount,
                penalty_per_breach,
            ),
            VaultCall::TopUpBond { caller, sla_id, amount } => !self.top_up_overflows(
                caller,
                sla_id,
                amount,
            ),
            _ => true,
        }
    }

    /// The state after the call.
    pub open spec fn step(self, call: VaultCall) -> VaultState {
        match call {
            VaultCall::Initialize { admin, watcher_registry } => self.initialize(
                admin,
                watcher_registry,
            ).0,
            VaultCall::CreateSla {
                provider,
                token,
                bond_amount,
                uptime_target_bps,
                quorum_threshold,
                penalty_per_breach,
                beneficiary,
            } => self.create_sla(
                provider,
                token,
                bond_amount,
                uptime_target_bps,
                quorum_threshold,
                penalty_per_breach,
                beneficiary,
            ).0,
            VaultCall::TopUpBond { caller, sla_id, amount } => self.top_up_bond(
                caller,
                sla_id,
                amount,
            ).0,
            VaultCall::TriggerSettlement { caller, sla_id, round_id, tally } => self.trigger_settlement(
                caller,
                sla_id,
                round_id,
                tally,
            ).0,
            VaultCall::CancelSla { caller, sla_id } => self.cancel_sla(caller, sla_id).0,
            VaultCall::WithdrawRemainingBond { caller, sla_id } => self.withdraw_remaining_bond(
                caller,
                sla_id,
            ).0,
            VaultCall::Pause { caller } => self.set_paused(caller, true).0,
            VaultCall::Unpause { caller } => self.set_paused(caller, false).0,
        }
    }

    /// The call returns `Ok`.
    pub open spec fn succeeds(self, call: VaultCall) -> bool {
        match call {
            VaultCall::Initialize { admin, watcher_registry } => self.initialize(
                admin,
                watcher_registry,
            ).1 is Ok,
            VaultCall::CreateSla {
                provider,
                token,
                bond_amount,
                uptime_target_bps,
                quorum_threshold,
                penalty_per_breach,
                beneficiary,
            } => self.create_sla(
                provider,
                token,
                bond_amount,
                uptime_target_bps,
                quorum_threshold,
                penalty_per_breach,
                beneficiary,
            ).1 is Ok,
            VaultCall::TopUpBond { caller, sla_id, amount } => self.top_up_bond(
                caller,
                sla_id,
                amount,
            ).1 is Ok,
            VaultCall::TriggerSettlement { caller, sla_id, round_id, tally } => self.trigger_settlement(
                caller,
                sla_id,
                round_id,
                tally,
            ).1 is Ok,
            VaultCall::CancelSla { caller, sla_id } => self.cancel_sla(caller, sla_id).1 is Ok,
            VaultCall::WithdrawRemainingBond { caller, sla_id } => self.withdraw_remaining_bond(
                caller,
                sla_id,
            ).1 is Ok,
            VaultCall::Pause { caller } => self.set_paused(caller, true).1 is Ok,
            VaultCall::Unpause { caller } => self.set_paused(caller, false).1 is Ok,
        }
    }

    /// The tokens that the call's event moves into (positive) or out of
    /// (negative) the bond of SLA `id`: the bond of a new SLA, a top-up, a
    /// settlement's payout, a withdrawal's amount.
    pub open spec fn flow(self, call: VaultCall, id: u64) -> int {
        if !self.succeeds(call) {
            0
        } else {
            match call {
                VaultCall::CreateSla { bond_amount, .. } => if self.next_sla_id == id {
                    bond_amount as int
                } else {
                    0
                },
                VaultCall::TopUpBond { sla_id, amount, .. } => if sla_id == id {
                    amount as int
                } else {
                    0
                },
                VaultCall::TriggerSettlement { caller, sla_id, round_id, tally } => if sla_id == id {
                    -self.trigger_settlement(caller, sla_id, round_id, tally).1->Ok_0.payout
                } else {
                    0
                },
                VaultCall::WithdrawRemainingBond { caller, sla_id } => if sla_id == id {
                    -self.withdraw_remaining_bond(caller, sla_id).1->Ok_0.amount
                } else {
                    0
                },
                _ => 0,
            }
        }
    }

    /// The state after the calls, made in order.
    pub open spec fn run(self, calls: Seq<VaultCall>) -> VaultState
        decreases calls.len(),
    {
        if calls.len() == 0 {
            self
        } else {
            self.run(calls.drop_last()).step(calls.last())
        }
    }

    /// No call of the sequence overflows a counter or a balance.
    pub open spec fn allows_all(self, calls: Seq<VaultCall>) -> bool
        decreases calls.len(),
    {
        calls.len() == 0 || (self.allows_all(calls.drop_last()) && self.run(
            calls.drop_last(),
        ).allows(calls.last()))
    }

    /// The number of calls of the sequence that create an SLA.
    pub open spec fn created(self, calls: Seq<VaultCall>) -> nat
        decreases calls.len(),
    {
        if calls.len() == 0 {
            0
        } else {
            let before = self.run(calls.drop_last());
            self.created(calls.drop_last()) + if calls.last() is CreateSla && before.succeeds(
                calls.last(),
            ) {
                1nat
            } else {
                0nat
            }
        }
    }

    /// The tokens that the calls of the sequence move into or out of the
    /// bond of SLA `id`, in total.
    pub open spec fn net_flow(self, calls: Seq<VaultCall>, id: u64) -> int
        decreases calls.len(),
    {
        if calls.len() == 0 {
            0
        } else {
            self.net_flow(calls.drop_last(), id) + self.run(calls.drop_last()).flow(calls.last(), id)
        }
    }

    /// The vault has been initialized, and every stored SLA has an id below
    /// the counter: then `create_sla` never reuses an id.
    pub open spec fn ids_below_counter(self) -> bool {
        &&& self.admin is Some
        &&& forall|id: u64| #[trigger] self.slas.contains_key(id) ==> id < self.next_sla_id
    }

    /// The call is a successful settlement of round `round_id` of SLA
    /// `sla_id`.
    pub open spec fn pays(self, call: VaultCall, sla_id: u64, round_id: u64) -> bool {
        &&& call matches VaultCall::TriggerSettlement { sla_id: i, round_id: j, .. } && i == sla_id
            && j == round_id
        &&& self.succeeds(call)
    }
}

} // verus!
