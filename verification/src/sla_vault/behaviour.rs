//! What each vault call does, stated directly over its inputs and results.
use vstd::prelude::*;

use crate::address::Address;
use crate::sla_vault::events::{
    BondToppedUp, BondWithdrawn, SettlementPaid, SlaCancelled, SlaCreated,
};
use crate::sla_vault::state::{VaultCall, VaultState};
use crate::sla_vault::storage::{Error, SLAConfig, SLAStatus};
use crate::watcher_registry::storage::RoundTally;

verus! {

/// `initialize` succeeds exactly on a vault without an admin; it then sets
/// the admin and the registry and restarts the id counter, touching nothing
/// else. Otherwise it is refused and nothing changes.
pub proof fn lemma_initialize_behaviour(s: VaultState, admin: Address, watcher_registry: Address)
    ensures
        ({
            let (t, r) = s.initialize(admin, watcher_registry);
            &&& s.admin is Some ==> r == Err::<(), Error>(Error::AlreadyInitialized) && t == s
            &&& s.admin is None ==> {
                &&& r == Ok::<(), Error>(())
                &&& t == VaultState {
                    admin: Some(admin),
                    watcher_registry: Some(watcher_registry),
                    next_sla_id: 0,
                    ..s
                }
            }
        }),
{
}

/// `create_sla` on an unpaused vault succeeds exactly when the bond is
/// positive and the penalty lies in `1..=bond`. On success the new SLA
/// takes the counter's value as its id, is stored Active with exactly the
/// given terms, and its balance is the whole bond; the event repeats the
/// terms. A paused vault refuses every creation as `ContractPaused`; a bad
/// amount is refused as `InvalidAmount`; a refusal changes nothing.
pub proof fn lemma_create_sla_behaviour(
    s: VaultState,
    provider: Address,
    token: Address,
    bond_amount: i128,
    uptime_target_bps: u32,
    quorum_threshold: u32,
    penalty_per_breach: i128,
    beneficiary: Address,
)
    requires
        !s.create_sla_overflows(bond_amount, penalty_per_breach),
    ensures
        ({
            let (t, r) = s.create_sla(
                provider,
                token,
                bond_amount,
                uptime_target_bps,
                quorum_threshold,
                penalty_per_breach,
                beneficiary,
            );
            let valid = bond_amount > 0 && 0 < penalty_per_breach <= bond_amount;
            let id = s.next_sla_id;
            &&& s.paused ==> r == Err::<SlaCreated, Error>(Error::ContractPaused) && t == s
            &&& !s.paused && !valid ==> r == Err::<SlaCreated, Error>(Error::InvalidAmount) && t
                == s
            &&& (r is Ok <==> !s.paused && valid)
            &&& !s.paused && valid ==> {
                &&& r == Ok::<SlaCreated, Error>(
                    SlaCreated { sla_id: id, provider, token, bond_amount, beneficiary },
                )
                &&& t.next_sla_id == id + 1
                &&& t.slas == s.slas.insert(
                    id,
                    SLAConfig {
                        provider,
                        token,
                        bond_amount,
                        uptime_target_bps,
                        quorum_threshold,
                        penalty_per_breach,
                        beneficiary,
                        status: SLAStatus::Active,
                    },
                )
                &&& t.balances == s.balances.insert(id, bond_amount)
                &&& t.admin == s.admin && t.watcher_registry == s.watcher_registry
                &&& t.paused == s.paused && t.settled == s.settled
            }
        }),
{
}

/// `get_sla` hands back exactly the stored record, or `SlaNotFound`; the
/// stored balance of an SLA, or zero, is what `get_bond_balance` reads.
pub proof fn lemma_reads_behaviour(s: VaultState, sla_id: u64)
    ensures
        s.slas.contains_key(sla_id) ==> s.get_sla(sla_id) == Ok::<SLAConfig, Error>(
            s.slas[sla_id],
        ),
        !s.slas.contains_key(sla_id) ==> s.get_sla(sla_id) == Err::<SLAConfig, Error>(
            Error::SlaNotFound,
        ),
        s.balances.contains_key(sla_id) ==> s.balance_of(sla_id) == s.balances[sla_id],
        !s.balances.contains_key(sla_id) ==> s.balance_of(sla_id) == 0,
{
}

/// `top_up_bond` of a positive amount by the SLA's provider succeeds, with
/// no limit on the amount beyond the balance's range: the event names the
/// SLA and the amount, the balance grows by exactly the amount, and nothing
/// else changes. A non-positive amount is refused as `InvalidAmount`, an
/// unknown SLA as `SlaNotFound`, anyone but the provider as `NotAuthorized`,
/// in that order; a refusal changes nothing.
pub proof fn lemma_top_up_bond_behaviour(s: VaultState, caller: Address, sla_id: u64, amount: i128)
    requires
        !s.top_up_overflows(caller, sla_id, amount),
    ensures
        ({
            let (t, r) = s.top_up_bond(caller, sla_id, amount);
            &&& amount <= 0 ==> r == Err::<BondToppedUp, Error>(Error::InvalidAmount) && t == s
            &&& amount > 0 && !s.slas.contains_key(sla_id) ==> r == Err::<BondToppedUp, Error>(
                Error::SlaNotFound,
            ) && t == s
            &&& amount > 0 && s.slas.contains_key(sla_id) && s.slas[sla_id].provider != caller
                ==> r == Err::<BondToppedUp, Error>(Error::NotAuthorized) && t == s
            &&& amount > 0 && s.slas.contains_key(sla_id) && s.slas[sla_id].provider == caller
                ==> {
                &&& r == Ok::<BondToppedUp, Error>(BondToppedUp { sla_id, amount })
                &&& t.balance_of(sla_id) == s.balance_of(sla_id) + amount
                &&& t.balances.dom() == s.balances.dom().insert(sla_id)
                &&& forall|other: u64|
                    other != sla_id ==> #[trigger] t.balance_of(other) == s.balance_of(other)
                &&& t == VaultState { balances: t.balances, ..s }
            }
        }),
{
    let (t, _r) = s.top_up_bond(caller, sla_id, amount);
    if amount > 0 && s.slas.contains_key(sla_id) && s.slas[sla_id].provider == caller {
        assert(t.balances.dom() =~= s.balances.dom().insert(sla_id));
    }
}

/// The checks before the registry is asked: an unknown SLA is
/// `SlaNotFound`, a cancelled one `SlaNotActive`, a paid round
/// `AlreadySettled`, a vault without registry `NotAuthorized`, in that
/// order; otherwise the answer is the configured registry.
pub proof fn lemma_tally_source_behaviour(s: VaultState, sla_id: u64, round_id: u64)
    ensures
        ({
            let r = s.settlement_tally_source(sla_id, round_id);
            let exists = s.slas.contains_key(sla_id);
            let active = exists && s.slas[sla_id].status == SLAStatus::Active;
            let open = active && !s.settled.contains((sla_id, round_id));
            &&& !exists ==> r == Err::<Address, Error>(Error::SlaNotFound)
            &&& exists && !active ==> r == Err::<Address, Error>(Error::SlaNotActive)
            &&& active && !open ==> r == Err::<Address, Error>(Error::AlreadySettled)
            &&& open && s.watcher_registry is None ==> r == Err::<Address, Error>(
                Error::NotAuthorized,
            )
            &&& open && s.watcher_registry is Some ==> r == Ok::<Address, Error>(
                s.watcher_registry->0,
            )
        }),
{
}

/// `trigger_settlement`: once the checks before the registry pass, the
/// down votes alone decide. Fewer down votes than the SLA's quorum are
/// `QuorumNotMet`. Otherwise the payout is the penalty capped at the
/// balance; a payout of nothing is `BondExhausted`, and a positive one is
/// paid: the event names the SLA, the round, the payout, the SLA's
/// beneficiary and the keeper, the balance drops by the payout, the round
/// becomes settled, and nothing else changes. A refusal changes nothing.
pub proof fn lemma_trigger_settlement_behaviour(
    s: VaultState,
    keeper: Address,
    sla_id: u64,
    round_id: u64,
    tally: RoundTally,
)
    ensures
        ({
            let (t, r) = s.trigger_settlement(keeper, sla_id, round_id, tally);
            let checked = s.settlement_tally_source(sla_id, round_id);
            let c = s.slas[sla_id];
            let balance = s.balance_of(sla_id);
            let payout = if c.penalty_per_breach < balance {
                c.penalty_per_breach
            } else {
                balance
            };
            &&& checked is Err ==> r == Err::<SettlementPaid, Error>(checked->Err_0) && t == s
            &&& checked is Ok && tally.votes_down < c.quorum_threshold ==> r == Err::<
                SettlementPaid,
                Error,
            >(Error::QuorumNotMet) && t == s
            &&& checked is Ok && tally.votes_down >= c.quorum_threshold && payout <= 0 ==> r
                == Err::<SettlementPaid, Error>(Error::BondExhausted) && t == s
            &&& checked is Ok && tally.votes_down >= c.quorum_threshold && payout > 0 ==> {
                &&& r == Ok::<SettlementPaid, Error>(
                    SettlementPaid {
                        sla_id,
                        round_id,
                        payout,
                        beneficiary: c.beneficiary,
                        caller: keeper,
                    },
                )
                &&& t.balance_of(sla_id) == balance - payout
                &&& t.balances.dom() == s.balances.dom().insert(sla_id)
                &&& forall|other: u64|
                    other != sla_id ==> #[trigger] t.balance_of(other) == s.balance_of(other)
                &&& t.settled == s.settled.insert((sla_id, round_id))
                &&& t == VaultState { balances: t.balances, settled: t.settled, ..s }
            }
        }),
{
    let (t, _r) = s.trigger_settlement(keeper, sla_id, round_id, tally);
    assert(t.balances.dom() =~= s.balances.dom().insert(sla_id) || t == s);
}

/// For an Active SLA with an unpaid round, a registry and a positive
/// balance, settlement succeeds exactly when the down votes reach the
/// quorum, whatever the up votes are; otherwise it is `QuorumNotMet`.
pub proof fn lemma_down_votes_alone_decide(
    s: VaultState,
    keeper: Address,
    sla_id: u64,
    round_id: u64,
    tally: RoundTally,
    other: RoundTally,
)
    requires
        s.inv(),
        s.slas.contains_key(sla_id),
        s.slas[sla_id].status == SLAStatus::Active,
        !s.settled.contains((sla_id, round_id)),
        s.watcher_registry is Some,
        s.balance_of(sla_id) > 0,
    ensures
        s.trigger_settlement(keeper, sla_id, round_id, tally).1 is Ok <==> tally.votes_down
            >= s.slas[sla_id].quorum_threshold,
        tally.votes_down < s.slas[sla_id].quorum_threshold ==> s.trigger_settlement(
            keeper,
            sla_id,
            round_id,
            tally,
        ).1 == Err::<SettlementPaid, Error>(Error::QuorumNotMet),
        tally.votes_down == other.votes_down ==> s.trigger_settlement(
            keeper,
            sla_id,
            round_id,
            tally,
        ) == s.trigger_settlement(keeper, sla_id, round_id, other),
{
}

/// `cancel_sla` by the SLA's provider succeeds and changes only the
/// record's status, to Cancelled; an unknown SLA is `SlaNotFound`, anyone
/// else `NotAuthorized`, and a refusal changes nothing.
pub proof fn lemma_cancel_sla_behaviour(s: VaultState, caller: Address, sla_id: u64)
    ensures
        ({
            let (t, r) = s.cancel_sla(caller, sla_id);
            &&& !s.slas.contains_key(sla_id) ==> r == Err::<SlaCancelled, Error>(
                Error::SlaNotFound,
            ) && t == s
            &&& s.slas.contains_key(sla_id) && s.slas[sla_id].provider != caller ==> r == Err::<
                SlaCancelled,
                Error,
            >(Error::NotAuthorized) && t == s
            &&& s.slas.contains_key(sla_id) && s.slas[sla_id].provider == caller ==> {
                &&& r == Ok::<SlaCancelled, Error>(SlaCancelled { sla_id })
                &&& t.slas == s.slas.insert(
                    sla_id,
                    SLAConfig { status: SLAStatus::Cancelled, ..s.slas[sla_id] },
                )
                &&& t == VaultState { slas: t.slas, ..s }
            }
        }),
{
}

/// `withdraw_remaining_bond` by the provider of a Cancelled SLA succeeds,
/// hands back the whole balance (the event's amount) and leaves a positive
/// balance at zero, changing nothing else. An unknown SLA is `SlaNotFound`,
/// anyone but the provider `NotAuthorized`, an Active SLA `SlaNotActive`,
/// in that order; a refusal changes nothing.
pub proof fn lemma_withdraw_behaviour(s: VaultState, caller: Address, sla_id: u64)
    ensures
        ({
            let (t, r) = s.withdraw_remaining_bond(caller, sla_id);
            let exists = s.slas.contains_key(sla_id);
            let owner = exists && s.slas[sla_id].provider == caller;
            &&& !exists ==> r == Err::<BondWithdrawn, Error>(Error::SlaNotFound) && t == s
            &&& exists && !owner ==> r == Err::<BondWithdrawn, Error>(Error::NotAuthorized) && t
                == s
            &&& owner && s.slas[sla_id].status == SLAStatus::Active ==> r == Err::<
                BondWithdrawn,
                Error,
            >(Error::SlaNotActive) && t == s
            &&& owner && s.slas[sla_id].status == SLAStatus::Cancelled ==> {
                &&& r == Ok::<BondWithdrawn, Error>(
                    BondWithdrawn { sla_id, amount: s.balance_of(sla_id) },
                )
                &&& s.balance_of(sla_id) > 0 ==> t.balances == s.balances.insert(sla_id, 0)
                &&& s.balance_of(sla_id) <= 0 ==> t.balances == s.balances
                &&& t == VaultState { balances: t.balances, ..s }
            }
        }),
{
}

/// `pause` and `unpause` by the admin succeed and set only the pause flag;
/// anyone else, or any caller before initialization, is `NotAuthorized` and
/// nothing changes.
pub proof fn lemma_set_paused_behaviour(s: VaultState, caller: Address, paused: bool)
    ensures
        ({
            let (t, r) = s.set_paused(caller, paused);
            &&& s.admin == Some(caller) ==> r == Ok::<(), Error>(()) && t == VaultState {
                paused,
                ..s
            }
            &&& s.admin != Some(caller) ==> r == Err::<(), Error>(Error::NotAuthorized) && t == s
        }),
{
}

/// The terms of an SLA never change once it exists: whatever is called
/// later, its record keeps the provider, token, bond, target, quorum,
/// penalty and beneficiary it was created with; only the status may move.
pub proof fn lemma_record_terms_fixed(s: VaultState, calls: Seq<VaultCall>, sla_id: u64)
    requires
        s.ids_below_counter(),
        s.allows_all(calls),
        s.slas.contains_key(sla_id),
    ensures
        s.run(calls).slas.contains_key(sla_id),
        s.run(calls).slas[sla_id] == (SLAConfig {
            status: s.run(calls).slas[sla_id].status,
            ..s.slas[sla_id]
        }),
    decreases calls.len(),
{
    if calls.len() > 0 {
        lemma_record_terms_fixed(s, calls.drop_last(), sla_id);
        crate::sla_vault::laws::lemma_runs_keep_ids_below_counter(s, calls.drop_last());
    }
}

/// The only calls left out by `requires` are those where the original
/// arithmetic would overflow: a creation that would move the id counter past
/// `u64::MAX`, and a top-up by the provider that would push the balance past
/// `i128::MAX`.
pub proof fn lemma_overflow_bounds(
    s: VaultState,
    caller: Address,
    sla_id: u64,
    bond_amount: i128,
    penalty_per_breach: i128,
    amount: i128,
)
    ensures
        s.create_sla_overflows(bond_amount, penalty_per_breach) <==> (!s.paused && bond_amount > 0
            && 0 < penalty_per_breach <= bond_amount && s.next_sla_id == u64::MAX),
        s.top_up_overflows(caller, sla_id, amount) <==> (amount > 0 && s.slas.contains_key(sla_id)
            && s.slas[sla_id].provider == caller && s.balance_of(sla_id) + amount > i128::MAX),
{
}

/// A freshly deployed vault has no admin and no registry, is not paused,
/// hands out id 0 first, and holds no SLA, balance or settled round.
pub proof fn lemma_fresh_vault(sla_id: u64, round_id: u64)
    ensures
        VaultState::empty().admin is None,
        VaultState::empty().watcher_registry is None,
        !VaultState::empty().paused,
        VaultState::empty().next_sla_id == 0,
        !VaultState::empty().slas.contains_key(sla_id),
        VaultState::empty().balance_of(sla_id) == 0,
        !VaultState::empty().settled.contains((sla_id, round_id)),
{
}

} // verus!
