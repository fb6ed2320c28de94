//! Properties of the vault that span calls.
use vstd::prelude::*;

use crate::address::Address;
use crate::sla_vault::events::{BondWithdrawn, SettlementPaid};
use crate::sla_vault::state::{VaultCall, VaultState};
use crate::sla_vault::storage::{Error, SLAStatus};
use crate::watcher_registry::storage::RoundTally;

verus! {

/// Every vault call keeps the state invariant: each SLA has a balance and
/// nothing else does, balances never go negative, stored bonds and
/// penalties stay valid, and only rounds of existing SLAs are settled.
pub proof fn lemma_steps_keep_inv(s: VaultState, call: VaultCall)
    requires
        s.inv(),
        s.allows(call),
    ensures
        s.step(call).inv(),
{
    let t = s.step(call);
    assert(t.balances.dom() =~= t.slas.dom());
}

/// A settled round stays settled, whatever is called next.
pub proof fn lemma_settled_rounds_stay_settled(s: VaultState, call: VaultCall)
    ensures
        s.settled.subset_of(s.step(call).settled),
{
}

/// A settled round is never paid again: settling it once more is refused
/// and changes nothing. With the previous law, each round of each SLA is
/// paid at most once, ever.
pub proof fn lemma_settled_round_is_not_paid_again(
    s: VaultState,
    keeper: Address,
    sla_id: u64,
    round_id: u64,
    tally: RoundTally,
)
    requires
        s.settled.contains((sla_id, round_id)),
    ensures
        s.trigger_settlement(keeper, sla_id, round_id, tally).0 == s,
        s.trigger_settlement(keeper, sla_id, round_id, tally).1 is Err,
{
}

/// Right after a round is paid, asking again for it, with any tally, is
/// refused as `AlreadySettled`.
pub proof fn lemma_second_settlement_is_refused(
    s: VaultState,
    keeper: Address,
    keeper2: Address,
    sla_id: u64,
    round_id: u64,
    first: RoundTally,
    second: RoundTally,
)
    requires
        s.trigger_settlement(keeper, sla_id, round_id, first).1 is Ok,
    ensures
        s.trigger_settlement(keeper, sla_id, round_id, first).0.trigger_settlement(
            keeper2,
            sla_id,
            round_id,
            second,
        ).1 == Err::<SettlementPaid, Error>(Error::AlreadySettled),
{
}

/// A payout is positive, at most the penalty and at most the balance, and
/// the balance left behind is the old one less the payout, never negative.
pub proof fn lemma_payout_is_capped(
    s: VaultState,
    keeper: Address,
    sla_id: u64,
    round_id: u64,
    tally: RoundTally,
)
    requires
        s.inv(),
        s.trigger_settlement(keeper, sla_id, round_id, tally).1 is Ok,
    ensures
        ({
            let (t, r) = s.trigger_settlement(keeper, sla_id, round_id, tally);
            let payout = r->Ok_0.payout;
            &&& 0 < payout <= s.slas[sla_id].penalty_per_breach
            &&& payout <= s.balance_of(sla_id)
            &&& t.balance_of(sla_id) == s.balance_of(sla_id) - payout
            &&& t.balance_of(sla_id) >= 0
        }),
{
}

/// The bond balance follows the tokens: a new SLA's balance is the bond
/// that its creation moves into the vault, and a top-up raises the balance
/// by exactly the amount it moves in.
pub proof fn lemma_deposits_raise_the_balance(
    s: VaultState,
    provider: Address,
    token: Address,
    bond_amount: i128,
    uptime_target_bps: u32,
    quorum_threshold: u32,
    penalty_per_breach: i128,
    beneficiary: Address,
    caller: Address,
    sla_id: u64,
    amount: i128,
)
    requires
        !s.top_up_overflows(caller, sla_id, amount),
    ensures
        ({
            let (t, r) = s.create_sla(
                provider,
                token,
                bond_amount,
                uptime_target_bps,
                quorum_threshold,
                penalty_per_breach,
                beneficiary,
            );
            r is Ok ==> t.balance_of(r->Ok_0.sla_id) == r->Ok_0.bond_amount
        }),
        ({
            let (t, r) = s.top_up_bond(caller, sla_id, amount);
            r is Ok ==> t.balance_of(sla_id) == s.balance_of(sla_id) + r->Ok_0.amount
        }),
{
}

/// Payouts lower the bond balance by exactly what they move out of the
/// vault: a settlement by its payout, a withdrawal by its amount (which
/// leaves nothing).
pub proof fn lemma_payouts_lower_the_balance(
    s: VaultState,
    keeper: Address,
    caller: Address,
    sla_id: u64,
    round_id: u64,
    tally: RoundTally,
)
    requires
        s.inv(),
    ensures
        ({
            let (t, r) = s.trigger_settlement(keeper, sla_id, round_id, tally);
            r is Ok ==> t.balance_of(sla_id) == s.balance_of(sla_id) - r->Ok_0.payout
        }),
        ({
            let (t, r) = s.withdraw_remaining_bond(caller, sla_id);
            r is Ok ==> {
                &&& t.balance_of(sla_id) == s.balance_of(sla_id) - r->Ok_0.amount
                &&& t.balance_of(sla_id) == 0
            }
        }),
{
}

/// Pausing halts new commitments, not existing obligations: whether the
/// vault is paused makes no difference to top-ups, settlements,
/// cancellations and withdrawals, while a paused vault refuses every new
/// SLA.
pub proof fn lemma_pause_spares_obligations(
    s: VaultState,
    keeper: Address,
    paused: bool,
    caller: Address,
    sla_id: u64,
    round_id: u64,
    amount: i128,
    tally: RoundTally,
)
    ensures
        ({
            let p = VaultState { paused, ..s };
            &&& p.top_up_bond(caller, sla_id, amount).1 == s.top_up_bond(caller, sla_id, amount).1
            &&& p.top_up_bond(caller, sla_id, amount).0 == VaultState {
                paused,
                ..s.top_up_bond(caller, sla_id, amount).0
            }
            &&& p.trigger_settlement(keeper, sla_id, round_id, tally).1 == s.trigger_settlement(
                keeper,
                sla_id,
                round_id,
                tally,
            ).1
            &&& p.trigger_settlement(keeper, sla_id, round_id, tally).0 == VaultState {
                paused,
                ..s.trigger_settlement(keeper, sla_id, round_id, tally).0
            }
            &&& p.cancel_sla(caller, sla_id).1 == s.cancel_sla(caller, sla_id).1
            &&& p.withdraw_remaining_bond(caller, sla_id).1 == s.withdraw_remaining_bond(
                caller,
                sla_id,
            ).1
        }),
{
}

/// A paused vault refuses every new SLA and stays as it was.
pub proof fn lemma_paused_vault_refuses_new_slas(
    s: VaultState,
    provider: Address,
    token: Address,
    bond_amount: i128,
    uptime_target_bps: u32,
    quorum_threshold: u32,
    penalty_per_breach: i128,
    beneficiary: Address,
)
    requires
        s.paused,
    ensures
        s.create_sla(
            provider,
            token,
            bond_amount,
            uptime_target_bps,
            quorum_threshold,
            penalty_per_breach,
            beneficiary,
        ) == (s, Err::<crate::sla_vault::events::SlaCreated, Error>(Error::ContractPaused)),
{
}

/// A new SLA reads back as written: it has the next id, it is stored Active
/// with the given terms, and its balance is the whole bond.
pub proof fn lemma_created_sla_reads_back(
    s: VaultState,
    provider: Address,
    token: Address,
    bond_amount: i128,
    uptime_target_bps: u32,
    quorum_threshold: u32,
    penalty_per_breach: i128,
    beneficiary: Address,
)
    requires
        s.create_sla(
            provider,
            token,
            bond_amount,
            uptime_target_bps,
            quorum_threshold,
            penalty_per_breach,
            beneficiary,
        ).1 is Ok,
    ensures
        ({
            let (t, r) = s.create_sla(
                provider,
                token,
                bond_amount,
                uptime_target_bps,
                quorum_threshold,
                penalty_per_breach,
                beneficiary,
            );
            let id = r->Ok_0.sla_id;
            &&& id == s.next_sla_id
            &&& t.get_sla(id) == Ok::<crate::sla_vault::storage::SLAConfig, Error>(
                VaultState::new_config(
                    provider,
                    token,
                    bond_amount,
                    uptime_target_bps,
                    quorum_threshold,
                    penalty_per_breach,
                    beneficiary,
                ),
            )
            &&& t.balance_of(id) == bond_amount
        }),
{
}

/// A cancelled SLA pays no more: after a successful cancellation every
/// settlement of it is refused as `SlaNotActive`.
pub proof fn lemma_cancelled_sla_pays_no_more(
    s: VaultState,
    keeper: Address,
    caller: Address,
    sla_id: u64,
    round_id: u64,
    tally: RoundTally,
)
    requires
        s.cancel_sla(caller, sla_id).1 is Ok,
    ensures
        s.cancel_sla(caller, sla_id).0.trigger_settlement(keeper, sla_id, round_id, tally) == (
            s.cancel_sla(caller, sla_id).0,
            Err::<SettlementPaid, Error>(Error::SlaNotActive),
        ),
{
}

/// The bond cannot be withdrawn while the SLA is Active; once the provider
/// has cancelled it, withdrawing hands back the whole remaining balance and
/// leaves none.
pub proof fn lemma_withdraw_needs_cancel(s: VaultState, caller: Address, sla_id: u64)
    requires
        s.inv(),
        s.slas.contains_key(sla_id),
        s.slas[sla_id].provider == caller,
    ensures
        s.slas[sla_id].status == SLAStatus::Active ==> s.withdraw_remaining_bond(caller, sla_id)
            == (s, Err::<BondWithdrawn, Error>(Error::SlaNotActive)),
        ({
            let c = s.cancel_sla(caller, sla_id).0;
            let (w, r) = c.withdraw_remaining_bond(caller, sla_id);
            &&& r == Ok::<BondWithdrawn, Error>(
                BondWithdrawn { sla_id, amount: s.balance_of(sla_id) },
            )
            &&& w.balance_of(sla_id) == 0
        }),
{
}

/// `initialize` works once: a second call is refused and changes nothing.
pub proof fn lemma_initialize_once(
    s: VaultState,
    admin: Address,
    watcher_registry: Address,
    admin2: Address,
    watcher_registry2: Address,
)
    requires
        s.initialize(admin, watcher_registry).1 is Ok,
    ensures
        ({
            let t = s.initialize(admin, watcher_registry).0;
            t.initialize(admin2, watcher_registry2) == (t, Err::<(), Error>(
                Error::AlreadyInitialized,
            ))
        }),
{
}

/// A call writes only the entries of the SLA it targets: every other SLA
/// keeps its record, its balance and its settled rounds.
pub proof fn lemma_calls_touch_one_sla(s: VaultState, call: VaultCall, other: u64, round_id: u64)
    requires
        s.target_of(call) != Some(other),
    ensures
        ({
            let t = s.step(call);
            &&& t.slas.contains_key(other) == s.slas.contains_key(other)
            &&& s.slas.contains_key(other) ==> t.slas[other] == s.slas[other]
            &&& t.balance_of(other) == s.balance_of(other)
            &&& t.settled.contains((other, round_id)) == s.settled.contains((other, round_id))
        }),
{
}

/// The calls that name an SLA read nothing but the contract-wide entries
/// and that SLA's record, balance and (for settlement) the round's flag:
/// two states that agree there give the same answer and still agree there
/// afterwards. The same holds of `pause`, `unpause` and `initialize`.
pub proof fn lemma_calls_read_only_their_sla(
    s1: VaultState,
    s2: VaultState,
    keeper: Address,
    caller: Address,
    sla_id: u64,
    round_id: u64,
    amount: i128,
    tally: RoundTally,
    paused: bool,
    watcher_registry: Address,
)
    requires
        s1.agree_at(s2, sla_id, round_id),
    ensures
        s1.top_up_bond(caller, sla_id, amount).1 == s2.top_up_bond(caller, sla_id, amount).1,
        s1.top_up_bond(caller, sla_id, amount).0.agree_at(
            s2.top_up_bond(caller, sla_id, amount).0,
            sla_id,
            round_id,
        ),
        s1.settlement_tally_source(sla_id, round_id) == s2.settlement_tally_source(
            sla_id,
            round_id,
        ),
        s1.trigger_settlement(keeper, sla_id, round_id, tally).1 == s2.trigger_settlement(
            keeper,
            sla_id,
            round_id,
            tally,
        ).1,
        s1.trigger_settlement(keeper, sla_id, round_id, tally).0.agree_at(
            s2.trigger_settlement(keeper, sla_id, round_id, tally).0,
            sla_id,
            round_id,
        ),
        s1.cancel_sla(caller, sla_id).1 == s2.cancel_sla(caller, sla_id).1,
        s1.cancel_sla(caller, sla_id).0.agree_at(s2.cancel_sla(caller, sla_id).0, sla_id, round_id),
        s1.withdraw_remaining_bond(caller, sla_id).1 == s2.withdraw_remaining_bond(caller, sla_id).1,
        s1.withdraw_remaining_bond(caller, sla_id).0.agree_at(
            s2.withdraw_remaining_bond(caller, sla_id).0,
            sla_id,
            round_id,
        ),
        s1.set_paused(caller, paused).1 == s2.set_paused(caller, paused).1,
        s1.set_paused(caller, paused).0.agree_at(s2.set_paused(caller, paused).0, sla_id, round_id),
        s1.initialize(caller, watcher_registry).1 == s2.initialize(caller, watcher_registry).1,
        s1.initialize(caller, watcher_registry).0.agree_at(
            s2.initialize(caller, watcher_registry).0,
            sla_id,
            round_id,
        ),
{
}

/// `create_sla` reads only the contract-wide entries, and writes the new
/// SLA's record and balance: two states that agree on those and on the new
/// id's entries give the same answer and still agree there afterwards.
pub proof fn lemma_create_sla_reads_only_the_counter(
    s1: VaultState,
    s2: VaultState,
    provider: Address,
    token: Address,
    bond_amount: i128,
    uptime_target_bps: u32,
    quorum_threshold: u32,
    penalty_per_breach: i128,
    beneficiary: Address,
    round_id: u64,
)
    requires
        s1.agree_at(s2, s1.next_sla_id, round_id),
    ensures
        ({
            let (t1, r1) = s1.create_sla(
                provider,
                token,
                bond_amount,
                uptime_target_bps,
                quorum_threshold,
                penalty_per_breach,
                beneficiary,
            );
            let (t2, r2) = s2.create_sla(
                provider,
                token,
                bond_amount,
                uptime_target_bps,
                quorum_threshold,
                penalty_per_breach,
                beneficiary,
            );
            &&& r1 == r2
            &&& t1.agree_at(t2, s1.next_sla_id, round_id)
        }),
{
}

// Laws over sequences of calls.

/// A freshly deployed vault satisfies the invariant, and once initialized it
/// also has every SLA id below the counter.
pub proof fn lemma_initialized_vault(admin: Address, watcher_registry: Address)
    ensures
        VaultState::empty().inv(),
        VaultState::empty().initialize(admin, watcher_registry).0.inv(),
        VaultState::empty().initialize(admin, watcher_registry).0.ids_below_counter(),
{
    assert(VaultState::empty().balances.dom() =~= VaultState::empty().slas.dom());
}

/// After initialization, every call keeps every SLA id below the counter.
pub proof fn lemma_steps_keep_ids_below_counter(s: VaultState, call: VaultCall)
    requires
        s.ids_below_counter(),
        s.allows(call),
    ensures
        s.step(call).ids_below_counter(),
{
}

/// The invariant holds after any sequence of calls that overflows nothing.
pub proof fn lemma_runs_keep_inv(s: VaultState, calls: Seq<VaultCall>)
    requires
        s.inv(),
        s.allows_all(calls),
    ensures
        s.run(calls).inv(),
    decreases calls.len(),
{
    if calls.len() > 0 {
        lemma_runs_keep_inv(s, calls.drop_last());
        lemma_steps_keep_inv(s.run(calls.drop_last()), calls.last());
    }
}

/// After initialization, every SLA id stays below the counter whatever is
/// called.
pub proof fn lemma_runs_keep_ids_below_counter(s: VaultState, calls: Seq<VaultCall>)
    requires
        s.ids_below_counter(),
        s.allows_all(calls),
    ensures
        s.run(calls).ids_below_counter(),
    decreases calls.len(),
{
    if calls.len() > 0 {
        lemma_runs_keep_ids_below_counter(s, calls.drop_last());
        lemma_steps_keep_ids_below_counter(s.run(calls.drop_last()), calls.last());
    }
}

/// SLA ids are handed out consecutively: once the vault is initialized, the
/// counter moves only by one for each SLA created, and each new SLA gets the
/// counter's value. So no two SLAs created after initialization share an id.
pub proof fn lemma_ids_are_consecutive(s: VaultState, calls: Seq<VaultCall>)
    requires
        s.admin is Some,
        s.allows_all(calls),
    ensures
        s.run(calls).admin == s.admin,
        s.run(calls).next_sla_id == s.next_sla_id + s.created(calls),
    decreases calls.len(),
{
    if calls.len() > 0 {
        lemma_ids_are_consecutive(s, calls.drop_last());
    }
}

/// A cancelled SLA stays cancelled, with the same provider, whatever is
/// called later, and every later settlement of it is refused.
pub proof fn lemma_cancelled_stays_cancelled(
    s: VaultState,
    calls: Seq<VaultCall>,
    sla_id: u64,
    keeper: Address,
    round_id: u64,
    tally: RoundTally,
)
    requires
        s.ids_below_counter(),
        s.allows_all(calls),
        s.slas.contains_key(sla_id),
        s.slas[sla_id].status == SLAStatus::Cancelled,
    ensures
        s.run(calls).slas.contains_key(sla_id),
        s.run(calls).slas[sla_id].status == SLAStatus::Cancelled,
        s.run(calls).slas[sla_id].provider == s.slas[sla_id].provider,
        s.run(calls).trigger_settlement(keeper, sla_id, round_id, tally) == (
            s.run(calls),
            Err::<SettlementPaid, Error>(Error::SlaNotActive),
        ),
    decreases calls.len(),
{
    if calls.len() > 0 {
        lemma_cancelled_stays_cancelled(s, calls.drop_last(), sla_id, keeper, round_id, tally);
        lemma_runs_keep_ids_below_counter(s, calls.drop_last());
    }
}

/// An SLA that was Active (or not yet created) becomes Cancelled only
/// through a successful `cancel_sla` of it, which only its provider can make.
pub proof fn lemma_cancelled_only_by_cancel(s: VaultState, calls: Seq<VaultCall>, sla_id: u64)
    requires
        s.ids_below_counter(),
        s.allows_all(calls),
        !s.slas.contains_key(sla_id) || s.slas[sla_id].status == SLAStatus::Active,
        s.run(calls).slas.contains_key(sla_id),
        s.run(calls).slas[sla_id].status == SLAStatus::Cancelled,
    ensures
        exists|k: int|
            0 <= k < calls.len() && (calls[k] matches VaultCall::CancelSla { sla_id: i, .. } && i
                == sla_id) && #[trigger] s.run(calls.take(k)).succeeds(calls[k]),
    decreases calls.len(),
{
    let before = s.run(calls.drop_last());
    lemma_runs_keep_ids_below_counter(s, calls.drop_last());
    assert(calls.take(calls.len() - 1) =~= calls.drop_last());
    if before.slas.contains_key(sla_id) && before.slas[sla_id].status == SLAStatus::Cancelled {
        lemma_cancelled_only_by_cancel(s, calls.drop_last(), sla_id);
        let k = choose|k: int|
            0 <= k < calls.drop_last().len() && (calls.drop_last()[k] matches VaultCall::CancelSla {
                sla_id: i,
                ..
            } && i == sla_id) && #[trigger] s.run(calls.drop_last().take(k)).succeeds(
                calls.drop_last()[k],
            );
        assert(calls.drop_last().take(k) =~= calls.take(k));
        assert(calls.drop_last()[k] == calls[k]);
    } else {
        let k = calls.len() - 1;
        assert(calls[k] == calls.last());
        match calls.last() {
            VaultCall::CancelSla { caller, sla_id: i } => {
                assert(i == sla_id);
                assert(before.cancel_sla(caller, i).1 is Ok);
            },
            VaultCall::CreateSla { .. } => {
                assert(before.next_sla_id != sla_id || !before.slas.contains_key(sla_id));
            },
            _ => {},
        }
        assert(s.run(calls.take(k)).succeeds(calls[k]));
    }
}

/// The bond goes back to the provider only after a cancellation: a
/// withdrawal that succeeds comes after a successful `cancel_sla` of that
/// SLA, made by its provider.
pub proof fn lemma_withdrawal_follows_a_cancellation(
    s: VaultState,
    calls: Seq<VaultCall>,
    caller: Address,
    sla_id: u64,
)
    requires
        s.ids_below_counter(),
        s.allows_all(calls),
        !s.slas.contains_key(sla_id) || s.slas[sla_id].status == SLAStatus::Active,
        s.run(calls).withdraw_remaining_bond(caller, sla_id).1 is Ok,
    ensures
        exists|k: int|
            0 <= k < calls.len() && (calls[k] matches VaultCall::CancelSla { sla_id: i, .. } && i
                == sla_id) && #[trigger] s.run(calls.take(k)).succeeds(calls[k]),
{
    lemma_cancelled_only_by_cancel(s, calls, sla_id);
}

/// One call settles round `round_id` of SLA `sla_id` exactly when it pays
/// it; otherwise the round's flag stays as it was.
pub proof fn lemma_step_settles_what_it_pays(
    s: VaultState,
    call: VaultCall,
    sla_id: u64,
    round_id: u64,
)
    ensures
        s.step(call).settled.contains((sla_id, round_id)) <==> (s.settled.contains(
            (sla_id, round_id),
        ) || s.pays(call, sla_id, round_id)),
{
}

/// A round reads as settled exactly when it already was, or some call of
/// the sequence paid it.
pub proof fn lemma_settled_exactly_when_paid(
    s: VaultState,
    calls: Seq<VaultCall>,
    sla_id: u64,
    round_id: u64,
)
    ensures
        s.run(calls).settled.contains((sla_id, round_id)) <==> (s.settled.contains(
            (sla_id, round_id),
        ) || exists|k: int|
            0 <= k < calls.len() && #[trigger] s.run(calls.take(k)).pays(
                calls[k],
                sla_id,
                round_id,
            )),
    decreases calls.len(),
{
    if calls.len() > 0 {
        let d = calls.drop_last();
        lemma_settled_exactly_when_paid(s, d, sla_id, round_id);
        lemma_step_settles_what_it_pays(s.run(d), calls.last(), sla_id, round_id);
        assert(calls.take(calls.len() - 1) =~= d);
        if exists|k: int| 0 <= k < d.len() && #[trigger] s.run(d.take(k)).pays(d[k], sla_id, round_id) {
            let k = choose|k: int|
                0 <= k < d.len() && #[trigger] s.run(d.take(k)).pays(d[k], sla_id, round_id);
            assert(d.take(k) =~= calls.take(k));
            assert(s.run(calls.take(k)).pays(calls[k], sla_id, round_id));
        }
        if exists|k: int|
            0 <= k < calls.len() && #[trigger] s.run(calls.take(k)).pays(
                calls[k],
                sla_id,
                round_id,
            ) {
            let k = choose|k: int|
                0 <= k < calls.len() && #[trigger] s.run(calls.take(k)).pays(
                    calls[k],
                    sla_id,
                    round_id,
                );
            if k < d.len() {
                assert(d.take(k) =~= calls.take(k));
                assert(s.run(d.take(k)).pays(d[k], sla_id, round_id));
            } else {
                assert(calls[k] == calls.last());
            }
        }
        if s.run(d).pays(calls.last(), sla_id, round_id) {
            let k = calls.len() - 1;
            assert(calls[k] == calls.last());
            assert(s.run(calls.take(k)).pays(calls[k], sla_id, round_id));
        }
    }
}

/// One call changes the bond balance of SLA `id` by exactly the tokens its
/// event moves for that SLA.
pub proof fn lemma_step_balance_is_flow(s: VaultState, call: VaultCall, id: u64)
    requires
        s.inv(),
        s.ids_below_counter(),
        s.allows(call),
    ensures
        s.step(call).balance_of(id) == s.balance_of(id) + s.flow(call, id),
{
    if call is CreateSla && s.succeeds(call) && s.next_sla_id == id {
        assert(!s.slas.contains_key(id));
        assert(!s.balances.contains_key(id));
    }
}

/// The bond balance is the bond plus the top-ups, less the payouts and the
/// withdrawals: after initialization, over any sequence of calls, the
/// balance of each SLA moves by exactly the tokens the calls' events move
/// for it.
pub proof fn lemma_balance_is_net_flow(s: VaultState, calls: Seq<VaultCall>, id: u64)
    requires
        s.inv(),
        s.ids_below_counter(),
        s.allows_all(calls),
    ensures
        s.run(calls).balance_of(id) == s.balance_of(id) + s.net_flow(calls, id),
    decreases calls.len(),
{
    if calls.len() > 0 {
        lemma_balance_is_net_flow(s, calls.drop_last(), id);
        lemma_runs_keep_inv(s, calls.drop_last());
        lemma_runs_keep_ids_below_counter(s, calls.drop_last());
        lemma_step_balance_is_flow(s.run(calls.drop_last()), calls.last(), id);
    }
}

} // verus!
