use std::collections::HashMap;

use slasettle::address::{Address, AddressKind};
use slasettle::sla_vault::events::{
    BondToppedUp, BondWithdrawn, SettlementPaid, SlaCancelled, SlaCreated,
};
use slasettle::sla_vault::storage::{Error, SLAConfig, SLAStatus};
use slasettle::sla_vault::SlaVault;
use slasettle::watcher_registry::storage::RoundTally;
use slasettle::watcher_registry::WatcherRegistry;

fn account(n: u128) -> Address {
    Address::new(AddressKind::Account, 0, n)
}

fn contract(n: u128) -> Address {
    Address::new(AddressKind::Contract, 7, n)
}

/// Token balances, standing in for the token contract that the host calls.
struct TokenLedger {
    balances: HashMap<Address, i128>,
}

impl TokenLedger {
    fn new() -> Self {
        TokenLedger { balances: HashMap::new() }
    }

    fn mint(&mut self, to: Address, amount: i128) {
        *self.balances.entry(to).or_insert(0) += amount;
    }

    fn transfer(&mut self, from: Address, to: Address, amount: i128) {
        let have = self.balance(from);
        assert!(have >= amount, "insufficient balance");
        self.balances.insert(from, have - amount);
        self.mint(to, amount);
    }

    fn balance(&self, who: Address) -> i128 {
        *self.balances.get(&who).unwrap_or(&0)
    }
}

struct Setup {
    vault: SlaVault,
    admin: Address,
    registry_id: Address,
    vault_id: Address,
}

fn setup() -> Setup {
    let admin = account(1);
    let registry_id = contract(100);
    let vault_id = contract(200);

    let mut registry = WatcherRegistry::default();
    registry.initialize(admin).unwrap();

    let mut vault = SlaVault::default();
    vault.initialize(admin, registry_id).unwrap();

    Setup { vault, admin, registry_id, vault_id }
}

fn tally(down: u32) -> RoundTally {
    RoundTally { votes_up: 0, votes_down: down }
}

/// Creates the SLA used by most tests: bond 1000, quorum 3, penalty 500.
fn create_test_sla(
    s: &mut Setup,
    ledger: &mut TokenLedger,
    n: u128,
) -> (u64, Address, Address, Address) {
    let token_id = contract(300 + n);
    let provider = account(10 + n);
    let beneficiary = account(20 + n);
    ledger.mint(provider, 10_000i128);

    let created = s
        .vault
        .create_sla(provider, token_id, 1_000i128, 9990u32, 3u32, 500i128, beneficiary)
        .unwrap();
    ledger.transfer(created.provider, s.vault_id, created.bond_amount);

    (created.sla_id, provider, beneficiary, token_id)
}

#[test]
fn test_initialize_succeeds() {
    let s = setup();
    assert_eq!(s.vault.get_bond_balance(0), 0);
}

#[test]
fn test_initialize_twice_fails() {
    let mut s = setup();
    let result = s.vault.initialize(s.admin, s.registry_id);
    assert_eq!(result, Err(Error::AlreadyInitialized));
}

#[test]
fn test_create_sla_locks_bond_and_returns_id() {
    let mut s = setup();
    let mut ledger = TokenLedger::new();
    let token_id = contract(301);
    let provider = account(11);
    let beneficiary = account(21);
    ledger.mint(provider, 10_000i128);

    let created = s
        .vault
        .create_sla(provider, token_id, 1_000i128, 9990u32, 3u32, 500i128, beneficiary)
        .unwrap();
    ledger.transfer(created.provider, s.vault_id, created.bond_amount);
    let sla_id = created.sla_id;

    assert_eq!(sla_id, 0);
    assert_eq!(s.vault.get_bond_balance(sla_id), 1_000i128);
    assert_eq!(ledger.balance(provider), 9_000i128);
}

#[test]
fn test_create_sla_zero_bond_fails() {
    let mut s = setup();
    let token_id = contract(301);
    let provider = account(11);
    let beneficiary = account(21);

    let result = s.vault.create_sla(provider, token_id, 0i128, 9990u32, 3u32, 500i128, beneficiary);
    assert_eq!(result, Err(Error::InvalidAmount));
}

#[test]
fn test_create_sla_penalty_exceeding_bond_fails() {
    let mut s = setup();
    let mut ledger = TokenLedger::new();
    let token_id = contract(301);
    let provider = account(11);
    let beneficiary = account(21);
    ledger.mint(provider, 10_000i128);

    let result = s.vault.create_sla(
        provider,
        token_id,
        1_000i128,
        9990u32,
        3u32,
        1_500i128,
        beneficiary,
    );
    assert_eq!(result, Err(Error::InvalidAmount));
}

#[test]
fn test_create_sla_zero_penalty_fails() {
    let mut s = setup();
    let mut ledger = TokenLedger::new();
    let token_id = contract(301);
    let provider = account(11);
    let beneficiary = account(21);
    ledger.mint(provider, 10_000i128);

    let result = s.vault.create_sla(
        provider,
        token_id,
        1_000i128,
        9990u32,
        3u32,
        0i128,
        beneficiary,
    );
    assert_eq!(result, Err(Error::InvalidAmount));
}

#[test]
fn test_top_up_bond_increases_balance() {
    let mut s = setup();
    let mut ledger = TokenLedger::new();
    let (sla_id, provider, _beneficiary, _token) = create_test_sla(&mut s, &mut ledger, 1);

    s.vault.top_up_bond(provider, sla_id, 300i128).unwrap();

    assert_eq!(s.vault.get_bond_balance(sla_id), 1_300i128);
}

#[test]
fn test_top_up_bond_by_non_provider_fails() {
    let mut s = setup();
    let mut ledger = TokenLedger::new();
    let (sla_id, _provider, _beneficiary, _token) = create_test_sla(&mut s, &mut ledger, 1);
    let not_provider = account(99);

    let result = s.vault.top_up_bond(not_provider, sla_id, 300i128);
    assert_eq!(result, Err(Error::NotAuthorized));
}

#[test]
fn test_top_up_bond_zero_amount_fails() {
    let mut s = setup();
    let mut ledger = TokenLedger::new();
    let (sla_id, provider, _beneficiary, _token) = create_test_sla(&mut s, &mut ledger, 1);

    let result = s.vault.top_up_bond(provider, sla_id, 0i128);
    assert_eq!(result, Err(Error::InvalidAmount));
}

#[test]
fn test_top_up_bond_unknown_sla_fails() {
    let mut s = setup();
    let mut ledger = TokenLedger::new();
    let (_sla_id, provider, _beneficiary, _token) = create_test_sla(&mut s, &mut ledger, 1);

    let result = s.vault.top_up_bond(provider, 999u64, 300i128);
    assert_eq!(result, Err(Error::SlaNotFound));
}

#[test]
fn create_sla_event_names_the_deposit() {
    let mut s = setup();
    let token_id = contract(301);
    let provider = account(11);
    let beneficiary = account(21);
    let created = s
        .vault
        .create_sla(provider, token_id, 1_000, 9990, 3, 500, beneficiary)
        .unwrap();
    assert_eq!(
        created,
        SlaCreated { sla_id: 0, provider, token: token_id, bond_amount: 1_000, beneficiary }
    );
    assert_eq!(
        s.vault.get_sla(0),
        Ok(SLAConfig {
            provider,
            token: token_id,
            bond_amount: 1_000,
            uptime_target_bps: 9990,
            quorum_threshold: 3,
            penalty_per_breach: 500,
            beneficiary,
            status: SLAStatus::Active,
        })
    );
}

#[test]
fn sla_ids_are_sequential() {
    let mut s = setup();
    let mut ledger = TokenLedger::new();
    let (first, ..) = create_test_sla(&mut s, &mut ledger, 1);
    let (second, ..) = create_test_sla(&mut s, &mut ledger, 2);
    assert_eq!((first, second), (0, 1));
}

#[test]
fn create_sla_penalty_equal_to_bond_is_accepted() {
    let mut s = setup();
    let r = s.vault.create_sla(account(11), contract(301), 1_000, 9990, 3, 1_000, account(21));
    assert!(r.is_ok());
}

#[test]
fn create_sla_negative_bond_fails() {
    let mut s = setup();
    let r = s.vault.create_sla(account(11), contract(301), -5, 9990, 3, 1, account(21));
    assert_eq!(r, Err(Error::InvalidAmount));
}

#[test]
fn get_sla_unknown_fails() {
    let s = setup();
    assert_eq!(s.vault.get_sla(4), Err(Error::SlaNotFound));
    assert_eq!(s.vault.get_bond_balance(4), 0);
}

#[test]
fn top_up_event_names_the_amount() {
    let mut s = setup();
    let mut ledger = TokenLedger::new();
    let (sla_id, provider, ..) = create_test_sla(&mut s, &mut ledger, 1);
    assert_eq!(
        s.vault.top_up_bond(provider, sla_id, 300),
        Ok(BondToppedUp { sla_id, amount: 300 })
    );
    assert_eq!(s.vault.top_up_bond(provider, sla_id, -1), Err(Error::InvalidAmount));
}

#[test]
fn pause_blocks_new_slas_but_not_obligations() {
    let mut s = setup();
    let mut ledger = TokenLedger::new();
    let (sla_id, provider, beneficiary, _token) = create_test_sla(&mut s, &mut ledger, 1);

    s.vault.pause(s.admin).unwrap();
    assert_eq!(
        s.vault.create_sla(account(12), contract(302), 1_000, 9990, 3, 500, account(22)),
        Err(Error::ContractPaused)
    );
    // Invalid amounts are reported as paused too: the pause check comes first.
    assert_eq!(
        s.vault.create_sla(account(12), contract(302), 0, 9990, 3, 500, account(22)),
        Err(Error::ContractPaused)
    );
    assert_eq!(
        s.vault.top_up_bond(provider, sla_id, 100),
        Ok(BondToppedUp { sla_id, amount: 100 })
    );
    assert_eq!(
        s.vault.trigger_settlement(account(50), sla_id, 1, tally(3)),
        Ok(SettlementPaid { sla_id, round_id: 1, payout: 500, beneficiary, caller: account(50) })
    );

    s.vault.unpause(s.admin).unwrap();
    assert!(s
        .vault
        .create_sla(account(12), contract(302), 1_000, 9990, 3, 500, account(22))
        .is_ok());
}

#[test]
fn pause_by_non_admin_fails() {
    let mut s = setup();
    assert_eq!(s.vault.pause(account(77)), Err(Error::NotAuthorized));
    assert_eq!(s.vault.unpause(account(77)), Err(Error::NotAuthorized));
}

#[test]
fn pause_before_initialize_fails() {
    let mut vault = SlaVault::default();
    assert_eq!(vault.pause(account(1)), Err(Error::NotAuthorized));
}

#[test]
fn settlement_pays_penalty_once_per_round() {
    let mut s = setup();
    let mut ledger = TokenLedger::new();
    let (sla_id, _provider, beneficiary, _token) = create_test_sla(&mut s, &mut ledger, 1);

    assert_eq!(s.vault.settlement_tally_source(sla_id, 7), Ok(s.registry_id));
    let paid = s.vault.trigger_settlement(account(50), sla_id, 7, tally(3)).unwrap();
    assert_eq!(paid, SettlementPaid { sla_id, round_id: 7, payout: 500, beneficiary, caller: account(50) });
    ledger.transfer(s.vault_id, paid.beneficiary, paid.payout);

    assert_eq!(s.vault.get_bond_balance(sla_id), 500);
    assert!(s.vault.is_round_settled(sla_id, 7));
    assert!(!s.vault.is_round_settled(sla_id, 8));
    assert_eq!(ledger.balance(beneficiary), 500);
    assert_eq!(ledger.balance(s.vault_id), 500);

    assert_eq!(
        s.vault.trigger_settlement(account(50), sla_id, 7, tally(9)),
        Err(Error::AlreadySettled)
    );
    assert_eq!(s.vault.settlement_tally_source(sla_id, 7), Err(Error::AlreadySettled));
    assert_eq!(s.vault.get_bond_balance(sla_id), 500);
}

#[test]
fn settlement_without_quorum_fails() {
    let mut s = setup();
    let mut ledger = TokenLedger::new();
    let (sla_id, ..) = create_test_sla(&mut s, &mut ledger, 1);

    assert_eq!(
        s.vault.trigger_settlement(account(50), sla_id, 1, RoundTally { votes_up: 9, votes_down: 2 }),
        Err(Error::QuorumNotMet)
    );
    assert!(!s.vault.is_round_settled(sla_id, 1));
    assert_eq!(s.vault.get_bond_balance(sla_id), 1_000);
}

#[test]
fn settlement_payout_is_capped_by_balance() {
    let mut s = setup();
    let mut ledger = TokenLedger::new();
    let (sla_id, provider, beneficiary, _token) = create_test_sla(&mut s, &mut ledger, 1);

    s.vault.trigger_settlement(account(50), sla_id, 1, tally(3)).unwrap();
    s.vault.trigger_settlement(account(50), sla_id, 2, tally(3)).unwrap();
    assert_eq!(s.vault.get_bond_balance(sla_id), 0);
    assert_eq!(
        s.vault.trigger_settlement(account(50), sla_id, 3, tally(3)),
        Err(Error::BondExhausted)
    );
    assert!(!s.vault.is_round_settled(sla_id, 3));

    s.vault.top_up_bond(provider, sla_id, 200).unwrap();
    assert_eq!(
        s.vault.trigger_settlement(account(50), sla_id, 3, tally(4)),
        Ok(SettlementPaid { sla_id, round_id: 3, payout: 200, beneficiary, caller: account(50) })
    );
    assert_eq!(s.vault.get_bond_balance(sla_id), 0);
}

#[test]
fn settlement_of_unknown_sla_fails() {
    let mut s = setup();
    assert_eq!(
        s.vault.trigger_settlement(account(50), 42, 1, tally(3)),
        Err(Error::SlaNotFound)
    );
    assert_eq!(s.vault.settlement_tally_source(42, 1), Err(Error::SlaNotFound));
}

#[test]
fn settlement_without_registry_fails() {
    // create_sla does not need initialize; settlement needs the registry.
    let mut vault = SlaVault::default();
    let created = vault
        .create_sla(account(11), contract(301), 1_000, 9990, 3, 500, account(21))
        .unwrap();
    assert_eq!(
        vault.trigger_settlement(account(50), created.sla_id, 1, tally(3)),
        Err(Error::NotAuthorized)
    );
    assert_eq!(vault.settlement_tally_source(created.sla_id, 1), Err(Error::NotAuthorized));
}

#[test]
fn initialize_resets_the_next_sla_id() {
    let mut vault = SlaVault::default();
    let first = vault
        .create_sla(account(11), contract(301), 1_000, 9990, 3, 500, account(21))
        .unwrap();
    vault.initialize(account(1), contract(100)).unwrap();
    let second = vault
        .create_sla(account(12), contract(302), 2_000, 9990, 3, 500, account(22))
        .unwrap();
    assert_eq!((first.sla_id, second.sla_id), (0, 0));
    assert_eq!(vault.get_bond_balance(0), 2_000);
}

#[test]
fn cancel_then_withdraw_returns_remaining_bond() {
    let mut s = setup();
    let mut ledger = TokenLedger::new();
    let (sla_id, provider, _beneficiary, _token) = create_test_sla(&mut s, &mut ledger, 1);
    s.vault.trigger_settlement(account(50), sla_id, 1, tally(3)).unwrap();
    ledger.transfer(s.vault_id, account(21), 500);

    assert_eq!(
        s.vault.withdraw_remaining_bond(provider, sla_id),
        Err(Error::SlaNotActive)
    );
    assert_eq!(s.vault.cancel_sla(provider, sla_id), Ok(SlaCancelled { sla_id }));
    assert_eq!(s.vault.get_sla(sla_id).unwrap().status, SLAStatus::Cancelled);

    let withdrawn = s.vault.withdraw_remaining_bond(provider, sla_id).unwrap();
    assert_eq!(withdrawn, BondWithdrawn { sla_id, amount: 500 });
    ledger.transfer(s.vault_id, provider, withdrawn.amount);
    assert_eq!(s.vault.get_bond_balance(sla_id), 0);
    assert_eq!(ledger.balance(provider), 9_500);

    assert_eq!(
        s.vault.withdraw_remaining_bond(provider, sla_id),
        Ok(BondWithdrawn { sla_id, amount: 0 })
    );
}

#[test]
fn cancelled_sla_does_not_settle() {
    let mut s = setup();
    let mut ledger = TokenLedger::new();
    let (sla_id, provider, ..) = create_test_sla(&mut s, &mut ledger, 1);
    s.vault.cancel_sla(provider, sla_id).unwrap();
    assert_eq!(
        s.vault.trigger_settlement(account(50), sla_id, 1, tally(5)),
        Err(Error::SlaNotActive)
    );
    // A cancelled SLA can still be topped up.
    assert!(s.vault.top_up_bond(provider, sla_id, 10).is_ok());
}

#[test]
fn cancel_and_withdraw_check_the_provider() {
    let mut s = setup();
    let mut ledger = TokenLedger::new();
    let (sla_id, provider, ..) = create_test_sla(&mut s, &mut ledger, 1);
    assert_eq!(s.vault.cancel_sla(account(99), sla_id), Err(Error::NotAuthorized));
    assert_eq!(s.vault.cancel_sla(provider, 5), Err(Error::SlaNotFound));
    s.vault.cancel_sla(provider, sla_id).unwrap();
    assert_eq!(
        s.vault.withdraw_remaining_bond(account(99), sla_id),
        Err(Error::NotAuthorized)
    );
    assert_eq!(s.vault.withdraw_remaining_bond(provider, 5), Err(Error::SlaNotFound));
}

#[test]
fn calls_on_one_sla_leave_others_alone() {
    let mut s = setup();
    let mut ledger = TokenLedger::new();
    let (first, ..) = create_test_sla(&mut s, &mut ledger, 1);
    let (second, second_provider, ..) = create_test_sla(&mut s, &mut ledger, 2);

    s.vault.trigger_settlement(account(50), first, 1, tally(3)).unwrap();
    s.vault.cancel_sla(second_provider, second).unwrap();
    assert_eq!(s.vault.get_bond_balance(first), 500);
    assert_eq!(s.vault.get_bond_balance(second), 1_000);
    assert!(!s.vault.is_round_settled(second, 1));
    assert_eq!(s.vault.get_sla(first).unwrap().status, SLAStatus::Active);
}

#[test]
fn a_vault_holding_only_the_named_sla_answers_alike() {
    let mut s = setup();
    let mut ledger = TokenLedger::new();
    let (first, first_provider, ..) = create_test_sla(&mut s, &mut ledger, 1);
    let (second, ..) = create_test_sla(&mut s, &mut ledger, 2);
    s.vault.trigger_settlement(account(50), second, 4, tally(3)).unwrap();

    let mut slas = HashMap::new();
    slas.insert(second, s.vault.get_sla(second).unwrap());
    let mut balances = HashMap::new();
    balances.insert(second, s.vault.get_bond_balance(second));
    let mut partial = SlaVault {
        admin: s.vault.admin,
        watcher_registry: s.vault.watcher_registry,
        next_sla_id: s.vault.next_sla_id,
        paused: s.vault.paused,
        slas,
        balances,
        settled: vec![(second, 4)],
    };

    assert_eq!(
        partial.trigger_settlement(account(50), second, 4, tally(3)),
        s.vault.trigger_settlement(account(50), second, 4, tally(3))
    );
    assert_eq!(
        partial.trigger_settlement(account(50), second, 5, tally(3)),
        s.vault.trigger_settlement(account(50), second, 5, tally(3))
    );
    assert_eq!(partial.get_bond_balance(second), s.vault.get_bond_balance(second));
    assert_eq!(
        partial.top_up_bond(first_provider, second, 5),
        s.vault.top_up_bond(first_provider, second, 5)
    );
    assert_eq!(s.vault.get_bond_balance(first), 1_000);
}

#[test]
fn settlement_event_records_the_keeper() {
    let mut s = setup();
    let mut ledger = TokenLedger::new();
    let (sla_id, _provider, beneficiary, _token) = create_test_sla(&mut s, &mut ledger, 1);
    let mut other = SlaVault {
        admin: s.vault.admin,
        watcher_registry: s.vault.watcher_registry,
        next_sla_id: s.vault.next_sla_id,
        paused: s.vault.paused,
        slas: s.vault.slas.clone(),
        balances: s.vault.balances.clone(),
        settled: s.vault.settled.clone(),
    };

    let by_first = s.vault.trigger_settlement(account(50), sla_id, 1, tally(3)).unwrap();
    let by_second = other.trigger_settlement(account(51), sla_id, 1, tally(3)).unwrap();
    assert_eq!(
        by_first,
        SettlementPaid { sla_id, round_id: 1, payout: 500, beneficiary, caller: account(50) }
    );
    assert_eq!(
        by_second,
        SettlementPaid { sla_id, round_id: 1, payout: 500, beneficiary, caller: account(51) }
    );
    assert_ne!(by_first, by_second);
    assert_eq!(s.vault.get_bond_balance(sla_id), other.get_bond_balance(sla_id));
}

#[test]
fn balance_is_bond_plus_top_ups_less_payouts_and_withdrawals() {
    let mut s = setup();
    let mut ledger = TokenLedger::new();
    let (sla_id, provider, beneficiary, _token) = create_test_sla(&mut s, &mut ledger, 1);
    let mut moved: i128 = 1_000;

    moved += s.vault.top_up_bond(provider, sla_id, 300).unwrap().amount;
    moved -= s.vault.trigger_settlement(account(50), sla_id, 1, tally(3)).unwrap().payout;
    moved += s.vault.top_up_bond(provider, sla_id, 50).unwrap().amount;
    moved -= s.vault.trigger_settlement(account(51), sla_id, 2, tally(3)).unwrap().payout;
    assert_eq!(s.vault.get_bond_balance(sla_id), moved);
    assert_eq!(moved, 350);

    s.vault.cancel_sla(provider, sla_id).unwrap();
    moved -= s.vault.withdraw_remaining_bond(provider, sla_id).unwrap().amount;
    assert_eq!(s.vault.get_bond_balance(sla_id), moved);
    assert_eq!(moved, 0);
    assert!(s.vault.is_round_settled(sla_id, 1) && s.vault.is_round_settled(sla_id, 2));
    assert_eq!(s.vault.get_sla(sla_id).unwrap().beneficiary, beneficiary);
}
