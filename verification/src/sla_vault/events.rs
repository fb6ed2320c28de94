use vstd::prelude::*;

use crate::address::Address;

verus! {

/// A new SLA was created; `bond_amount` of `token` moves from `provider`
/// into the vault.
#[derive(Clone, Copy, Debug, Eq, PartialEq)]
pub struct SlaCreated {
    pub sla_id: u64,
    pub provider: Address,
    pub token: Address,
    pub bond_amount: i128,
    pub beneficiary: Address,
}

/// The provider added `amount` of the SLA's token to its bond.
#[derive(Clone, Copy, Debug, Eq, PartialEq)]
pub struct BondToppedUp {
    pub sla_id: u64,
    pub amount: i128,
}

/// A confirmed-down round was settled; `payout` of the SLA's token moves
/// from the vault to `beneficiary`. `caller` is the keeper who asked for
/// the settlement: it is recorded here and nowhere else.
#[derive(Clone, Copy, Debug, Eq, PartialEq)]
pub struct SettlementPaid {
    pub sla_id: u64,
    pub round_id: u64,
    pub payout: i128,
    pub beneficiary: Address,
    pub caller: Address,
}

/// The provider cancelled the SLA.
#[derive(Clone, Copy, Debug, Eq, PartialEq)]
pub struct SlaCancelled {
    pub sla_id: u64,
}

/// The provider took back what was left of the bond; `amount` of the SLA's
/// token moves from the vault to the provider when it is positive.
#[derive(Clone, Copy, Debug, Eq, PartialEq)]
pub struct BondWithdrawn {
    pub sla_id: u64,
    pub amount: i128,
}

} // verus!
