//! The two kinds of account the vault keeps.

use vstd::prelude::*;
use crate::pubkey::Pubkey;

verus! {

/// The vault's global configuration and totals.
#[derive(Clone, Copy, Debug)]
pub struct VaultInfo {
    /// Percentage of each reward kept by the developer.
    pub dev_fee: i64,
    pub total_staked: u64,
    pub owner: Pubkey,
    pub collection_mint: Pubkey,
    pub stake_mint: Pubkey,
    pub total_fee_collect: u64,
    /// Price of one mystery box, in base units of the stake mint.
    pub box_price: u64,
}

/// One staker's position.
#[derive(Clone, Copy, Debug)]
pub struct UserInfo {
    pub amount_stake: u64,
    /// Reward earned but not yet paid out.
    pub amount_unprocessed: u64,
    /// Unix time of the last purchase or claim.
    pub last_update: i64,
    pub ref_wallet: Pubkey,
    /// Yearly rate in hundredths, blended over all boxes bought: each year a
    /// stake earns `interest_rate / 100` times itself, before the developer fee.
    pub interest_rate: u64,
}

} // verus!

verus! {

impl PartialEq for VaultInfo {
    fn eq(&self, other: &Self) -> (r: bool) {
        self.dev_fee == other.dev_fee && self.total_staked == other.total_staked && self.owner
            == other.owner && self.collection_mint == other.collection_mint && self.stake_mint
            == other.stake_mint && self.total_fee_collect == other.total_fee_collect
            && self.box_price == other.box_price
    }
}

impl vstd::std_specs::cmp::PartialEqSpecImpl for VaultInfo {
    open spec fn obeys_eq_spec() -> bool {
        true
    }

    open spec fn eq_spec(&self, other: &VaultInfo) -> bool {
        &&& self.dev_fee == other.dev_fee
        &&& self.total_staked == other.total_staked
        &&& self.owner@ == other.owner@
        &&& self.collection_mint@ == other.collection_mint@
        &&& self.stake_mint@ == other.stake_mint@
        &&& self.total_fee_collect == other.total_fee_collect
        &&& self.box_price == other.box_price
    }
}

impl Eq for VaultInfo {}

impl PartialEq for UserInfo {
    fn eq(&self, other: &Self) -> (r: bool) {
        self.amount_stake == other.amount_stake && self.amount_unprocessed
            == other.amount_unprocessed && self.last_update == other.last_update && self.ref_wallet
            == other.ref_wallet && self.interest_rate == other.interest_rate
    }
}

impl vstd::std_specs::cmp::PartialEqSpecImpl for UserInfo {
    open spec fn obeys_eq_spec() -> bool {
        true
    }

    open spec fn eq_spec(&self, other: &UserInfo) -> bool {
        &&& self.amount_stake == other.amount_stake
        &&& self.amount_unprocessed == other.amount_unprocessed
        &&& self.last_update == other.last_update
        &&& self.ref_wallet@ == other.ref_wallet@
        &&& self.interest_rate == other.interest_rate
    }
}

impl Eq for UserInfo {}

} // verus!
