//! The simple staking program: staked tokens go into a vault and reward
//! tokens are minted at a fixed rate per staked token; unstaking returns the
//! tokens and burns the matching rewards.

use vstd::prelude::*;
use crate::pubkey::Pubkey;

verus! {

/// The staking program's configuration.
#[derive(Clone, Copy, Debug)]
pub struct StakingData {
    /// Reward tokens per staked token.
    pub reward_rate: u64,
    pub stake_vault: Pubkey,
    pub reward_mint: Pubkey,
}

/// The configuration a fresh staking account holds: the account is created
/// zeroed and the rate argument is not stored.
pub fn initialize(_reward_rate: u64) -> (data: StakingData)
    ensures
        data.reward_rate == 0,
        data.stake_vault@ == seq![0u8; 32],
        data.reward_mint@ == seq![0u8; 32],
{
    let data = StakingData {
        reward_rate: 0,
        stake_vault: Pubkey { bytes: [0u8; 32] },
        reward_mint: Pubkey { bytes: [0u8; 32] },
    };
    assert(data.stake_vault@ =~= seq![0u8; 32]);
    assert(data.reward_mint@ =~= seq![0u8; 32]);
    data
}

/// Reward tokens that go with `amount` staked tokens.
pub open spec fn reward_for(data: StakingData, amount: u64) -> int {
    data.reward_rate * amount
}

/// Reward tokens minted for staking `amount`.
pub fn stake(data: &StakingData, amount: u64) -> (reward: u64)
    requires
        reward_for(*data, amount) <= u64::MAX,
    ensures
        reward == reward_for(*data, amount),
{
    data.reward_rate * amount
}

/// Reward tokens burnt for unstaking `amount`.
pub fn unstake(data: &StakingData, amount: u64) -> (burnt: u64)
    requires
        reward_for(*data, amount) <= u64::MAX,
    ensures
        burnt == reward_for(*data, amount),
{
    data.reward_rate * amount
}

} // verus!
