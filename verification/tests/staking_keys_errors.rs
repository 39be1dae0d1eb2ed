use vault::error::ErrorCode;
use vault::pubkey::Pubkey;
use vault::staking::{initialize, stake, unstake, StakingData};

#[test]
fn stake_and_unstake_move_rate_times_amount() {
    let d = StakingData { reward_rate: 3, stake_vault: Pubkey { bytes: [1; 32] }, reward_mint: Pubkey { bytes: [2; 32] } };
    assert_eq!(stake(&d, 1000), 3000);
    assert_eq!(unstake(&d, 1000), 3000);
    assert_eq!(stake(&d, 0), 0);
}

#[test]
fn fresh_staking_data_is_zeroed() {
    let d = initialize(5);
    assert_eq!(d.reward_rate, 0);
    assert_eq!(d.stake_vault, Pubkey { bytes: [0; 32] });
    assert_eq!(d.reward_mint, Pubkey { bytes: [0; 32] });
    assert_eq!(stake(&d, 1_000_000), 0);
}

#[test]
fn keys_compare_by_bytes() {
    let mut a = [7u8; 32];
    let k1 = Pubkey { bytes: a };
    a[31] = 8;
    let k2 = Pubkey { bytes: a };
    assert_eq!(k1, Pubkey { bytes: [7; 32] });
    assert_ne!(k1, k2);
}

#[test]
fn error_messages() {
    assert_eq!(ErrorCode::Overflow.message(), "Overflow.");
    assert_eq!(ErrorCode::WrongStakeMint.message(), "Wrong stake mint.");
    assert_eq!(ErrorCode::InvalidMintAccountSpace.message(), "Invalid Mint account space");
    assert_eq!(ErrorCode::CantInitializeMetadataPointer.message(), "Cant initialize metadata_pointer");
    assert_eq!(ErrorCode::Underflow.message(), "Underflow.");
    assert!(ErrorCode::ClaimCooldownNotFinished.message().starts_with("The claim cooldown"));
    assert!(ErrorCode::InsufficientRewardMintBalance.message().ends_with("to burn."));
}
