//! The vault's instructions, as transitions of its accounts.
//!
//! Each instruction takes the accounts it reads and the values the host
//! supplies (signer, passed-in account keys, clock), and either refuses with
//! a `VaultError`, leaving every account as it was, or returns the new state
//! and what the host has to pay out.  Token transfers and NFT minting are
//! performed by the host around these calls.

use vstd::prelude::*;
use crate::error::{ErrorCode, VaultError};
use crate::pubkey::Pubkey;
use crate::reward::{
    claimable_reward, claimable_reward_spec, div_toward_zero, in_i64, pending_reward,
    pending_reward_spec,
};
use crate::state::{UserInfo, VaultInfo};
use crate::metadata::{box_nft_metadata, collection_nft_metadata, is_box_metadata, is_collection_metadata, NftMetadata};
use crate::mystery_box::{draw_box, drawn_box, drawn_rate, drawn_rate_spec, MysteryBox};

verus! {

/// Price of a box set by `init`: 100000 tokens of six decimals.
pub const BOX_PRICE: u64 = 100000 * 1000000;

pub open spec fn init_spec(vault: VaultInfo, dev_fee: i64, owner: Pubkey) -> VaultInfo {
    VaultInfo { owner, total_staked: 0, dev_fee, box_price: BOX_PRICE, ..vault }
}

/// Sets up (or resets) the vault: the given owner and developer fee, nothing
/// staked, and the standard box price.  The mints and the collected fees are
/// kept.  Anyone may call it, also on a vault that already exists.
pub fn init(vault: &mut VaultInfo, dev_fee: i64, owner: Pubkey)
    ensures
        *final(vault) == init_spec(*old(vault), dev_fee, owner),
{
    vault.owner = owner;
    vault.total_staked = 0;
    vault.dev_fee = dev_fee;
    vault.box_price = BOX_PRICE;
}

/// Creates the vault's NFT collection: returns the metadata the collection
/// NFT is minted with (see `collection_nft_metadata`) and records its mint.
pub fn create_collection_nft(
    vault: &mut VaultInfo,
    authority: Pubkey,
    collection_mint: Pubkey,
    name: String,
    symbol: String,
    uri: String,
) -> (m: NftMetadata)
    ensures
        *final(vault) == (VaultInfo { collection_mint, ..*old(vault) }),
        is_collection_metadata(m, authority, name@, symbol@, uri@),
{
    vault.collection_mint = collection_mint;
    collection_nft_metadata(authority, name, symbol, uri)
}

/// Whether `signer` is the vault's owner.
pub fn is_owner(vault: &VaultInfo, signer: &Pubkey) -> (r: bool)
    ensures
        r == (signer@ == vault.owner@),
{
    *signer == vault.owner
}

/// An owner-only change: the owner gets `updated`, anyone else is refused
/// with `IllegalOwner` and the vault stays as it was.
pub open spec fn owner_only(vault: VaultInfo, signer: Pubkey, updated: VaultInfo) -> (Result<(), VaultError>, VaultInfo) {
    if signer@ == vault.owner@ {
        (Ok(()), updated)
    } else {
        (Err(VaultError::IllegalOwner), vault)
    }
}

pub open spec fn update_stake_mint_spec(vault: VaultInfo, signer: Pubkey, stake_mint: Pubkey) -> (Result<(), VaultError>, VaultInfo) {
    owner_only(vault, signer, VaultInfo { stake_mint, ..vault })
}

pub open spec fn update_dev_fee_spec(vault: VaultInfo, signer: Pubkey, dev_fee: i64) -> (Result<(), VaultError>, VaultInfo) {
    owner_only(vault, signer, VaultInfo { dev_fee, ..vault })
}

pub open spec fn transfer_owner_spec(vault: VaultInfo, signer: Pubkey, new_owner: Pubkey) -> (Result<(), VaultError>, VaultInfo) {
    owner_only(vault, signer, VaultInfo { owner: new_owner, ..vault })
}

/// The owner replaces the stake mint.
pub fn update_stake_mint(vault: &mut VaultInfo, signer: &Pubkey, stake_mint: Pubkey) -> (r: Result<(), VaultError>)
    ensures
        (r, *final(vault)) == update_stake_mint_spec(*old(vault), *signer, stake_mint),
{
    if !is_owner(vault, signer) {
        return Err(VaultError::IllegalOwner);
    }
    vault.stake_mint = stake_mint;
    Ok(())
}

/// The owner replaces the developer fee.
pub fn update_dev_fee(vault: &mut VaultInfo, signer: &Pubkey, dev_fee: i64) -> (r: Result<(), VaultError>)
    ensures
        (r, *final(vault)) == update_dev_fee_spec(*old(vault), *signer, dev_fee),
{
    if !is_owner(vault, signer) {
        return Err(VaultError::IllegalOwner);
    }
    vault.dev_fee = dev_fee;
    Ok(())
}

/// The owner hands the vault over.
pub fn transfer_owner(vault: &mut VaultInfo, signer: &Pubkey, new_owner: Pubkey) -> (r: Result<(), VaultError>)
    ensures
        (r, *final(vault)) == transfer_owner_spec(*old(vault), *signer, new_owner),
{
    if !is_owner(vault, signer) {
        return Err(VaultError::IllegalOwner);
    }
    vault.owner = new_owner;
    Ok(())
}

/// Refuses a token mint other than the vault's stake mint.
pub fn check_stake_mint(vault: &VaultInfo, stake_mint: &Pubkey) -> (r: Result<(), VaultError>)
    ensures
        r is Ok <==> stake_mint@ == vault.stake_mint@,
        r is Err ==> r == Err::<(), VaultError>(VaultError::Vault(ErrorCode::WrongStakeMint)),
{
    if *stake_mint == vault.stake_mint {
        Ok(())
    } else {
        Err(VaultError::Vault(ErrorCode::WrongStakeMint))
    }
}

/// What a box costs the buyer, once the mint is known to be the vault's
/// stake mint; a foreign mint is refused with `WrongStakeMint`.
pub fn box_price_due(vault: &VaultInfo, stake_mint: &Pubkey) -> (r: Result<u64, VaultError>)
    ensures
        r == (if stake_mint@ == vault.stake_mint@ {
            Ok::<u64, VaultError>(vault.box_price)
        } else {
            Err(VaultError::Vault(ErrorCode::WrongStakeMint))
        }),
{
    check_stake_mint(vault, stake_mint)?;
    Ok(vault.box_price)
}

/// The stake-weighted average of the user's rate and the box's rate.
pub open spec fn blended_rate_spec(user: UserInfo, box_rate: u64, box_price: u64) -> int {
    (user.interest_rate * user.amount_stake + box_rate * box_price) / (user.amount_stake + box_price)
}

/// Whether settling a box purchase stays within the machine's integers:
/// the pending reward computes, the blended rate's products, sum and
/// divisor fit in `u64` with a non-zero divisor, and a non-negative reward
/// can be added to the unpaid reward.
pub open spec fn box_purchase_settles(vault: VaultInfo, user: UserInfo, now: i64, box_rate: u64) -> bool {
    &&& pending_reward_spec(vault, user, now) is Some
    &&& user.interest_rate * user.amount_stake <= u64::MAX
    &&& box_rate * vault.box_price <= u64::MAX
    &&& user.interest_rate * user.amount_stake + box_rate * vault.box_price <= u64::MAX
    &&& 0 < user.amount_stake + vault.box_price <= u64::MAX
    &&& pending_reward_spec(vault, user, now).unwrap() >= 0 ==> user.amount_unprocessed
        + pending_reward_spec(vault, user, now).unwrap() <= u64::MAX
}

/// Tests `box_purchase_settles` for the box whose rarity is rolled at `now`.
pub fn can_settle_box(vault: &VaultInfo, user: &UserInfo, now: i64) -> (r: bool)
    ensures
        r == box_purchase_settles(*vault, *user, now, drawn_rate_spec(now)),
{
    let box_rate = drawn_rate(now);
    let pending = match pending_reward(vault, user, now) {
        Some(v) => v,
        None => return false,
    };
    let held = match user.interest_rate.checked_mul(user.amount_stake) {
        Some(v) => v,
        None => return false,
    };
    let bought = match box_rate.checked_mul(vault.box_price) {
        Some(v) => v,
        None => return false,
    };
    if held.checked_add(bought).is_none() {
        return false;
    }
    match user.amount_stake.checked_add(vault.box_price) {
        Some(v) => if v == 0 {
            return false;
        },
        None => return false,
    }
    if pending >= 0 {
        user.amount_unprocessed.checked_add(pending as u64).is_some()
    } else {
        true
    }
}

/// The outcome of settling a box purchase: the result, the vault and the user.
pub open spec fn buy_box_spec(
    vault: VaultInfo,
    user: UserInfo,
    stake_mint: Pubkey,
    ref_wallet: Pubkey,
    now: i64,
    box_rate: u64,
) -> (Result<(), VaultError>, VaultInfo, UserInfo) {
    let pending = pending_reward_spec(vault, user, now).unwrap();
    if stake_mint@ != vault.stake_mint@ {
        (Err(VaultError::Vault(ErrorCode::WrongStakeMint)), vault, user)
    } else if pending < 0 {
        (Err(VaultError::InvalidNumericConversion), vault, user)
    } else if vault.total_staked + vault.box_price > u64::MAX {
        (Err(VaultError::Vault(ErrorCode::Overflow)), vault, user)
    } else {
        (
            Ok(()),
            VaultInfo { total_staked: (vault.total_staked + vault.box_price) as u64, ..vault },
            UserInfo {
                amount_stake: (user.amount_stake + vault.box_price) as u64,
                amount_unprocessed: (user.amount_unprocessed + pending) as u64,
                last_update: now,
                ref_wallet,
                interest_rate: blended_rate_spec(user, box_rate, vault.box_price) as u64,
            },
        )
    }
}

fn settle_box(
    vault: &mut VaultInfo,
    user: &mut UserInfo,
    stake_mint: &Pubkey,
    ref_wallet: &Pubkey,
    now: i64,
    box_rate: u64,
) -> (r: Result<(), VaultError>)
    requires
        stake_mint@ == old(vault).stake_mint@ ==> box_purchase_settles(
            *old(vault),
            *old(user),
            now,
            box_rate,
        ),
    ensures
        (r, *final(vault), *final(user)) == buy_box_spec(
            *old(vault),
            *old(user),
            *stake_mint,
            *ref_wallet,
            now,
            box_rate,
        ),
{
    check_stake_mint(vault, stake_mint)?;
    let pending = pending_reward(vault, user, now).unwrap();
    let price = vault.box_price;
    let blended = (user.interest_rate * user.amount_stake + box_rate * price) / (user.amount_stake
        + price);
    let stake = user.amount_stake + price;
    if pending < 0 {
        return Err(VaultError::InvalidNumericConversion);
    }
    let unprocessed = user.amount_unprocessed + pending as u64;
    let total = match vault.total_staked.checked_add(price) {
        Some(v) => v,
        None => return Err(VaultError::Vault(ErrorCode::Overflow)),
    };
    user.amount_stake = stake;
    user.interest_rate = blended;
    user.amount_unprocessed = unprocessed;
    user.last_update = now;
    user.ref_wallet = *ref_wallet;
    vault.total_staked = total;
    Ok(())
}

/// A settled purchase: the box drawn and the metadata of the NFT minted for it.
#[derive(Debug)]
pub struct BoxPurchase {
    pub drawn: MysteryBox,
    pub metadata: NftMetadata,
}

/// Buys a mystery box with the clock read as `avatar_time` and then as
/// `now`, once the host has minted the box's NFT and taken the box price
/// from the buyer.  The box is drawn as `draw_box` does and described by
/// `box_nft_metadata`.  The pending reward is folded into the unpaid
/// reward, the box price joins the user's stake and the vault's total, the
/// user's rate becomes the stake-weighted average with the box's rate, and
/// the referrer and time are recorded.  Refused with `WrongStakeMint` for a
/// foreign mint, `InvalidNumericConversion` when the pending reward is
/// negative, and `Overflow` when the vault's total would overflow.
pub fn buy_box(
    vault: &mut VaultInfo,
    user: &mut UserInfo,
    stake_mint: &Pubkey,
    ref_wallet: &Pubkey,
    avatar_time: i64,
    now: i64,
) -> (r: Result<BoxPurchase, VaultError>)
    requires
        stake_mint@ == old(vault).stake_mint@ ==> box_purchase_settles(
            *old(vault),
            *old(user),
            now,
            drawn_rate_spec(now),
        ),
    ensures
        ({
            let outcome = buy_box_spec(
                *old(vault),
                *old(user),
                *stake_mint,
                *ref_wallet,
                now,
                drawn_rate_spec(now),
            );
            &&& *final(vault) == outcome.1
            &&& *final(user) == outcome.2
            &&& match r {
                Ok(p) => outcome.0 is Ok && drawn_box(p.drawn, avatar_time, now) && is_box_metadata(
                    p.metadata,
                    p.drawn,
                ),
                Err(e) => outcome.0 == Err::<(), VaultError>(e),
            }
        }),
{
    let drawn = draw_box(avatar_time, now);
    settle_box(vault, user, stake_mint, ref_wallet, now, drawn.interest_rate)?;
    let metadata = box_nft_metadata(&drawn);
    Ok(BoxPurchase { drawn, metadata })
}

/// What the referrer of a claim is owed.
#[derive(Clone, Copy, Debug, PartialEq, Eq, Structural)]
pub enum ReferrerCut {
    /// The referrer's account is the staker's own: nothing is sent.
    NotOwed,
    /// A tenth of the reward, its bits read as unsigned.
    Owed(u64),
    /// Ten times the reward leaves `i64`: the cut cannot be computed.
    TooLarge,
}

/// The referrer's cut of `reward` when one is owed.
pub open spec fn referrer_cut_spec(reward: i64, owed: bool) -> ReferrerCut {
    if !owed {
        ReferrerCut::NotOwed
    } else if in_i64(reward * 10) {
        ReferrerCut::Owed(as_unsigned(div_toward_zero(reward * 10, 100) as i64))
    } else {
        ReferrerCut::TooLarge
    }
}

/// What the host pays out on a claim.
#[derive(Clone, Copy, Debug, PartialEq, Eq, Structural)]
pub struct ClaimPayout {
    /// The claimed reward.
    pub reward: i64,
    /// The amount sent to the staker: the reward's bits read as unsigned.
    pub staker_amount: u64,
    /// What goes to the referrer's account, when it differs from the staker's.
    pub referrer: ReferrerCut,
}

/// A signed amount's bits read as unsigned.
pub open spec fn as_unsigned(x: i64) -> u64 {
    if x >= 0 {
        x as u64
    } else {
        (x + 0x1_0000_0000_0000_0000) as u64
    }
}

/// The outcome of a claim: the result and the user.
pub open spec fn claim_spec(
    vault: VaultInfo,
    user: UserInfo,
    stake_mint: Pubkey,
    now: i64,
    referrer_account: Pubkey,
    staker_account: Pubkey,
) -> (Result<ClaimPayout, VaultError>, UserInfo) {
    if stake_mint@ != vault.stake_mint@ {
        (Err(VaultError::Vault(ErrorCode::WrongStakeMint)), user)
    } else {
        let reward = claimable_reward_spec(vault, user, now).unwrap();
        (
            Ok(ClaimPayout {
                reward,
                staker_amount: as_unsigned(reward),
                referrer: referrer_cut_spec(reward, referrer_account@ != staker_account@),
            }),
            UserInfo { last_update: now, amount_unprocessed: 0, ..user },
        )
    }
}

/// Claims the user's reward: pays it out, clears the unpaid reward and
/// restarts accrual from `now`.  When the referrer's account differs from
/// the staker's, a tenth of the reward is owed to it as well (`TooLarge`
/// where that tenth cannot be computed).  Refused with `WrongStakeMint` for
/// a foreign mint.
pub fn claim(
    vault: &VaultInfo,
    user: &mut UserInfo,
    stake_mint: &Pubkey,
    now: i64,
    referrer_account: &Pubkey,
    staker_account: &Pubkey,
) -> (r: Result<ClaimPayout, VaultError>)
    requires
        stake_mint@ == vault.stake_mint@ ==> claimable_reward_spec(*vault, *old(user), now) is Some,
    ensures
        (r, *final(user)) == claim_spec(*vault, *old(user), *stake_mint, now, *referrer_account, *staker_account),
{
    check_stake_mint(vault, stake_mint)?;
    let reward = claimable_reward(vault, user, now).unwrap();
    user.last_update = now;
    user.amount_unprocessed = 0;
    let staker_amount = reward as u64;
    assert(staker_amount == as_unsigned(reward)) by (bit_vector)
        requires
            staker_amount == reward as u64,
    ;
    let referrer = if *referrer_account != *staker_account {
        match referral_amount(reward) {
            Some(cut) => ReferrerCut::Owed(cut),
            None => ReferrerCut::TooLarge,
        }
    } else {
        ReferrerCut::NotOwed
    };
    Ok(ClaimPayout { reward, staker_amount, referrer })
}

/// The referrer's cut of a reward: a tenth of it (rounded toward zero), its
/// bits read as unsigned; `None` when ten times the reward leaves `i64`.
pub fn referral_amount(reward: i64) -> (r: Option<u64>)
    ensures
        r is Some <==> in_i64(reward * 10),
        r matches Some(a) ==> a == as_unsigned(div_toward_zero(reward * 10, 100) as i64),
{
    let cut = match reward.checked_mul(10) {
        Some(v) => v,
        None => return None,
    };
    let cut = match cut.checked_div(100) {
        Some(v) => v,
        None => return None,
    };
    let amount = cut as u64;
    assert(amount == as_unsigned(cut)) by (bit_vector)
        requires
            amount == cut as u64,
    ;
    Some(amount)
}

pub open spec fn withdraw_lp_spec(vault: VaultInfo, signer: Pubkey, stake_mint: Pubkey, vault_balance: u64) -> Result<u64, VaultError> {
    if stake_mint@ != vault.stake_mint@ {
        Err(VaultError::Vault(ErrorCode::WrongStakeMint))
    } else if signer@ != vault.owner@ {
        Err(VaultError::IllegalOwner)
    } else {
        Ok(vault_balance)
    }
}

/// The owner empties the stake vault: the whole balance goes to the signer.
/// Refused with `WrongStakeMint` for a foreign mint, then `IllegalOwner`
/// for anyone but the owner.
pub fn withdraw_lp(vault: &VaultInfo, signer: &Pubkey, stake_mint: &Pubkey, vault_balance: u64) -> (r: Result<u64, VaultError>)
    ensures
        r == withdraw_lp_spec(*vault, *signer, *stake_mint, vault_balance),
{
    check_stake_mint(vault, stake_mint)?;
    if !is_owner(vault, signer) {
        return Err(VaultError::IllegalOwner);
    }
    Ok(vault_balance)
}

pub open spec fn withdraw_dev_fee_spec(vault: VaultInfo, signer: Pubkey) -> (Result<u64, VaultError>, VaultInfo) {
    if signer@ == vault.owner@ {
        (Ok(vault.total_fee_collect), VaultInfo { total_fee_collect: 0, ..vault })
    } else {
        (Err(VaultError::IllegalOwner), vault)
    }
}

/// The owner collects the developer fees: the whole collected amount is paid
/// out and the counter reset.
pub fn withdraw_dev_fee(vault: &mut VaultInfo, signer: &Pubkey) -> (r: Result<u64, VaultError>)
    ensures
        (r, *final(vault)) == withdraw_dev_fee_spec(*old(vault), *signer),
{
    if !is_owner(vault, signer) {
        return Err(VaultError::IllegalOwner);
    }
    let total_fee = vault.total_fee_collect;
    vault.total_fee_collect = 0;
    Ok(total_fee)
}

/// The total stake in the vault.
pub fn get_supply(vault: &VaultInfo) -> (supply: u64)
    ensures
        supply == vault.total_staked,
{
    vault.total_staked
}

/// The reward the user has pending at `now`.
pub fn estimate_accrured_interest(vault: &VaultInfo, user: &UserInfo, now: i64) -> (r: i64)
    requires
        pending_reward_spec(*vault, *user, now) is Some,
    ensures
        r == pending_reward_spec(*vault, *user, now).unwrap(),
{
    pending_reward(vault, user, now).unwrap()
}

} // verus!
