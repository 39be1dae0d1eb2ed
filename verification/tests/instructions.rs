use vault::error::{ErrorCode, VaultError};
use vault::metadata::box_nft_metadata;
use vault::mystery_box::draw_box;
use vault::pubkey::Pubkey;
use vault::state::{UserInfo, VaultInfo};
use vault::vault::{
    box_price_due, buy_box, can_settle_box, check_stake_mint, claim, create_collection_nft, estimate_accrured_interest,
    get_supply, init, is_owner, referral_amount, transfer_owner, update_dev_fee, update_stake_mint,
    withdraw_dev_fee, withdraw_lp, ClaimPayout, ReferrerCut, BOX_PRICE,
};

fn key(b: u8) -> Pubkey {
    Pubkey { bytes: [b; 32] }
}

fn empty_vault() -> VaultInfo {
    VaultInfo {
        dev_fee: 0,
        total_staked: 0,
        owner: key(0),
        collection_mint: key(0),
        stake_mint: key(0),
        total_fee_collect: 0,
        box_price: 0,
    }
}

fn fresh_user() -> UserInfo {
    UserInfo { amount_stake: 0, amount_unprocessed: 0, last_update: 0, ref_wallet: key(0), interest_rate: 0 }
}

const OWNER: u8 = 1;
const MINT: u8 = 2;
const T: i64 = 1_725_029_869;
const RARE_URI: &str = "https://bafybeia3hjnbr3jhmsidlp226pffotky5xuhmbj4waotmm5owohcygs6nm.ipfs.w3s.link/";
const EPIC_URI: &str = "https://bafybeigoivokvnbgv6aib27k3g76kx562xmqsksgk7mpusqb4abqicscdy.ipfs.w3s.link/";
const DAY: i64 = 86_400;

fn ready_vault() -> VaultInfo {
    let mut v = empty_vault();
    init(&mut v, 5, key(OWNER));
    update_stake_mint(&mut v, &key(OWNER), key(MINT)).unwrap();
    v
}

#[test]
fn init_sets_owner_fee_price_and_empties_supply() {
    let mut v = empty_vault();
    v.total_staked = 77;
    v.total_fee_collect = 9;
    v.stake_mint = key(5);
    init(&mut v, 5, key(OWNER));
    assert_eq!(v.owner, key(OWNER));
    assert_eq!(v.dev_fee, 5);
    assert_eq!(v.total_staked, 0);
    assert_eq!(v.box_price, 100_000_000_000);
    assert_eq!(BOX_PRICE, 100_000_000_000);
    assert_eq!(v.total_fee_collect, 9);
    assert_eq!(v.stake_mint, key(5));
    assert_eq!(get_supply(&v), 0);
}

#[test]
fn init_again_hands_vault_to_caller() {
    let mut v = ready_vault();
    init(&mut v, 7, key(9));
    assert_eq!(v.owner, key(9));
    assert_eq!(update_dev_fee(&mut v, &key(9), 3), Ok(()));
    assert_eq!(v.dev_fee, 3);
}

#[test]
fn create_collection_nft_records_mint() {
    let mut v = ready_vault();
    let before = v;
    let m = create_collection_nft(&mut v, key(4), key(44), "Heroes".to_string(), "HRO".to_string(), "https://x/c.json".to_string());
    assert_eq!(v.collection_mint, key(44));
    assert_eq!((m.name.as_str(), m.symbol.as_str(), m.uri.as_str()), ("Heroes", "HRO", "https://x/c.json"));
    assert_eq!(m.seller_fee_basis_points, 0);
    let creators = m.creators.unwrap();
    assert_eq!(creators.len(), 1);
    assert_eq!(creators[0].address, key(4));
    assert!(!creators[0].verified);
    assert_eq!(creators[0].share, 100);
    assert_eq!(m.collection_size, Some(0));
    assert!(m.is_mutable && m.update_authority_is_signer);
    assert_eq!(m.max_supply, Some(0));
    assert_eq!(VaultInfo { collection_mint: before.collection_mint, ..v }, before);
}

#[test]
fn owner_updates_and_others_are_refused() {
    let mut v = ready_vault();
    let before = v;
    assert_eq!(update_dev_fee(&mut v, &key(3), 50), Err(VaultError::IllegalOwner));
    assert_eq!(update_stake_mint(&mut v, &key(3), key(8)), Err(VaultError::IllegalOwner));
    assert_eq!(transfer_owner(&mut v, &key(3), key(3)), Err(VaultError::IllegalOwner));
    assert_eq!(v, before);
    assert_eq!(update_dev_fee(&mut v, &key(OWNER), 50), Ok(()));
    assert_eq!(v.dev_fee, 50);
    assert_eq!(update_stake_mint(&mut v, &key(OWNER), key(8)), Ok(()));
    assert_eq!(v.stake_mint, key(8));
    assert!(is_owner(&v, &key(OWNER)));
    assert!(!is_owner(&v, &key(8)));
}

#[test]
fn transfer_owner_moves_control() {
    let mut v = ready_vault();
    assert_eq!(transfer_owner(&mut v, &key(OWNER), key(6)), Ok(()));
    assert_eq!(v.owner, key(6));
    assert_eq!(update_dev_fee(&mut v, &key(OWNER), 1), Err(VaultError::IllegalOwner));
    assert_eq!(withdraw_dev_fee(&mut v, &key(OWNER)), Err(VaultError::IllegalOwner));
    assert_eq!(update_dev_fee(&mut v, &key(6), 1), Ok(()));
}

#[test]
fn dev_fee_is_withdrawn_once() {
    let mut v = ready_vault();
    v.total_fee_collect = 1234;
    assert_eq!(withdraw_dev_fee(&mut v, &key(4)), Err(VaultError::IllegalOwner));
    assert_eq!(v.total_fee_collect, 1234);
    assert_eq!(withdraw_dev_fee(&mut v, &key(OWNER)), Ok(1234));
    assert_eq!(v.total_fee_collect, 0);
    assert_eq!(withdraw_dev_fee(&mut v, &key(OWNER)), Ok(0));
}

#[test]
fn withdraw_lp_checks_mint_then_owner() {
    let v = ready_vault();
    assert_eq!(
        withdraw_lp(&v, &key(3), &key(9), 500),
        Err(VaultError::Vault(ErrorCode::WrongStakeMint))
    );
    assert_eq!(withdraw_lp(&v, &key(3), &key(MINT), 500), Err(VaultError::IllegalOwner));
    assert_eq!(withdraw_lp(&v, &key(OWNER), &key(MINT), 500), Ok(500));
}

#[test]
fn check_stake_mint_refuses_foreign_mint() {
    let v = ready_vault();
    assert_eq!(check_stake_mint(&v, &key(MINT)), Ok(()));
    assert_eq!(check_stake_mint(&v, &key(7)), Err(VaultError::Vault(ErrorCode::WrongStakeMint)));
}

#[test]
fn box_price_is_due_in_the_stake_mint() {
    let v = ready_vault();
    assert_eq!(box_price_due(&v, &key(MINT)), Ok(100_000_000_000));
    assert_eq!(box_price_due(&v, &key(9)), Err(VaultError::Vault(ErrorCode::WrongStakeMint)));
}

#[test]
fn first_box_sets_stake_and_rate() {
    let mut v = ready_vault();
    let mut u = fresh_user();
    assert!(can_settle_box(&v, &u, T));
    let p = buy_box(&mut v, &mut u, &key(MINT), &key(30), T, T).unwrap();
    assert_eq!((p.drawn.avatar, p.drawn.roll, p.drawn.rarity, p.drawn.interest_rate), (3, 6, 1, 1825));
    assert_eq!(p.metadata.name, "HERO");
    assert_eq!(p.metadata.seller_fee_basis_points, 1);
    assert_eq!(p.metadata.uri, draw_box(T, T).uri);
    assert_eq!(
        u,
        UserInfo {
            amount_stake: 100_000_000_000,
            amount_unprocessed: 0,
            last_update: T,
            ref_wallet: key(30),
            interest_rate: 1825,
        }
    );
    assert_eq!(get_supply(&v), 100_000_000_000);
}

#[test]
fn second_box_blends_rate_and_folds_reward() {
    let mut v = ready_vault();
    let mut u = fresh_user();
    buy_box(&mut v, &mut u, &key(MINT), &key(30), T, T).unwrap();
    assert_eq!(estimate_accrured_interest(&v, &u, T + DAY), 4_750_000_000);
    assert!(can_settle_box(&v, &u, T + DAY));
    let p = buy_box(&mut v, &mut u, &key(MINT), &key(31), T + DAY, T + DAY).unwrap();
    assert_eq!((p.drawn.roll, p.drawn.rarity, p.drawn.interest_rate), (70, 2, 2920));
    assert_eq!(u.amount_stake, 200_000_000_000);
    assert_eq!(u.interest_rate, 2372);
    assert_eq!(u.amount_unprocessed, 4_750_000_000);
    assert_eq!(u.last_update, T + DAY);
    assert_eq!(u.ref_wallet, key(31));
    assert_eq!(get_supply(&v), 200_000_000_000);
    assert!(u.interest_rate >= 1825 && u.interest_rate <= 2920);
    assert_eq!(estimate_accrured_interest(&v, &u, T + 2 * DAY), 12_394_897_259);
}

#[test]
fn buy_box_with_foreign_mint_is_refused() {
    let mut v = ready_vault();
    let mut u = fresh_user();
    let (v0, u0) = (v, u);
    assert_eq!(
        buy_box(&mut v, &mut u, &key(9), &key(30), T, T).err(),
        Some(VaultError::Vault(ErrorCode::WrongStakeMint))
    );
    assert_eq!((v, u), (v0, u0));
}

#[test]
fn buying_a_rare_box() {
    let now = 838_860_800;
    let mut v = ready_vault();
    let mut u = fresh_user();
    assert!(can_settle_box(&v, &u, now));
    let p = buy_box(&mut v, &mut u, &key(MINT), &key(30), now, now).unwrap();
    assert_eq!((p.drawn.roll, p.drawn.rarity, p.drawn.interest_rate), (79, 2, 2920));
    assert_eq!(p.metadata.seller_fee_basis_points, 2);
    assert!(p.metadata.uri.starts_with(RARE_URI));
    assert_eq!(p.metadata.uri, box_nft_metadata(&draw_box(now, now)).uri);
    assert_eq!((u.interest_rate, u.amount_stake, u.amount_unprocessed, u.last_update), (2920, 100_000_000_000, 0, now));
    assert_eq!(v.total_staked, 100_000_000_000);
}

#[test]
fn buying_an_epic_box() {
    let now = 100_663_296;
    let mut v = ready_vault();
    let mut u = fresh_user();
    let p = buy_box(&mut v, &mut u, &key(MINT), &key(30), now, now).unwrap();
    assert_eq!((p.drawn.roll, p.drawn.rarity, p.drawn.interest_rate), (99, 3, 3650));
    assert_eq!(p.metadata.seller_fee_basis_points, 3);
    assert_eq!(p.metadata.uri, format!("{}BLACK-NINJA.json", EPIC_URI));
    assert_eq!((u.interest_rate, u.amount_stake, u.amount_unprocessed, u.last_update), (3650, 100_000_000_000, 0, now));
}

#[test]
fn buy_box_with_negative_reward_is_refused() {
    let mut v = ready_vault();
    let mut u = fresh_user();
    buy_box(&mut v, &mut u, &key(MINT), &key(30), T, T).unwrap();
    update_dev_fee(&mut v, &key(OWNER), 200).unwrap();
    let (v0, u0) = (v, u);
    assert!(can_settle_box(&v, &u, T + DAY));
    assert_eq!(
        buy_box(&mut v, &mut u, &key(MINT), &key(30), T + DAY, T + DAY).err(),
        Some(VaultError::InvalidNumericConversion)
    );
    assert_eq!((v, u), (v0, u0));
}

#[test]
fn buy_box_overflowing_total_is_refused() {
    let mut v = ready_vault();
    v.total_staked = u64::MAX - 10;
    let mut u = fresh_user();
    let (v0, u0) = (v, u);
    assert!(can_settle_box(&v, &u, T));
    assert_eq!(
        buy_box(&mut v, &mut u, &key(MINT), &key(30), T, T).err(),
        Some(VaultError::Vault(ErrorCode::Overflow))
    );
    assert_eq!((v, u), (v0, u0));
}

#[test]
fn box_purchase_that_would_panic_is_detected() {
    let mut v = ready_vault();
    let u = fresh_user();
    v.box_price = 0;
    assert!(!can_settle_box(&v, &u, T));
    v.box_price = u64::MAX;
    assert!(!can_settle_box(&v, &u, T));
    let v = ready_vault();
    let mut u2 = fresh_user();
    u2.interest_rate = u64::MAX;
    u2.amount_stake = 2;
    assert!(!can_settle_box(&v, &u2, T));
}

#[test]
fn claim_pays_reward_and_restarts_accrual() {
    let mut v = ready_vault();
    let mut u = fresh_user();
    buy_box(&mut v, &mut u, &key(MINT), &key(30), T, T).unwrap();
    let payout = claim(&v, &mut u, &key(MINT), T + DAY, &key(40), &key(41)).unwrap();
    assert_eq!(
        payout,
        ClaimPayout { reward: 4_750_000_000, staker_amount: 4_750_000_000, referrer: ReferrerCut::Owed(475_000_000) }
    );
    assert_eq!(u.amount_unprocessed, 0);
    assert_eq!(u.last_update, T + DAY);
    assert_eq!(u.amount_stake, 100_000_000_000);
    assert_eq!(referral_amount(payout.reward), Some(475_000_000));
    assert_eq!(estimate_accrured_interest(&v, &u, T + DAY), 0);
    let u1 = u;
    let again = claim(&v, &mut u, &key(MINT), T + DAY, &key(40), &key(41)).unwrap();
    assert_eq!(again, ClaimPayout { reward: 0, staker_amount: 0, referrer: ReferrerCut::Owed(0) });
    assert_eq!(u, u1);
}

#[test]
fn claim_pays_staker_and_referrer() {
    let mut v = ready_vault();
    update_dev_fee(&mut v, &key(OWNER), 10).unwrap();
    let mut u = UserInfo {
        amount_stake: 31_536_000,
        amount_unprocessed: 7,
        last_update: 1_699_999_900,
        ref_wallet: key(30),
        interest_rate: 1000,
    };
    let payout = claim(&v, &mut u, &key(MINT), 1_700_000_000, &key(40), &key(41)).unwrap();
    assert_eq!(payout, ClaimPayout { reward: 907, staker_amount: 907, referrer: ReferrerCut::Owed(90) });
    assert_eq!((u.amount_unprocessed, u.last_update), (0, 1_700_000_000));
}

#[test]
fn claim_with_overlarge_reward_cannot_pay_referrer() {
    let v = ready_vault();
    let mut u = fresh_user();
    u.amount_unprocessed = i64::MAX as u64;
    u.last_update = T;
    let payout = claim(&v, &mut u, &key(MINT), T, &key(40), &key(41)).unwrap();
    assert_eq!(payout.reward, i64::MAX);
    assert_eq!(payout.referrer, ReferrerCut::TooLarge);
}

#[test]
fn claim_adds_unpaid_reward_undivided() {
    let v = ready_vault();
    let mut u = UserInfo {
        amount_stake: 200_000_000_000,
        amount_unprocessed: 4_750_000_000,
        last_update: T + DAY,
        ref_wallet: key(30),
        interest_rate: 2737,
    };
    let payout = claim(&v, &mut u, &key(MINT), T + 2 * DAY, &key(41), &key(41)).unwrap();
    assert_eq!(payout.reward, 18_997_397_259);
    assert_eq!(payout.referrer, ReferrerCut::NotOwed);
}

#[test]
fn claim_with_foreign_mint_is_refused() {
    let v = ready_vault();
    let mut u = fresh_user();
    u.amount_unprocessed = 5;
    let u0 = u;
    assert_eq!(
        claim(&v, &mut u, &key(9), T, &key(40), &key(41)),
        Err(VaultError::Vault(ErrorCode::WrongStakeMint))
    );
    assert_eq!(u, u0);
}

#[test]
fn negative_claim_wraps_to_unsigned() {
    let mut v = ready_vault();
    update_dev_fee(&mut v, &key(OWNER), 200).unwrap();
    let mut u = UserInfo {
        amount_stake: 100_000_000_000,
        amount_unprocessed: 0,
        last_update: T,
        ref_wallet: key(30),
        interest_rate: 1825,
    };
    let payout = claim(&v, &mut u, &key(MINT), T + DAY, &key(40), &key(41)).unwrap();
    assert_eq!(payout.reward, -5_000_000_000);
    assert_eq!(payout.staker_amount, (u64::MAX - 5_000_000_000) + 1);
    assert_eq!(referral_amount(payout.reward), Some(u64::MAX - 500_000_000 + 1));
}

#[test]
fn referral_amount_is_a_tenth() {
    assert_eq!(referral_amount(1000), Some(100));
    assert_eq!(referral_amount(19), Some(1));
    assert_eq!(referral_amount(0), Some(0));
    assert_eq!(referral_amount(i64::MAX), None);
    assert_eq!(referral_amount(i64::MIN / 10 - 1), None);
}

#[test]
fn reward_grows_with_time() {
    let v = ready_vault();
    let u = UserInfo {
        amount_stake: 100_000_000_000,
        amount_unprocessed: 0,
        last_update: T,
        ref_wallet: key(30),
        interest_rate: 1825,
    };
    let a = estimate_accrured_interest(&v, &u, T + 3600);
    let b = estimate_accrured_interest(&v, &u, T + 7200);
    assert_eq!(a, 197_916_666);
    assert_eq!(b, 395_833_332);
    assert!(a <= b);
}

#[test]
fn total_stake_is_the_sum_of_whole_boxes() {
    let mut v = ready_vault();
    let mut a = fresh_user();
    let mut b = fresh_user();
    buy_box(&mut v, &mut a, &key(MINT), &key(30), T, T).unwrap();
    buy_box(&mut v, &mut b, &key(MINT), &key(31), T, T).unwrap();
    buy_box(&mut v, &mut a, &key(MINT), &key(30), T + DAY, T + DAY).unwrap();
    claim(&v, &mut b, &key(MINT), T + DAY, &key(31), &key(31)).unwrap();
    update_dev_fee(&mut v, &key(OWNER), 7).unwrap();
    assert_eq!(get_supply(&v), a.amount_stake + b.amount_stake);
    assert_eq!(a.amount_stake, 2 * BOX_PRICE);
    assert_eq!(b.amount_stake, BOX_PRICE);
}
