//! Properties of the vault that span several instructions or hold of every
//! input.

use vstd::prelude::*;
use vstd::arithmetic::div_mod::lemma_div_is_ordered;
use vstd::arithmetic::mul::lemma_mul_inequality;
use crate::error::VaultError;
use crate::mystery_box::{
    be_bytes, byte_sum, drawn_box, drawn_rate_spec, rarity_roll_spec, rarity_spec, rate_for_rarity_spec,
    MysteryBox, COMMON_RATE, EPIC_RATE, RARE_RATE,
};
use crate::error::ErrorCode;
use crate::metadata::{is_box_metadata, is_collection_metadata, NftMetadata};
use crate::vault::{as_unsigned, box_purchase_settles};
use crate::pubkey::Pubkey;
use crate::reward::{accrual_spec, claimable_reward_spec, div_toward_zero, pending_reward_spec, SECONDS_PER_YEAR};
use crate::staking::{reward_for, StakingData};
use crate::state::{UserInfo, VaultInfo};
use crate::vault::{
    blended_rate_spec, buy_box_spec, claim_spec, init_spec, transfer_owner_spec,
    update_dev_fee_spec, update_stake_mint_spec, withdraw_dev_fee_spec, withdraw_lp_spec,
    ReferrerCut,
};

verus! {

pub open spec fn min(a: int, b: int) -> int {
    if a <= b { a } else { b }
}

pub open spec fn max(a: int, b: int) -> int {
    if a <= b { b } else { a }
}

/// Whoever initializes the vault owns it: the new owner can administer it
/// and nothing is staked.
pub proof fn lemma_init_hands_over_an_empty_vault(vault: VaultInfo, dev_fee: i64, owner: Pubkey, new_fee: i64)
    ensures
        init_spec(vault, dev_fee, owner).total_staked == 0,
        update_dev_fee_spec(init_spec(vault, dev_fee, owner), owner, new_fee).0 is Ok,
{
}

/// After the owner hands the vault to someone else, the former owner is
/// refused every owner-only instruction and the new owner is accepted.
pub proof fn lemma_transfer_owner_moves_control(
    vault: VaultInfo,
    owner: Pubkey,
    new_owner: Pubkey,
    dev_fee: i64,
    stake_mint: Pubkey,
    vault_balance: u64,
)
    requires
        owner@ == vault.owner@,
        new_owner@ != owner@,
    ensures
        ({
            let moved = transfer_owner_spec(vault, owner, new_owner).1;
            &&& update_dev_fee_spec(moved, owner, dev_fee).0 == Err::<(), VaultError>(VaultError::IllegalOwner)
            &&& update_stake_mint_spec(moved, owner, stake_mint).0 == Err::<(), VaultError>(VaultError::IllegalOwner)
            &&& transfer_owner_spec(moved, owner, owner).0 == Err::<(), VaultError>(VaultError::IllegalOwner)
            &&& withdraw_dev_fee_spec(moved, owner).0 == Err::<u64, VaultError>(VaultError::IllegalOwner)
            &&& stake_mint@ == moved.stake_mint@ ==> withdraw_lp_spec(moved, owner, stake_mint, vault_balance)
                == Err::<u64, VaultError>(VaultError::IllegalOwner)
            &&& update_dev_fee_spec(moved, new_owner, dev_fee).0 is Ok
            &&& withdraw_dev_fee_spec(moved, new_owner).0 is Ok
        }),
{
}

/// The developer fees are paid out once: right after a withdrawal a second
/// one pays nothing.
pub proof fn lemma_dev_fee_withdrawn_once(vault: VaultInfo, owner: Pubkey)
    requires
        owner@ == vault.owner@,
    ensures
        withdraw_dev_fee_spec(vault, owner).0 == Ok::<u64, VaultError>(vault.total_fee_collect),
        withdraw_dev_fee_spec(withdraw_dev_fee_spec(vault, owner).1, owner).0 == Ok::<u64, VaultError>(0),
{
}

/// The blended rate is a weighted average: it lies between the user's
/// previous rate and the box's rate, and equals the box's rate when nothing
/// was staked before.
pub proof fn lemma_blended_rate_between(user: UserInfo, box_rate: u64, box_price: u64)
    requires
        user.amount_stake + box_price > 0,
    ensures
        min(user.interest_rate as int, box_rate as int) <= blended_rate_spec(user, box_rate, box_price),
        blended_rate_spec(user, box_rate, box_price) <= max(user.interest_rate as int, box_rate as int),
        user.amount_stake == 0 ==> blended_rate_spec(user, box_rate, box_price) == box_rate,
{
    let r1 = user.interest_rate as int;
    let s1 = user.amount_stake as int;
    let r2 = box_rate as int;
    let s2 = box_price as int;
    let lo = min(r1, r2);
    let hi = max(r1, r2);
    let n = r1 * s1 + r2 * s2;
    let d = s1 + s2;
    assert(lo * d <= n) by (nonlinear_arith)
        requires
            lo <= r1,
            lo <= r2,
            s1 >= 0,
            s2 >= 0,
            d == s1 + s2,
            n == r1 * s1 + r2 * s2,
    ;
    assert(n <= hi * d) by (nonlinear_arith)
        requires
            r1 <= hi,
            r2 <= hi,
            s1 >= 0,
            s2 >= 0,
            d == s1 + s2,
            n == r1 * s1 + r2 * s2,
    ;
    assert(lo <= n / d) by (nonlinear_arith)
        requires
            lo * d <= n,
            d > 0,
    ;
    assert(n / d <= hi) by (nonlinear_arith)
        requires
            n <= hi * d,
            d > 0,
    ;
    if s1 == 0 {
        assert(n == r2 * d) by (nonlinear_arith)
            requires
                s1 == 0,
                d == s1 + s2,
                n == r1 * s1 + r2 * s2,
        ;
        assert(n / d == r2) by (nonlinear_arith)
            requires
                n == r2 * d,
                d > 0,
        ;
    }
}

/// A settled box purchase adds exactly the box price to the vault's total
/// and to the user's stake, restarts accrual at the purchase time, and moves
/// the user's rate toward the box's rate without overshooting it.
pub proof fn lemma_box_purchase_accounting(
    vault: VaultInfo,
    user: UserInfo,
    stake_mint: Pubkey,
    ref_wallet: Pubkey,
    now: i64,
    box_rate: u64,
)
    requires
        buy_box_spec(vault, user, stake_mint, ref_wallet, now, box_rate).0 is Ok,
        0 < user.amount_stake + vault.box_price <= u64::MAX,
        user.interest_rate * user.amount_stake + box_rate * vault.box_price <= u64::MAX,
    ensures
        ({
            let (_, v1, u1) = buy_box_spec(vault, user, stake_mint, ref_wallet, now, box_rate);
            &&& v1.total_staked == vault.total_staked + vault.box_price
            &&& u1.amount_stake == user.amount_stake + vault.box_price
            &&& v1.total_staked - u1.amount_stake == vault.total_staked - user.amount_stake
            &&& u1.last_update == now
            &&& min(user.interest_rate as int, box_rate as int) <= u1.interest_rate
            &&& u1.interest_rate <= max(user.interest_rate as int, box_rate as int)
        }),
{
    lemma_blended_rate_between(user, box_rate, vault.box_price);
    let n = user.interest_rate * user.amount_stake + box_rate * vault.box_price;
    let d = user.amount_stake + vault.box_price;
    assert(0 <= n / d <= n) by (nonlinear_arith)
        requires
            0 <= n,
            d > 0,
    ;
}

/// Right after a claim nothing is pending: an estimate or a second claim at
/// the same time yields zero, the second claim pays nobody anything and
/// leaves the user as the first one left it.
pub proof fn lemma_claim_leaves_nothing_pending(
    vault: VaultInfo,
    user: UserInfo,
    stake_mint: Pubkey,
    now: i64,
    referrer_account: Pubkey,
    staker_account: Pubkey,
)
    requires
        stake_mint@ == vault.stake_mint@,
        claimable_reward_spec(vault, user, now) is Some,
    ensures
        ({
            let u1 = claim_spec(vault, user, stake_mint, now, referrer_account, staker_account).1;
            let second = claim_spec(vault, u1, stake_mint, now, referrer_account, staker_account);
            &&& pending_reward_spec(vault, u1, now) == Some(0i64)
            &&& claimable_reward_spec(vault, u1, now) == Some(0i64)
            &&& second.0 matches Ok(p) && p.reward == 0 && p.staker_amount == 0 && (p.referrer
                == ReferrerCut::NotOwed || p.referrer == ReferrerCut::Owed(0))
            &&& second.1 == u1
        }),
{
    let u1 = claim_spec(vault, user, stake_mint, now, referrer_account, staker_account).1;
    assert(u1.interest_rate == user.interest_rate);
    assert(u1.amount_stake == user.amount_stake);
    assert(0 * (u1.interest_rate as int) == 0);
    assert(0 * (u1.amount_stake as int) == 0);
    assert(0 * (100 - vault.dev_fee) == 0);
    assert(accrual_spec(vault, u1, now) == Some(0int));
    let second = claim_spec(vault, u1, stake_mint, now, referrer_account, staker_account);
    assert(second.1 =~= u1);
}

/// Pending and claimable rewards never shrink as time passes, as long as the
/// developer fee is at most 100 percent and the clock is past the last update.
pub proof fn lemma_reward_grows_with_time(vault: VaultInfo, user: UserInfo, earlier: i64, later: i64)
    requires
        vault.dev_fee <= 100,
        user.last_update <= earlier <= later,
        accrual_spec(vault, user, earlier) is Some,
        accrual_spec(vault, user, later) is Some,
    ensures
        pending_reward_spec(vault, user, earlier) is Some && pending_reward_spec(vault, user, later) is Some
            ==> pending_reward_spec(vault, user, earlier).unwrap() <= pending_reward_spec(vault, user, later).unwrap(),
        claimable_reward_spec(vault, user, earlier) is Some && claimable_reward_spec(vault, user, later) is Some
            ==> claimable_reward_spec(vault, user, earlier).unwrap() <= claimable_reward_spec(vault, user, later).unwrap(),
{
    lemma_accrual_grows_with_time(vault, user, earlier, later);
    let x = accrual_spec(vault, user, earlier).unwrap();
    let y = accrual_spec(vault, user, later).unwrap();
    let u = user.amount_unprocessed as int;
    lemma_div_is_ordered(x + u, y + u, 100);
    lemma_div_is_ordered(x, y, 100);
}

proof fn lemma_accrual_grows_with_time(vault: VaultInfo, user: UserInfo, earlier: i64, later: i64)
    requires
        vault.dev_fee <= 100,
        user.last_update <= earlier <= later,
        accrual_spec(vault, user, earlier) is Some,
        accrual_spec(vault, user, later) is Some,
    ensures
        0 <= accrual_spec(vault, user, earlier).unwrap() <= accrual_spec(vault, user, later).unwrap(),
{
    let rate = user.interest_rate as int;
    let stake = user.amount_stake as int;
    let share = 100 - vault.dev_fee;
    let e1 = earlier - user.last_update;
    let e2 = later - user.last_update;
    lemma_mul_inequality(e1, e2, rate);
    assert(0 <= e1 * rate) by (nonlinear_arith)
        requires
            e1 >= 0,
            rate >= 0,
    ;
    let a1 = e1 * rate;
    let b1 = e2 * rate;
    lemma_div_is_ordered(a1, b1, 100);
    let a2 = a1 / 100;
    let b2 = b1 / 100;
    assert(div_toward_zero(a1, 100) == a2);
    assert(div_toward_zero(b1, 100) == b2);
    assert(0 <= a2);
    lemma_mul_inequality(a2, b2, stake);
    assert(0 <= a2 * stake) by (nonlinear_arith)
        requires
            a2 >= 0,
            stake >= 0,
    ;
    let a3 = a2 * stake;
    let b3 = b2 * stake;
    lemma_div_is_ordered(a3, b3, SECONDS_PER_YEAR as int);
    let a4 = a3 / (SECONDS_PER_YEAR as int);
    let b4 = b3 / (SECONDS_PER_YEAR as int);
    assert(0 <= a4);
    lemma_mul_inequality(a4, b4, share);
    assert(0 <= a4 * share) by (nonlinear_arith)
        requires
            a4 >= 0,
            share >= 0,
    ;
}

/// Every box grants one of the three rates, the one of its rarity.
pub proof fn lemma_box_rate_follows_rarity(t: i64)
    ensures
        1 <= rarity_spec(rarity_roll_spec(t)) <= 3,
        rate_for_rarity_spec(rarity_spec(rarity_roll_spec(t))) == COMMON_RATE
            || rate_for_rarity_spec(rarity_spec(rarity_roll_spec(t))) == RARE_RATE
            || rate_for_rarity_spec(rarity_spec(rarity_roll_spec(t))) == EPIC_RATE,
{
}

/// Unstaking burns exactly the rewards that staking the same amount mints
/// (both are `reward_for`), and a freshly initialized program, whose rate is
/// zero, mints and burns nothing.
pub proof fn lemma_fresh_staking_mints_nothing(data: StakingData, amount: u64)
    requires
        data.reward_rate == 0,
    ensures
        reward_for(data, amount) == 0,
{
}

/// The total stake of a list of stakers.
pub open spec fn staked_sum(users: Seq<UserInfo>) -> int
    decreases users.len(),
{
    if users.len() == 0 {
        0
    } else {
        staked_sum(users.drop_last()) + users.last().amount_stake
    }
}

/// The vault's books agree with its stakers: the vault's total is the sum of
/// the stakes, and staker `i` holds the price of `boxes[i]` boxes.
pub open spec fn books_balance(vault: VaultInfo, users: Seq<UserInfo>, boxes: Seq<nat>) -> bool {
    &&& users.len() == boxes.len()
    &&& vault.total_staked == staked_sum(users)
    &&& forall|i: int| 0 <= i < users.len() ==> #[trigger] users[i].amount_stake == boxes[i] * vault.box_price
}

proof fn lemma_staked_sum_nonnegative(users: Seq<UserInfo>)
    ensures
        staked_sum(users) >= 0,
    decreases users.len(),
{
    if users.len() > 0 {
        lemma_staked_sum_nonnegative(users.drop_last());
    }
}

proof fn lemma_staked_sum_update(users: Seq<UserInfo>, i: int, user: UserInfo)
    requires
        0 <= i < users.len(),
    ensures
        staked_sum(users.update(i, user)) == staked_sum(users) - users[i].amount_stake + user.amount_stake,
    decreases users.len(),
{
    let updated = users.update(i, user);
    if i == users.len() - 1 {
        assert(updated.drop_last() =~= users.drop_last());
    } else {
        lemma_staked_sum_update(users.drop_last(), i, user);
        assert(updated.drop_last() =~= users.drop_last().update(i, user));
    }
}

/// A vault set up by `init` has balanced books with no stakers yet.
pub proof fn lemma_books_balance_after_init(vault: VaultInfo, dev_fee: i64, owner: Pubkey)
    ensures
        books_balance(init_spec(vault, dev_fee, owner), Seq::empty(), Seq::empty()),
{
}

/// A new staker, whose account starts with nothing staked, keeps the books
/// balanced.
pub proof fn lemma_books_balance_with_new_staker(vault: VaultInfo, users: Seq<UserInfo>, boxes: Seq<nat>, fresh: UserInfo)
    requires
        books_balance(vault, users, boxes),
        fresh.amount_stake == 0,
    ensures
        books_balance(vault, users.push(fresh), boxes.push(0)),
{
    assert(users.push(fresh).drop_last() =~= users);
    assert forall|i: int| 0 <= i < users.push(fresh).len() implies #[trigger] users.push(fresh)[i].amount_stake
        == boxes.push(0)[i] * vault.box_price by {
        if i < users.len() {
            assert(users.push(fresh)[i] == users[i]);
            assert(boxes.push(0)[i] == boxes[i]);
            assert(users[i].amount_stake == boxes[i] * vault.box_price);
        } else {
            assert(boxes.push(0)[i] == 0);
            assert(0 * (vault.box_price as int) == 0) by (nonlinear_arith);
        }
    }
}

/// A settled box purchase by staker `i` keeps the books balanced, with one
/// more box for that staker.
pub proof fn lemma_books_balance_after_purchase(
    vault: VaultInfo,
    users: Seq<UserInfo>,
    boxes: Seq<nat>,
    i: int,
    stake_mint: Pubkey,
    ref_wallet: Pubkey,
    now: i64,
    box_rate: u64,
)
    requires
        books_balance(vault, users, boxes),
        0 <= i < users.len(),
        buy_box_spec(vault, users[i], stake_mint, ref_wallet, now, box_rate).0 is Ok,
    ensures
        ({
            let (_, v1, u1) = buy_box_spec(vault, users[i], stake_mint, ref_wallet, now, box_rate);
            books_balance(v1, users.update(i, u1), boxes.update(i, boxes[i] + 1))
        }),
{
    let (_, v1, u1) = buy_box_spec(vault, users[i], stake_mint, ref_wallet, now, box_rate);
    lemma_staked_sum_update(users, i, u1);
    let emptied = UserInfo { amount_stake: 0, ..users[i] };
    lemma_staked_sum_update(users, i, emptied);
    lemma_staked_sum_nonnegative(users.update(i, emptied));
    assert(u1.amount_stake == users[i].amount_stake + vault.box_price);
    let k = boxes[i];
    let p = vault.box_price as int;
    assert(users[i].amount_stake == k * p);
    assert(k * p + p == (k + 1) * p) by (nonlinear_arith);
    let users1 = users.update(i, u1);
    let boxes1 = boxes.update(i, (k + 1) as nat);
    assert forall|j: int| 0 <= j < users1.len() implies #[trigger] users1[j].amount_stake == boxes1[j]
        * v1.box_price by {
        if j != i {
            assert(users1[j] == users[j]);
            assert(boxes1[j] == boxes[j]);
            assert(users[j].amount_stake == boxes[j] * vault.box_price);
        } else {
            assert(users1[j] == u1);
            assert(boxes1[j] == k + 1);
        }
    }
    assert(boxes.update(i, boxes[i] + 1) == boxes1);
}

/// A claim by staker `i` leaves the stakes, and so the books, as they were.
pub proof fn lemma_books_balance_after_claim(
    vault: VaultInfo,
    users: Seq<UserInfo>,
    boxes: Seq<nat>,
    i: int,
    stake_mint: Pubkey,
    now: i64,
    referrer_account: Pubkey,
    staker_account: Pubkey,
)
    requires
        books_balance(vault, users, boxes),
        0 <= i < users.len(),
    ensures
        books_balance(
            vault,
            users.update(i, claim_spec(vault, users[i], stake_mint, now, referrer_account, staker_account).1),
            boxes,
        ),
{
    let u1 = claim_spec(vault, users[i], stake_mint, now, referrer_account, staker_account).1;
    lemma_staked_sum_update(users, i, u1);
    let users1 = users.update(i, u1);
    assert forall|j: int| 0 <= j < users1.len() implies #[trigger] users1[j].amount_stake == boxes[j]
        * vault.box_price by {
        assert(users[j].amount_stake == boxes[j] * vault.box_price);
    }
}

/// The owner-only instructions and the creation of the collection touch
/// neither the total nor the price, and so keep the books balanced.
pub proof fn lemma_books_balance_after_administration(
    vault: VaultInfo,
    users: Seq<UserInfo>,
    boxes: Seq<nat>,
    signer: Pubkey,
    key: Pubkey,
    dev_fee: i64,
)
    requires
        books_balance(vault, users, boxes),
    ensures
        books_balance(update_stake_mint_spec(vault, signer, key).1, users, boxes),
        books_balance(update_dev_fee_spec(vault, signer, dev_fee).1, users, boxes),
        books_balance(transfer_owner_spec(vault, signer, key).1, users, boxes),
        books_balance(withdraw_dev_fee_spec(vault, signer).1, users, boxes),
        books_balance(VaultInfo { collection_mint: key, ..vault }, users, boxes),
{
}

/// The rewards stated over the raw fields, in seconds, for a developer fee
/// of at most 100 percent, a clock at or past the last update, and amounts
/// that stay within `i64`: with `e = now - last_update`,
/// `accrual = e * rate / 100 * stake / 31536000 * (100 - dev_fee)`;
/// an estimate (and a purchase) counts `(accrual + unpaid) / 100`, a claim
/// pays `accrual / 100 + unpaid` to the staker and a tenth of that to a
/// distinct referrer (when ten times the claim fits in `i64`).  All
/// divisions round down, the values being non-negative.  Accrual therefore grows with every elapsed second and has
/// no cap.
pub proof fn lemma_reward_formulas(
    vault: VaultInfo,
    user: UserInfo,
    now: i64,
    stake_mint: Pubkey,
    referrer_account: Pubkey,
    staker_account: Pubkey,
)
    requires
        100 - i64::MAX <= vault.dev_fee <= 100,
        0 <= now - user.last_update <= i64::MAX,
        user.interest_rate <= i64::MAX,
        user.amount_stake <= i64::MAX,
        user.amount_unprocessed <= i64::MAX,
        (now - user.last_update) * user.interest_rate <= i64::MAX,
        (now - user.last_update) * user.interest_rate / 100 * user.amount_stake <= i64::MAX,
        (now - user.last_update) * user.interest_rate / 100 * user.amount_stake / 31536000 * (100
            - vault.dev_fee) + user.amount_unprocessed <= i64::MAX,
    ensures
        ({
            let accrual = (now - user.last_update) * user.interest_rate / 100 * user.amount_stake
                / 31536000 * (100 - vault.dev_fee);
            let claimed = accrual / 100 + user.amount_unprocessed;
            &&& pending_reward_spec(vault, user, now) == Some(
                ((accrual + user.amount_unprocessed) / 100) as i64,
            )
            &&& claimable_reward_spec(vault, user, now) == Some(claimed as i64)
            &&& stake_mint@ == vault.stake_mint@ ==> (claim_spec(
                vault,
                user,
                stake_mint,
                now,
                referrer_account,
                staker_account,
            ).0 matches Ok(p) && {
                &&& p.reward == claimed
                &&& p.staker_amount == claimed
                &&& p.referrer == if referrer_account@ == staker_account@ {
                    ReferrerCut::NotOwed
                } else {
                    if claimed * 10 <= i64::MAX {
                        ReferrerCut::Owed((claimed * 10 / 100) as u64)
                    } else {
                        ReferrerCut::TooLarge
                    }
                }
            })
        }),
{
    let e = now - user.last_update;
    let rate = user.interest_rate as int;
    let stake = user.amount_stake as int;
    let share = 100 - vault.dev_fee;
    let u = user.amount_unprocessed as int;
    assert(0 <= e * rate) by (nonlinear_arith)
        requires
            e >= 0,
            rate >= 0,
    ;
    let a2 = e * rate / 100;
    assert(0 <= a2 * stake) by (nonlinear_arith)
        requires
            a2 >= 0,
            stake >= 0,
    ;
    let a4 = a2 * stake / 31536000;
    assert(0 <= a4 * share) by (nonlinear_arith)
        requires
            a4 >= 0,
            share >= 0,
    ;
    let accrual = a4 * share;
    assert(accrual == e * rate / 100 * stake / 31536000 * (100 - vault.dev_fee));
    assert(accrual_spec(vault, user, now) == Some(accrual));
    let claimed = accrual / 100 + u;
    assert(0 <= claimed * 10 / 100 <= claimed) by (nonlinear_arith)
        requires
            claimed >= 0,
    ;
    assert(0 <= claimed <= i64::MAX);
}

/// The rarity, rate and image collection of a box follow its roll: below
/// 70 a common box (rate 1825), from 70 below 90 a rare one (rate 2920),
/// from 90 an epic one (rate 3650); the URI lies in the collection of that
/// rarity, and the avatar is one of the nine.
pub proof fn lemma_box_follows_roll(b: MysteryBox, avatar_time: i64, rarity_time: i64)
    requires
        drawn_box(b, avatar_time, rarity_time),
    ensures
        b.roll < 100,
        b.avatar < 9,
        b.roll < 70 ==> b.rarity == 1 && b.interest_rate == 1825 && b.uri@.subrange(
            0,
            "https://bafybeifgvugqgl72xxztucdsv2l3x6fl67wksogqdrggnmomscqm5xte4u.ipfs.w3s.link/"@.len() as int,
        ) == "https://bafybeifgvugqgl72xxztucdsv2l3x6fl67wksogqdrggnmomscqm5xte4u.ipfs.w3s.link/"@,
        70 <= b.roll < 90 ==> b.rarity == 2 && b.interest_rate == 2920 && b.uri@.subrange(
            0,
            "https://bafybeia3hjnbr3jhmsidlp226pffotky5xuhmbj4waotmm5owohcygs6nm.ipfs.w3s.link/"@.len() as int,
        ) == "https://bafybeia3hjnbr3jhmsidlp226pffotky5xuhmbj4waotmm5owohcygs6nm.ipfs.w3s.link/"@,
        90 <= b.roll ==> b.rarity == 3 && b.interest_rate == 3650 && b.uri@.subrange(
            0,
            "https://bafybeigoivokvnbgv6aib27k3g76kx562xmqsksgk7mpusqb4abqicscdy.ipfs.w3s.link/"@.len() as int,
        ) == "https://bafybeigoivokvnbgv6aib27k3g76kx562xmqsksgk7mpusqb4abqicscdy.ipfs.w3s.link/"@,
{
    let rest = crate::mystery_box::avatar_name_spec(b.avatar as int) + ".json"@;
    let base = crate::mystery_box::base_uri_spec(b.roll as int);
    assert(b.uri@ == base + rest);
    assert((base + rest).subrange(0, base.len() as int) =~= base);
}

/// The rate of the box bought at time `t` is that of its roll's rarity:
/// 1825 below 70, 2920 below 90, 3650 otherwise; the roll is below 100.
pub proof fn lemma_drawn_rate_follows_roll(t: i64)
    ensures
        0 <= rarity_roll_spec(t) < 100,
        rarity_roll_spec(t) < 70 ==> drawn_rate_spec(t) == 1825,
        70 <= rarity_roll_spec(t) < 90 ==> drawn_rate_spec(t) == 2920,
        90 <= rarity_roll_spec(t) ==> drawn_rate_spec(t) == 3650,
{
}

/// The rarity roll of time `t`: add the eight big-endian bytes of `t`,
/// multiply by 6364136223846793005 and add 1, both modulo 2^64, and take the
/// remainder by 100.
pub proof fn lemma_rarity_roll_formula(t: i64)
    ensures
        ({
            let u = t as u64;
            let sum = ((u >> 56u64) as u8) + ((u >> 48u64) as u8) + ((u >> 40u64) as u8) + ((u
                >> 32u64) as u8) + ((u >> 24u64) as u8) + ((u >> 16u64) as u8) + ((u >> 8u64) as u8)
                + (u as u8);
            rarity_roll_spec(t) == (((sum * 6364136223846793005) % 0x1_0000_0000_0000_0000 + 1)
                % 0x1_0000_0000_0000_0000) % 100
        }),
{
    let s = be_bytes(t);
    let u = t as u64;
    assert((u >> 0u64) == u) by (bit_vector);
    assert(s.take(8) =~= s);
    reveal_with_fuel(byte_sum, 9);
    assert(s.drop_last() =~= s.take(7));
    assert(s.take(7).drop_last() =~= s.take(6));
    assert(s.take(6).drop_last() =~= s.take(5));
    assert(s.take(5).drop_last() =~= s.take(4));
    assert(s.take(4).drop_last() =~= s.take(3));
    assert(s.take(3).drop_last() =~= s.take(2));
    assert(s.take(2).drop_last() =~= s.take(1));
    assert(s.take(1).drop_last() =~= s.take(0));
}

/// Rounding toward zero: the quotient times the divisor stays on the
/// dividend's side of zero and within one divisor of it.
pub proof fn lemma_div_toward_zero_rounds_toward_zero(x: int, d: int)
    requires
        d > 0,
    ensures
        x >= 0 ==> 0 <= x - div_toward_zero(x, d) * d < d,
        x < 0 ==> -d < x - div_toward_zero(x, d) * d <= 0,
        x >= 0 ==> div_toward_zero(x, d) >= 0,
        x <= 0 ==> div_toward_zero(x, d) <= 0,
{
    if x >= 0 {
        assert(0 <= x - (x / d) * d < d) by (nonlinear_arith)
            requires
                d > 0,
                x >= 0,
        ;
        assert(x / d >= 0) by (nonlinear_arith)
            requires
                d > 0,
                x >= 0,
        ;
    } else {
        let y = -x;
        assert(0 <= y - (y / d) * d < d) by (nonlinear_arith)
            requires
                d > 0,
                y > 0,
        ;
        assert(y / d >= 0) by (nonlinear_arith)
            requires
                d > 0,
                y > 0,
        ;
        assert(-(y / d) * d == -((y / d) * d)) by (nonlinear_arith);
    }
}

/// The owner empties the stake vault: for the owner and the vault's stake
/// mint the whole balance is paid, whatever the vault's totals, fees and
/// price; a foreign mint is refused first, then anyone but the owner.
pub proof fn lemma_withdraw_lp_pays_whole_balance(
    vault: VaultInfo,
    signer: Pubkey,
    stake_mint: Pubkey,
    vault_balance: u64,
    other_total: u64,
    other_fees: u64,
    other_price: u64,
    other_dev_fee: i64,
)
    ensures
        stake_mint@ == vault.stake_mint@ && signer@ == vault.owner@ ==> withdraw_lp_spec(
            vault,
            signer,
            stake_mint,
            vault_balance,
        ) == Ok::<u64, VaultError>(vault_balance),
        stake_mint@ != vault.stake_mint@ ==> withdraw_lp_spec(vault, signer, stake_mint, vault_balance)
            == Err::<u64, VaultError>(VaultError::Vault(ErrorCode::WrongStakeMint)),
        stake_mint@ == vault.stake_mint@ && signer@ != vault.owner@ ==> withdraw_lp_spec(
            vault,
            signer,
            stake_mint,
            vault_balance,
        ) == Err::<u64, VaultError>(VaultError::IllegalOwner),
        withdraw_lp_spec(
            VaultInfo {
                total_staked: other_total,
                total_fee_collect: other_fees,
                box_price: other_price,
                dev_fee: other_dev_fee,
                ..vault
            },
            signer,
            stake_mint,
            vault_balance,
        ) == withdraw_lp_spec(vault, signer, stake_mint, vault_balance),
{
}

/// `init` gives the vault the caller's owner and fee, an empty total and a
/// box price of 100000 tokens of six decimals, and keeps the rest.
pub proof fn lemma_init_fields(vault: VaultInfo, dev_fee: i64, owner: Pubkey)
    ensures
        ({
            let v1 = init_spec(vault, dev_fee, owner);
            &&& v1.owner == owner
            &&& v1.dev_fee == dev_fee
            &&& v1.total_staked == 0
            &&& v1.box_price == 100_000_000_000
            &&& v1.stake_mint == vault.stake_mint
            &&& v1.collection_mint == vault.collection_mint
            &&& v1.total_fee_collect == vault.total_fee_collect
        }),
{
}

/// The owner-only changes: the owner's change takes effect on its one field
/// and no other; anyone else is refused with `IllegalOwner` and nothing
/// changes.
pub proof fn lemma_owner_changes(vault: VaultInfo, signer: Pubkey, key: Pubkey, dev_fee: i64)
    ensures
        signer@ == vault.owner@ ==> update_dev_fee_spec(vault, signer, dev_fee) == (
            Ok::<(), VaultError>(()),
            VaultInfo { dev_fee, ..vault },
        ),
        signer@ == vault.owner@ ==> update_stake_mint_spec(vault, signer, key) == (
            Ok::<(), VaultError>(()),
            VaultInfo { stake_mint: key, ..vault },
        ),
        signer@ == vault.owner@ ==> transfer_owner_spec(vault, signer, key) == (
            Ok::<(), VaultError>(()),
            VaultInfo { owner: key, ..vault },
        ),
        signer@ != vault.owner@ ==> update_dev_fee_spec(vault, signer, dev_fee) == (
            Err::<(), VaultError>(VaultError::IllegalOwner),
            vault,
        ),
        signer@ != vault.owner@ ==> update_stake_mint_spec(vault, signer, key) == (
            Err::<(), VaultError>(VaultError::IllegalOwner),
            vault,
        ),
        signer@ != vault.owner@ ==> transfer_owner_spec(vault, signer, key) == (
            Err::<(), VaultError>(VaultError::IllegalOwner),
            vault,
        ),
        signer@ != vault.owner@ ==> withdraw_dev_fee_spec(vault, signer) == (
            Err::<u64, VaultError>(VaultError::IllegalOwner),
            vault,
        ),
{
}

/// A box purchase, over the raw fields: a foreign mint is refused, then a
/// negative pending reward, then an overflowing total, each leaving the
/// accounts as they were; otherwise the price joins the total and the stake,
/// the pending reward joins the unpaid reward, the rate becomes
/// `(rate * stake + box_rate * price) / (stake + price)`, and the time and
/// referrer are recorded.
pub proof fn lemma_box_purchase_fields(
    vault: VaultInfo,
    user: UserInfo,
    stake_mint: Pubkey,
    ref_wallet: Pubkey,
    now: i64,
    box_rate: u64,
)
    requires
        pending_reward_spec(vault, user, now) is Some,
        user.amount_stake + vault.box_price <= u64::MAX,
        user.amount_stake + vault.box_price > 0,
        user.interest_rate * user.amount_stake + box_rate * vault.box_price <= u64::MAX,
        pending_reward_spec(vault, user, now).unwrap() >= 0 ==> user.amount_unprocessed
            + pending_reward_spec(vault, user, now).unwrap() <= u64::MAX,
    ensures
        ({
            let (r, v1, u1) = buy_box_spec(vault, user, stake_mint, ref_wallet, now, box_rate);
            let pending = pending_reward_spec(vault, user, now).unwrap();
            &&& stake_mint@ != vault.stake_mint@ ==> r == Err::<(), VaultError>(
                VaultError::Vault(ErrorCode::WrongStakeMint),
            ) && v1 == vault && u1 == user
            &&& stake_mint@ == vault.stake_mint@ && pending < 0 ==> r == Err::<(), VaultError>(
                VaultError::InvalidNumericConversion,
            ) && v1 == vault && u1 == user
            &&& stake_mint@ == vault.stake_mint@ && pending >= 0 && vault.total_staked
                + vault.box_price > u64::MAX ==> r == Err::<(), VaultError>(
                VaultError::Vault(ErrorCode::Overflow),
            ) && v1 == vault && u1 == user
            &&& stake_mint@ == vault.stake_mint@ && pending >= 0 && vault.total_staked
                + vault.box_price <= u64::MAX ==> {
                &&& r == Ok::<(), VaultError>(())
                &&& v1.total_staked == vault.total_staked + vault.box_price
                &&& v1.owner == vault.owner && v1.stake_mint == vault.stake_mint
                &&& v1.dev_fee == vault.dev_fee && v1.box_price == vault.box_price
                &&& v1.total_fee_collect == vault.total_fee_collect
                &&& v1.collection_mint == vault.collection_mint
                &&& u1.amount_stake == user.amount_stake + vault.box_price
                &&& u1.amount_unprocessed == user.amount_unprocessed + pending
                &&& u1.interest_rate == (user.interest_rate * user.amount_stake + box_rate
                    * vault.box_price) / (user.amount_stake + vault.box_price)
                &&& u1.last_update == now
                &&& u1.ref_wallet == ref_wallet
            }
        }),
{
    let n = user.interest_rate * user.amount_stake + box_rate * vault.box_price;
    let d = user.amount_stake + vault.box_price;
    assert(0 <= n / d <= n) by (nonlinear_arith)
        requires
            0 <= n,
            d > 0,
    ;
}

/// A claim resets the user's unpaid reward and restarts accrual at the claim
/// time, keeping the stake, the rate and the referrer.
pub proof fn lemma_claim_restarts_accrual(
    vault: VaultInfo,
    user: UserInfo,
    stake_mint: Pubkey,
    now: i64,
    referrer_account: Pubkey,
    staker_account: Pubkey,
)
    requires
        stake_mint@ == vault.stake_mint@,
    ensures
        ({
            let u1 = claim_spec(vault, user, stake_mint, now, referrer_account, staker_account).1;
            &&& u1.amount_unprocessed == 0
            &&& u1.last_update == now
            &&& u1.amount_stake == user.amount_stake
            &&& u1.interest_rate == user.interest_rate
            &&& u1.ref_wallet == user.ref_wallet
        }),
{
}

/// Staking mints, and unstaking burns, the rate times the amount.
pub proof fn lemma_staking_reward(data: StakingData, amount: u64)
    ensures
        reward_for(data, amount) == data.reward_rate * amount,
{
}

/// The avatar of a box is picked by the first byte of the Keccak-256 digest
/// of the eight big-endian bytes of the first clock reading, modulo the nine
/// avatars, and its URI ends with that avatar's name and ".json".
pub proof fn lemma_box_avatar(b: MysteryBox, avatar_time: i64, rarity_time: i64)
    requires
        drawn_box(b, avatar_time, rarity_time),
    ensures
        ({
            let u = avatar_time as u64;
            let seed = seq![
                (u >> 56u64) as u8,
                (u >> 48u64) as u8,
                (u >> 40u64) as u8,
                (u >> 32u64) as u8,
                (u >> 24u64) as u8,
                (u >> 16u64) as u8,
                (u >> 8u64) as u8,
                u as u8,
            ];
            b.avatar == crate::mystery_box::keccak256(seed)[0] as int % 9
        }),
        b.avatar == 0 ==> b.uri@ == b.uri@.subrange(0, b.uri@.len() - "GIRL-NINJA"@.len() - ".json"@.len())
            + "GIRL-NINJA"@ + ".json"@,
        b.avatar == 1 ==> b.uri@ == b.uri@.subrange(0, b.uri@.len() - "BLUE-NINJA"@.len() - ".json"@.len())
            + "BLUE-NINJA"@ + ".json"@,
        b.avatar == 2 ==> b.uri@ == b.uri@.subrange(0, b.uri@.len() - "ROBOT"@.len() - ".json"@.len())
            + "ROBOT"@ + ".json"@,
        b.avatar == 3 ==> b.uri@ == b.uri@.subrange(0, b.uri@.len() - "EVIL-NINJA-1"@.len() - ".json"@.len())
            + "EVIL-NINJA-1"@ + ".json"@,
        b.avatar == 4 ==> b.uri@ == b.uri@.subrange(0, b.uri@.len() - "EVIL-NINJA-2"@.len() - ".json"@.len())
            + "EVIL-NINJA-2"@ + ".json"@,
        b.avatar == 5 ==> b.uri@ == b.uri@.subrange(0, b.uri@.len() - "GHOST"@.len() - ".json"@.len())
            + "GHOST"@ + ".json"@,
        b.avatar == 6 ==> b.uri@ == b.uri@.subrange(0, b.uri@.len() - "WHITE-NINJA"@.len() - ".json"@.len())
            + "WHITE-NINJA"@ + ".json"@,
        b.avatar == 7 ==> b.uri@ == b.uri@.subrange(0, b.uri@.len() - "BLACK-NINJA"@.len() - ".json"@.len())
            + "BLACK-NINJA"@ + ".json"@,
        b.avatar == 8 ==> b.uri@ == b.uri@.subrange(0, b.uri@.len() - "SAMURAI"@.len() - ".json"@.len())
            + "SAMURAI"@ + ".json"@,
{
    let u = avatar_time as u64;
    assert((u >> 0u64) == u) by (bit_vector);
    let seed = seq![
        (u >> 56u64) as u8,
        (u >> 48u64) as u8,
        (u >> 40u64) as u8,
        (u >> 32u64) as u8,
        (u >> 24u64) as u8,
        (u >> 16u64) as u8,
        (u >> 8u64) as u8,
        u as u8,
    ];
    assert(be_bytes(avatar_time) =~= seed);
    let base = crate::mystery_box::base_uri_spec(b.roll as int);
    let name = crate::mystery_box::avatar_name_spec(b.avatar as int);
    assert(b.uri@ == base + name + ".json"@);
    assert(b.uri@.subrange(0, b.uri@.len() - name.len() - ".json"@.len()) =~= base);
}

/// A claim pays the staker the reward's bits read as unsigned: the reward
/// itself when it is not negative, the reward plus 2^64 otherwise.
pub proof fn lemma_claim_staker_amount(
    vault: VaultInfo,
    user: UserInfo,
    stake_mint: Pubkey,
    now: i64,
    referrer_account: Pubkey,
    staker_account: Pubkey,
)
    ensures
        claim_spec(vault, user, stake_mint, now, referrer_account, staker_account).0 matches Ok(p) ==> {
            &&& p.reward >= 0 ==> p.staker_amount == p.reward
            &&& p.reward < 0 ==> p.staker_amount == p.reward + 0x1_0000_0000_0000_0000
        },
{
    let r = claim_spec(vault, user, stake_mint, now, referrer_account, staker_account);
    if r.0 is Ok {
        let p = r.0->Ok_0;
        let reward = p.reward;
        assert(as_unsigned(reward) == if reward >= 0 { reward as int } else { reward + 0x1_0000_0000_0000_0000 });
    }
}

/// What a purchase needs to settle without leaving the machine's integers,
/// over the raw fields: the pending reward computes, `rate * stake`,
/// `box_rate * price` and their sum fit in `u64`, `stake + price` fits and is
/// not zero, and a non-negative pending reward can join the unpaid reward.
pub proof fn lemma_box_purchase_settles_when(vault: VaultInfo, user: UserInfo, now: i64, box_rate: u64)
    ensures
        box_purchase_settles(vault, user, now, box_rate) <==> {
            &&& pending_reward_spec(vault, user, now) is Some
            &&& user.interest_rate * user.amount_stake <= 0xffff_ffff_ffff_ffff
            &&& box_rate * vault.box_price <= 0xffff_ffff_ffff_ffff
            &&& user.interest_rate * user.amount_stake + box_rate * vault.box_price <= 0xffff_ffff_ffff_ffff
            &&& 0 < user.amount_stake + vault.box_price <= 0xffff_ffff_ffff_ffff
            &&& pending_reward_spec(vault, user, now).unwrap() >= 0 ==> user.amount_unprocessed
                + pending_reward_spec(vault, user, now).unwrap() <= 0xffff_ffff_ffff_ffff
        },
{
}

/// The NFT of a box is named and ticketed "HERO", carries the box's URI and
/// its rarity as seller fee, lists no creators and is no collection; the
/// collection NFT carries the given texts, no seller fee, its authority as
/// sole unverified creator with the whole share and an empty sized
/// collection.  Both have a master edition without prints.
pub proof fn lemma_nft_metadata(m: NftMetadata, b: MysteryBox, authority: Pubkey, name: Seq<char>, symbol: Seq<char>, uri: Seq<char>)
    ensures
        is_box_metadata(m, b) ==> {
            &&& m.name@ == "HERO"@ && m.symbol@ == "HERO"@
            &&& m.uri@ == b.uri@
            &&& m.seller_fee_basis_points == b.rarity
            &&& m.creators is None && m.collection_size is None
            &&& m.max_supply == Some(0u64)
        },
        is_collection_metadata(m, authority, name, symbol, uri) ==> {
            &&& m.name@ == name && m.symbol@ == symbol && m.uri@ == uri
            &&& m.seller_fee_basis_points == 0
            &&& m.creators matches Some(c) && c@.len() == 1 && c@[0].address@ == authority@
                && !c@[0].verified && c@[0].share == 100
            &&& m.collection_size == Some(0u64)
            &&& m.max_supply == Some(0u64)
        },
{
}

/// The messages of the vault's own error codes.
pub proof fn lemma_error_messages()
    ensures
        ErrorCode::Overflow.message_spec() == "Overflow."@,
        ErrorCode::Underflow.message_spec() == "Underflow."@,
        ErrorCode::WrongStakeMint.message_spec() == "Wrong stake mint."@,
        ErrorCode::InvalidMintAccountSpace.message_spec() == "Invalid Mint account space"@,
        ErrorCode::CantInitializeMetadataPointer.message_spec() == "Cant initialize metadata_pointer"@,
        ErrorCode::InsufficientRewardMintBalance.message_spec()
            == "The staker does not have enough reward mint tokens to burn."@,
        ErrorCode::ClaimCooldownNotFinished.message_spec()
            == "The claim cooldown period has not been completed. Please wait until 24 hours have passed since your last claim."@,
{
}

} // verus!
