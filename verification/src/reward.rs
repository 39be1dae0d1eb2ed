//! Reward accrual: how much a staker has earned since the last update.
//!
//! Every step is checked signed 64-bit arithmetic, so each computation is
//! partial: it yields `None` exactly where one of its conversions or
//! operations would leave the `i64` range.  Division rounds toward zero.

use vstd::prelude::*;
use crate::state::{UserInfo, VaultInfo};

verus! {

/// Seconds in a (non-leap) year.
pub const SECONDS_PER_YEAR: i64 = 31536000;

pub open spec fn in_i64(x: int) -> bool {
    i64::MIN <= x <= i64::MAX
}

/// Integer division that rounds toward zero, for a positive divisor.
pub open spec fn div_toward_zero(x: int, d: int) -> int {
    if x >= 0 {
        x / d
    } else {
        -((-x) / d)
    }
}

/// The user's yearly accrual since `last_update`, scaled by the share left
/// after the developer fee but not yet divided by 100:
/// `((elapsed * rate) / 100 * stake) / SECONDS_PER_YEAR * (100 - dev_fee)`.
pub open spec fn accrual_spec(vault: VaultInfo, user: UserInfo, now: i64) -> Option<int> {
    let fee_share = 100 - vault.dev_fee;
    let elapsed = now - user.last_update;
    let a1 = elapsed * user.interest_rate;
    let a2 = div_toward_zero(a1, 100);
    let a3 = a2 * user.amount_stake;
    let a4 = div_toward_zero(a3, SECONDS_PER_YEAR as int);
    let a5 = a4 * fee_share;
    if in_i64(fee_share) && in_i64(elapsed) && user.interest_rate <= i64::MAX && in_i64(a1)
        && user.amount_stake <= i64::MAX && in_i64(a3) && in_i64(a5) {
        Some(a5)
    } else {
        None
    }
}

/// The reward a user has pending, as estimated and as folded in by a box
/// purchase: the accrual plus the unpaid reward, all divided by 100.
pub open spec fn pending_reward_spec(vault: VaultInfo, user: UserInfo, now: i64) -> Option<i64> {
    match accrual_spec(vault, user, now) {
        Some(a5) => {
            let total = a5 + user.amount_unprocessed;
            if user.amount_unprocessed <= i64::MAX && in_i64(total) {
                Some(div_toward_zero(total, 100) as i64)
            } else {
                None
            }
        },
        None => None,
    }
}

/// The reward a claim pays: the accrual divided by 100, plus the unpaid reward.
pub open spec fn claimable_reward_spec(vault: VaultInfo, user: UserInfo, now: i64) -> Option<i64> {
    match accrual_spec(vault, user, now) {
        Some(a5) => {
            let total = div_toward_zero(a5, 100) + user.amount_unprocessed;
            if user.amount_unprocessed <= i64::MAX && in_i64(total) {
                Some(total as i64)
            } else {
                None
            }
        },
        None => None,
    }
}

/// Converts an unsigned amount to `i64` when it fits.
pub fn to_signed(x: u64) -> (r: Option<i64>)
    ensures
        r is Some <==> x <= i64::MAX,
        r matches Some(v) ==> v == x,
{
    if x <= 9223372036854775807u64 {
        Some(x as i64)
    } else {
        None
    }
}

fn accrual(vault: &VaultInfo, user: &UserInfo, now: i64) -> (r: Option<i64>)
    ensures
        r is Some <==> accrual_spec(*vault, *user, now) is Some,
        r matches Some(v) ==> accrual_spec(*vault, *user, now) == Some(v as int),
{
    let fee_share = match 100i64.checked_sub(vault.dev_fee) {
        Some(v) => v,
        None => return None,
    };
    let elapsed = match now.checked_sub(user.last_update) {
        Some(v) => v,
        None => return None,
    };
    let rate = match to_signed(user.interest_rate) {
        Some(v) => v,
        None => return None,
    };
    let a1 = match elapsed.checked_mul(rate) {
        Some(v) => v,
        None => return None,
    };
    let a2 = match a1.checked_div(100) {
        Some(v) => v,
        None => return None,
    };
    let stake = match to_signed(user.amount_stake) {
        Some(v) => v,
        None => return None,
    };
    let a3 = match a2.checked_mul(stake) {
        Some(v) => v,
        None => return None,
    };
    let a4 = match a3.checked_div(SECONDS_PER_YEAR) {
        Some(v) => v,
        None => return None,
    };
    let a5 = match a4.checked_mul(fee_share) {
        Some(v) => v,
        None => return None,
    };
    Some(a5)
}

/// The pending reward, or `None` where the computation leaves the `i64` range.
pub fn pending_reward(vault: &VaultInfo, user: &UserInfo, now: i64) -> (r: Option<i64>)
    ensures
        r == pending_reward_spec(*vault, *user, now),
{
    let a5 = match accrual(vault, user, now) {
        Some(v) => v,
        None => return None,
    };
    let unprocessed = match to_signed(user.amount_unprocessed) {
        Some(v) => v,
        None => return None,
    };
    let total = match a5.checked_add(unprocessed) {
        Some(v) => v,
        None => return None,
    };
    total.checked_div(100)
}

/// The reward a claim pays, or `None` where the computation leaves the `i64` range.
pub fn claimable_reward(vault: &VaultInfo, user: &UserInfo, now: i64) -> (r: Option<i64>)
    ensures
        r == claimable_reward_spec(*vault, *user, now),
{
    let a5 = match accrual(vault, user, now) {
        Some(v) => v,
        None => return None,
    };
    let a6 = match a5.checked_div(100) {
        Some(v) => v,
        None => return None,
    };
    let unprocessed = match to_signed(user.amount_unprocessed) {
        Some(v) => v,
        None => return None,
    };
    a6.checked_add(unprocessed)
}

} // verus!
