//! Pure payout arithmetic: the creator tip and the proportional reward.
//!
//! Both are exact integer floor divisions computed in a width wide enough
//! that the intermediate product cannot overflow. The calculator never
//! mutates state; resolution and claims apply the amounts it returns.

use vstd::prelude::*;
use crate::errors::CypherCastError;
use vstd::arithmetic::div_mod::{
    lemma_div_is_ordered, lemma_div_multiples_vanish, lemma_div_pos_is_pos,
    lemma_fundamental_div_mod, lemma_mod_division_less_than_divisor, lemma_multiply_divide_le,
};
use vstd::arithmetic::mul::{lemma_mul_inequality, lemma_mul_is_distributive_add};

verus! {

/// Tip rate denominator: rates are in basis points.
pub const BPS_DENOMINATOR: u64 = 10_000;

/// Creator tip taken from a deposited pool at a given rate:
/// `floor(deposited * tip_bps / 10_000)`.
pub open spec fn tip_of(deposited: u64, tip_bps: u16) -> int {
    (deposited * tip_bps) / (BPS_DENOMINATOR as int)
}

/// Proportional reward of one winning stake out of the distributable pool:
/// `floor(distributable * stake / winner_total)`, and 0 from an empty pool.
pub open spec fn reward_of(distributable: u64, stake: u64, winner_total: u64) -> int {
    if distributable == 0 {
        0
    } else {
        (distributable * stake) / (winner_total as int)
    }
}

/// A tip at a rate of at most 10_000 basis points never exceeds the pool
/// it is taken from.
pub proof fn lemma_tip_le_deposited(deposited: u64, tip_bps: u16)
    requires
        tip_bps <= 10_000,
    ensures
        0 <= tip_of(deposited, tip_bps) <= deposited,
{
    lemma_mul_inequality(tip_bps as int, BPS_DENOMINATOR as int, deposited as int);
    lemma_multiply_divide_le(
        deposited * tip_bps,
        BPS_DENOMINATOR as int,
        deposited as int,
    );
    lemma_div_is_ordered(0, deposited * tip_bps, BPS_DENOMINATOR as int);
}

/// A reward for a stake no larger than the whole winning stake never
/// exceeds the distributable pool.
pub proof fn lemma_reward_le_distributable(distributable: u64, stake: u64, winner_total: u64)
    requires
        winner_total > 0,
        stake <= winner_total,
    ensures
        0 <= reward_of(distributable, stake, winner_total) <= distributable,
{
    if distributable != 0 {
        lemma_mul_inequality(stake as int, winner_total as int, distributable as int);
        vstd::arithmetic::mul::lemma_mul_is_commutative(stake as int, distributable as int);
        vstd::arithmetic::mul::lemma_mul_is_commutative(winner_total as int, distributable as int);
        lemma_multiply_divide_le(
            distributable * stake,
            winner_total as int,
            distributable as int,
        );
        lemma_div_is_ordered(0, distributable * stake, winner_total as int);
    }
}

/// Floor division distributes over a sum with a loss of at most the two
/// remainders: the sum of two floored quotients never exceeds the floored
/// quotient of the sum.
pub proof fn lemma_floor_div_sum(a: int, b: int, d: int)
    requires
        0 <= a,
        0 <= b,
        0 < d,
    ensures
        a / d + b / d <= (a + b) / d,
{
    let qa = a / d;
    let qb = b / d;
    lemma_fundamental_div_mod(a, d);
    lemma_fundamental_div_mod(b, d);
    lemma_mod_division_less_than_divisor(a, d);
    lemma_mod_division_less_than_divisor(b, d);
    lemma_div_pos_is_pos(a, d);
    lemma_div_pos_is_pos(b, d);
    lemma_mul_is_distributive_add(d, qa, qb);
    assert(d * (qa + qb) <= a + b);
    lemma_div_is_ordered(d * (qa + qb), a + b, d);
    lemma_div_multiples_vanish(qa + qb, d);
}

/// Compute the creator tip for a deposited pool at a rate in basis points.
pub fn compute_tip(deposited: u64, tip_bps: u16) -> (r: u64)
    requires
        tip_bps <= 10_000,
    ensures
        r == tip_of(deposited, tip_bps),
        r <= deposited,
{
    proof {
        lemma_tip_le_deposited(deposited, tip_bps);
    }
    let wide: u128 = (deposited as u128) * (tip_bps as u128);
    let q: u128 = wide / (BPS_DENOMINATOR as u128);
    q as u64
}

/// Compute the proportional reward of one stake, aborting with an overflow
/// error in the case that the exact quotient does not fit the stake width.
pub fn compute_reward(distributable: u64, stake: u64, winner_total: u64) -> (r: Result<
    u64,
    CypherCastError,
>)
    requires
        winner_total > 0,
    ensures
        reward_of(distributable, stake, winner_total) <= u64::MAX ==> r == Ok::<u64, CypherCastError>(
            reward_of(distributable, stake, winner_total) as u64,
        ),
        reward_of(distributable, stake, winner_total) > u64::MAX ==> r == Err::<u64, CypherCastError>(
            CypherCastError::Overflow,
        ),
{
    if distributable == 0 {
        return Ok(0);
    }
    proof {
        lemma_mul_inequality(distributable as int, u64::MAX as int, stake as int);
        lemma_mul_inequality(stake as int, u64::MAX as int, u64::MAX as int);
        vstd::arithmetic::mul::lemma_mul_is_commutative(distributable as int, stake as int);
        vstd::arithmetic::mul::lemma_mul_is_commutative(u64::MAX as int, stake as int);
    }
    let wide: u128 = (distributable as u128) * (stake as u128);
    let q: u128 = wide / (winner_total as u128);
    proof {
        lemma_div_is_ordered(0, distributable * stake, winner_total as int);
    }
    if q > u64::MAX as u128 {
        Err(CypherCastError::Overflow)
    } else {
        Ok(q as u64)
    }
}

} // verus!
