//! Safe arithmetic for fees and proportional payouts.
//!
//! All pool amounts are `u64`. Fees are expressed in basis points (1/100 of a
//! percent) against a denominator of 10000. Every executable operation either
//! returns the mathematically exact floored result or reports failure; nothing
//! wraps. The proof functions at the end establish the conservation facts the
//! payout engine rests on: a fee and the matching after-fee remainder never
//! exceed the amount they were taken from, and floored proportional shares of
//! a pool never sum to more than the pool.

use vstd::arithmetic::div_mod::{
    lemma_div_is_ordered, lemma_div_multiples_vanish, lemma_fundamental_div_mod,
};
use vstd::arithmetic::mul::{
    lemma_mul_inequality, lemma_mul_is_distributive_add, lemma_mul_is_distributive_sub,
    lemma_mul_nonnegative,
};
use vstd::prelude::*;

verus! {

/// Basis-point denominator: 10000 bps == 100%.
pub const BPS_DENOMINATOR: u64 = 10_000;

/// The fee taken from `amount` at `bps` basis points, rounded down.
pub open spec fn fee_of(amount: int, bps: int) -> int {
    amount * bps / (BPS_DENOMINATOR as int)
}

/// What remains of `amount` after a fee of `bps` basis points, rounded down.
pub open spec fn after_fee_of(amount: int, bps: int) -> int {
    amount * (BPS_DENOMINATOR - bps) / (BPS_DENOMINATOR as int)
}

/// The floored proportional share of `pool` owed to a stake of `stake`
/// within a winning side holding `winning` in total.
pub open spec fn share_of(stake: int, pool: int, winning: int) -> int {
    stake * pool / winning
}

/// The exact fee `floor(amount * fee_bps / 10000)`, computed through a
/// widened (128-bit) intermediate so the multiply itself can never
/// overflow. `None` only when the fee does not fit back in a `u64`, which
/// needs a rate above 100%.
pub fn calculate_fee(amount: u64, fee_bps: u64) -> (r: Option<u64>)
    ensures
        r is Some <==> fee_of(amount as int, fee_bps as int) <= u64::MAX,
        r matches Some(f) ==> f == fee_of(amount as int, fee_bps as int),
{
    proof {
        vstd::arithmetic::mul::lemma_mul_upper_bound(
            amount as int,
            u64::MAX as int,
            fee_bps as int,
            u64::MAX as int,
        );
        vstd::arithmetic::mul::lemma_mul_nonnegative(amount as int, fee_bps as int);
        vstd::arithmetic::div_mod::lemma_div_pos_is_pos(
            amount * fee_bps,
            BPS_DENOMINATOR as int,
        );
    }
    let product: u128 = (amount as u128) * (fee_bps as u128);
    let fee: u128 = product / (BPS_DENOMINATOR as u128);
    if fee > u64::MAX as u128 {
        None
    } else {
        Some(fee as u64)
    }
}

/// What remains of `amount` after a fee of `fee_bps` basis points:
/// exactly `floor(amount * (10000 - fee_bps) / 10000)`, computed through a
/// widened (128-bit) intermediate. `None` only when `fee_bps` exceeds
/// 100%; the remainder never exceeds `amount`, so it always fits.
pub fn calculate_amount_after_fee(amount: u64, fee_bps: u64) -> (r: Option<u64>)
    ensures
        r is Some <==> fee_bps <= BPS_DENOMINATOR,
        r matches Some(f) ==> f == after_fee_of(amount as int, fee_bps as int),
{
    let fee_multiplier = match BPS_DENOMINATOR.checked_sub(fee_bps) {
        Some(m) => m,
        None => {
            return None;
        },
    };
    proof {
        vstd::arithmetic::mul::lemma_mul_upper_bound(
            amount as int,
            u64::MAX as int,
            fee_multiplier as int,
            BPS_DENOMINATOR as int,
        );
        lemma_fee_split(amount as int, fee_bps as int);
    }
    let product: u128 = (amount as u128) * (fee_multiplier as u128);
    Some((product / (BPS_DENOMINATOR as u128)) as u64)
}

/// The proportional payout `floor(bet_amount * total_pool / winning_pool)`,
/// computed through a 128-bit intermediate. `None` when `winning_pool` is
/// zero or the result does not fit back in a `u64`.
pub fn calculate_proportional_payout(bet_amount: u64, total_pool: u64, winning_pool: u64) -> (r:
    Option<u64>)
    ensures
        r is Some <==> winning_pool != 0 && share_of(
            bet_amount as int,
            total_pool as int,
            winning_pool as int,
        ) <= u64::MAX,
        r matches Some(p) ==> p == share_of(bet_amount as int, total_pool as int, winning_pool as int),
{
    if winning_pool == 0 {
        return None;
    }
    proof {
        vstd::arithmetic::mul::lemma_mul_upper_bound(
            bet_amount as int,
            u64::MAX as int,
            total_pool as int,
            u64::MAX as int,
        );
    }
    let product: u128 = (bet_amount as u128) * (total_pool as u128);
    let payout: u128 = product / (winning_pool as u128);
    if payout > u64::MAX as u128 {
        None
    } else {
        Some(payout as u64)
    }
}

/// Floored division is superadditive over a split numerator:
/// `x / d + y / d <= (x + y) / d` for nonnegative `x`, `y` and positive `d`.
pub proof fn lemma_sum_div_le(x: int, y: int, d: int)
    requires
        0 <= x,
        0 <= y,
        0 < d,
    ensures
        x / d + y / d <= (x + y) / d,
{
    lemma_fundamental_div_mod(x, d);
    lemma_fundamental_div_mod(y, d);
    let q = x / d + y / d;
    assert(d * q == d * (x / d) + d * (y / d)) by {
        lemma_mul_is_distributive_add(d, x / d, y / d);
    }
    assert(d * q <= x + y);
    lemma_div_multiples_vanish(q, d);
    lemma_div_is_ordered(d * q, x + y, d);
}

/// A fee and the matching after-fee remainder are nonnegative and never
/// exceed the amount they were taken from.
pub proof fn lemma_fee_split(amount: int, bps: int)
    requires
        0 <= amount,
        0 <= bps <= BPS_DENOMINATOR,
    ensures
        0 <= fee_of(amount, bps),
        0 <= after_fee_of(amount, bps),
        fee_of(amount, bps) + after_fee_of(amount, bps) <= amount,
{
    let d = BPS_DENOMINATOR as int;
    lemma_mul_nonnegative(amount, bps);
    lemma_mul_nonnegative(amount, d - bps);
    vstd::arithmetic::div_mod::lemma_div_pos_is_pos(amount * bps, d);
    vstd::arithmetic::div_mod::lemma_div_pos_is_pos(amount * (d - bps), d);
    lemma_sum_div_le(amount * bps, amount * (d - bps), d);
    assert(amount * bps + amount * (d - bps) == amount * d) by {
        lemma_mul_is_distributive_sub(amount, d, bps);
    }
    assert(amount * d / d == amount) by {
        lemma_div_multiples_vanish(amount, d);
        vstd::arithmetic::mul::lemma_mul_is_commutative(amount, d);
    }
}

/// One floored proportional share is between zero and the pool being shared,
/// provided the stake does not exceed the winning side's total.
pub proof fn lemma_share_within_pool(stake: int, pool: int, winning: int)
    requires
        0 <= stake <= winning,
        0 <= pool,
        0 < winning,
    ensures
        0 <= share_of(stake, pool, winning) <= pool,
{
    lemma_mul_nonnegative(stake, pool);
    vstd::arithmetic::div_mod::lemma_div_pos_is_pos(stake * pool, winning);
    lemma_mul_inequality(stake, winning, pool);
    assert(winning * pool / winning == pool) by {
        lemma_div_multiples_vanish(pool, winning);
    }
    lemma_div_is_ordered(stake * pool, winning * pool, winning);
}

/// Two stakes paid separately never receive more than the same stakes paid
/// as one: floored shares are superadditive.
pub proof fn lemma_share_superadditive(s1: int, s2: int, pool: int, winning: int)
    requires
        0 <= s1,
        0 <= s2,
        0 <= pool,
        0 < winning,
    ensures
        share_of(s1, pool, winning) + share_of(s2, pool, winning) <= share_of(
            s1 + s2,
            pool,
            winning,
        ),
{
    lemma_mul_nonnegative(s1, pool);
    lemma_mul_nonnegative(s2, pool);
    lemma_sum_div_le(s1 * pool, s2 * pool, winning);
    assert(s1 * pool + s2 * pool == (s1 + s2) * pool) by {
        vstd::arithmetic::mul::lemma_mul_is_distributive_add_other_way(pool, s1, s2);
    }
}

/// The sum of a sequence of stakes.
pub open spec fn sum_seq(s: Seq<int>) -> int
    decreases s.len(),
{
    if s.len() == 0 {
        0
    } else {
        s[0] + sum_seq(s.drop_first())
    }
}

/// The sum of the floored proportional shares of a sequence of stakes.
pub open spec fn sum_shares(s: Seq<int>, pool: int, winning: int) -> int
    decreases s.len(),
{
    if s.len() == 0 {
        0
    } else {
        share_of(s[0], pool, winning) + sum_shares(s.drop_first(), pool, winning)
    }
}

/// A sum of nonnegative stakes is nonnegative.
pub proof fn lemma_sum_seq_nonneg(s: Seq<int>)
    requires
        forall|i: int| 0 <= i < s.len() ==> s[i] >= 0,
    ensures
        sum_seq(s) >= 0,
    decreases s.len(),
{
    if s.len() > 0 {
        lemma_sum_seq_nonneg(s.drop_first());
    }
}

/// Paying each stake its floored share never pays more in total than one
/// share of the summed stakes.
pub proof fn lemma_sum_shares_le_share_of_sum(s: Seq<int>, pool: int, winning: int)
    requires
        forall|i: int| 0 <= i < s.len() ==> s[i] >= 0,
        0 <= pool,
        0 < winning,
    ensures
        sum_shares(s, pool, winning) <= share_of(sum_seq(s), pool, winning),
    decreases s.len(),
{
    if s.len() == 0 {
        assert(share_of(0, pool, winning) == 0) by {
            vstd::arithmetic::div_mod::lemma_div_of0(winning);
        }
    } else {
        let rest = s.drop_first();
        lemma_sum_shares_le_share_of_sum(rest, pool, winning);
        lemma_sum_seq_nonneg(rest);
        lemma_share_superadditive(s[0], sum_seq(rest), pool, winning);
    }
}

/// Conservation of proportional payouts: when the winning stakes sum to at
/// most the winning pool, the floored shares they are paid sum to at most
/// the pool being distributed. No claim sequence creates value.
pub proof fn lemma_shares_sum_bounded(stakes: Seq<int>, pool: int, winning: int)
    requires
        forall|i: int| 0 <= i < stakes.len() ==> stakes[i] >= 0,
        sum_seq(stakes) <= winning,
        0 <= pool,
        0 < winning,
    ensures
        sum_shares(stakes, pool, winning) <= pool,
{
    lemma_sum_shares_le_share_of_sum(stakes, pool, winning);
    lemma_sum_seq_nonneg(stakes);
    lemma_share_within_pool(sum_seq(stakes), pool, winning);
}

} // verus!
