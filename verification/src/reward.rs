//! The reward accrual formula and its arithmetic facts.
//!
//! Reward accrued over a span of blocks is
//! `stake * reward_numerator * elapsed_blocks / reward_denominator`,
//! with truncating integer division. The truncation remainder is
//! intentionally forfeited: the formula never rounds up, which keeps the
//! pool solvent.
use vstd::prelude::*;

use vstd::arithmetic::div_mod::lemma_div_by_multiple;
use vstd::arithmetic::div_mod::lemma_div_is_ordered;
use vstd::arithmetic::div_mod::lemma_fundamental_div_mod;
use vstd::arithmetic::div_mod::lemma_div_of0;
use vstd::arithmetic::div_mod::lemma_div_pos_is_pos;
use vstd::arithmetic::div_mod::lemma_mod_bound;

use crate::Balance;

verus! {

/// The accrual formula as a mathematical function.
pub open spec fn spec_reward(stake: int, numerator: int, denominator: int, elapsed: int) -> int {
    stake * numerator * elapsed / denominator
}

/// Whether the accrual product fits the balance type, so that the formula
/// can be evaluated by machine arithmetic.
pub open spec fn reward_fits(stake: int, numerator: int, elapsed: int) -> bool {
    stake * numerator * elapsed <= u128::MAX
}

/// Evaluate the accrual formula.
pub fn compute_reward(stake: Balance, numerator: u64, denominator: u64, elapsed: u64) -> (r:
    Balance)
    requires
        denominator > 0,
        reward_fits(stake as int, numerator as int, elapsed as int),
    ensures
        r == spec_reward(stake as int, numerator as int, denominator as int, elapsed as int),
{
    if stake == 0 || numerator == 0 || elapsed == 0 {
        proof {
            lemma_reward_product_zero(stake as int, numerator as int, elapsed as int);
            lemma_div_of0(denominator as int);
        }
        0
    } else {
        proof {
            lemma_reward_product_monotone(stake as int, numerator as int, elapsed as int);
        }
        let accrued: u128 = stake * (numerator as u128);
        let accrued_span: u128 = accrued * (elapsed as u128);
        accrued_span / (denominator as u128)
    }
}

/// Decide whether the accrual product fits the balance type.
pub fn check_reward_fits(stake: Balance, numerator: u64, elapsed: u64) -> (r: bool)
    ensures
        r == reward_fits(stake as int, numerator as int, elapsed as int),
{
    if stake == 0 || numerator == 0 || elapsed == 0 {
        proof {
            lemma_reward_product_zero(stake as int, numerator as int, elapsed as int);
        }
        true
    } else {
        match stake.checked_mul(numerator as u128) {
            Some(accrued) => accrued.checked_mul(elapsed as u128).is_some(),
            None => {
                proof {
                    lemma_reward_product_monotone(stake as int, numerator as int, elapsed as int);
                }
                false
            },
        }
    }
}

/// A product with a zero factor is zero.
proof fn lemma_reward_product_zero(stake: int, numerator: int, elapsed: int)
    requires
        stake == 0 || numerator == 0 || elapsed == 0,
    ensures
        stake * numerator * elapsed == 0,
{
    assert(stake * numerator * elapsed == 0) by (nonlinear_arith)
        requires
            stake == 0 || numerator == 0 || elapsed == 0,
    ;
}

/// With at least one block elapsed, the two-factor product is no more than
/// the three-factor product.
proof fn lemma_reward_product_monotone(stake: int, numerator: int, elapsed: int)
    requires
        stake >= 0,
        numerator >= 0,
        elapsed >= 1,
    ensures
        stake * numerator <= stake * numerator * elapsed,
{
    assert(stake * numerator <= stake * numerator * elapsed) by (nonlinear_arith)
        requires
            stake >= 0,
            numerator >= 0,
            elapsed >= 1,
    ;
}

/// Truncating division distributes subadditively over a sum of dividends:
/// the sum of two truncated quotients never exceeds the truncated quotient
/// of the sum.
pub proof fn lemma_div_subadditive(a: int, b: int, d: int)
    requires
        a >= 0,
        b >= 0,
        d > 0,
    ensures
        a / d + b / d <= (a + b) / d,
{
    let qa = a / d;
    let qb = b / d;
    lemma_fundamental_div_mod(a, d);
    lemma_fundamental_div_mod(b, d);
    lemma_mod_bound(a, d);
    lemma_mod_bound(b, d);
    assert(d * qa <= a);
    assert(d * qb <= b);
    assert((qa + qb) * d == d * qa + d * qb) by (nonlinear_arith);
    assert((qa + qb) * d <= a + b);
    lemma_div_by_multiple(qa + qb, d);
    lemma_div_is_ordered((qa + qb) * d, a + b, d);
    assert(((qa + qb) * d) / d == qa + qb);
}

/// Splitting a stake across two accounts never increases the reward the
/// formula grants over the same span: the truncation loss of the parts is
/// at least the truncation loss of the whole.
pub proof fn lemma_reward_subadditive(s1: int, s2: int, numerator: int, denominator: int, elapsed: int)
    requires
        s1 >= 0,
        s2 >= 0,
        numerator >= 0,
        denominator > 0,
        elapsed >= 0,
    ensures
        spec_reward(s1, numerator, denominator, elapsed) + spec_reward(
            s2,
            numerator,
            denominator,
            elapsed,
        ) <= spec_reward(s1 + s2, numerator, denominator, elapsed),
{
    let a = s1 * numerator * elapsed;
    let b = s2 * numerator * elapsed;
    assert(a >= 0) by (nonlinear_arith)
        requires
            s1 >= 0,
            numerator >= 0,
            elapsed >= 0,
            a == s1 * numerator * elapsed,
    ;
    assert(b >= 0) by (nonlinear_arith)
        requires
            s2 >= 0,
            numerator >= 0,
            elapsed >= 0,
            b == s2 * numerator * elapsed,
    ;
    assert((s1 + s2) * numerator * elapsed == a + b) by (nonlinear_arith)
        requires
            a == s1 * numerator * elapsed,
            b == s2 * numerator * elapsed,
    ;
    lemma_div_subadditive(a, b, denominator);
}

/// The formula never yields a negative reward.
pub proof fn lemma_reward_nonneg(stake: int, numerator: int, denominator: int, elapsed: int)
    requires
        stake >= 0,
        numerator >= 0,
        denominator > 0,
        elapsed >= 0,
    ensures
        spec_reward(stake, numerator, denominator, elapsed) >= 0,
{
    assert(stake * numerator * elapsed >= 0) by (nonlinear_arith)
        requires
            stake >= 0,
            numerator >= 0,
            elapsed >= 0,
    ;
    lemma_div_pos_is_pos(stake * numerator * elapsed, denominator);
}

/// A zero stake earns nothing over any span.
pub proof fn lemma_reward_zero_stake(numerator: int, denominator: int, elapsed: int)
    requires
        denominator > 0,
    ensures
        spec_reward(0, numerator, denominator, elapsed) == 0,
{
    assert(0 * numerator * elapsed == 0) by (nonlinear_arith);
    lemma_div_of0(denominator);
}

/// Over an empty span the formula grants nothing.
pub proof fn lemma_reward_zero_elapsed(stake: int, numerator: int, denominator: int)
    requires
        denominator > 0,
    ensures
        spec_reward(stake, numerator, denominator, 0) == 0,
{
    assert(stake * numerator * 0 == 0) by (nonlinear_arith);
    lemma_div_of0(denominator);
}

} // verus!
