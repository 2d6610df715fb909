//! The payout calculator: treasury fee and candidate reward, as fixed-point
//! fractions of the wager with truncating integer division.
use vstd::prelude::*;

use crate::constants;

verus! {

/// The machine limit under which the payout arithmetic cannot overflow:
/// the wager times the largest rate numerator must fit in the amount type.
pub open spec fn amount_in_range(amount: u128) -> bool {
    amount * constants::REWARD_RATE <= u128::MAX
}

/// The treasury fee for a wager of `amount`. It does not depend on the
/// outcome: it is charged identically on a win, a tie and a loss.
pub open spec fn spec_fee(amount: u128) -> int {
    amount * constants::OWNER_RATE / (constants::MULTIPLY as int)
}

/// The candidate reward for a winning wager of `amount`.
pub open spec fn spec_reward(amount: u128) -> int {
    amount * constants::REWARD_RATE / (constants::MULTIPLY as int) - spec_fee(amount)
}

/// The reward returned on a tie: the wager itself minus the fee, with no
/// multiplier applied.
pub open spec fn spec_tie_reward(amount: u128) -> int {
    amount - spec_fee(amount)
}

/// The fee never exceeds the wager or the multiplied wager, so neither
/// reward form can go negative and every payout value fits in the amount
/// type.
pub proof fn lemma_payout_bounds(amount: u128)
    requires
        amount_in_range(amount),
    ensures
        0 <= amount * constants::OWNER_RATE <= amount * constants::REWARD_RATE,
        0 <= spec_fee(amount) <= amount,
        0 <= spec_tie_reward(amount) <= amount,
        0 <= spec_reward(amount) <= u128::MAX,
        spec_fee(amount) <= amount * constants::REWARD_RATE / (constants::MULTIPLY as int),
{
    let a = amount as int;
    let d = constants::MULTIPLY as int;
    let nf = a * constants::OWNER_RATE;
    let nr = a * constants::REWARD_RATE;
    assert(0 <= nf && nf <= nr && nf <= a * d) by (nonlinear_arith)
        requires
            a >= 0,
            nf == a * constants::OWNER_RATE,
            nr == a * constants::REWARD_RATE,
            d == constants::MULTIPLY,
    ;
    vstd::arithmetic::div_mod::lemma_div_pos_is_pos(nf, d);
    vstd::arithmetic::div_mod::lemma_div_is_ordered(nf, nr, d);
    vstd::arithmetic::div_mod::lemma_div_is_ordered(nf, a * d, d);
    vstd::arithmetic::div_mod::lemma_div_multiples_vanish(a, d);
    vstd::arithmetic::div_mod::lemma_div_nonincreasing(nr, d);
}

/// Computes the treasury fee `amount * OWNER_RATE / MULTIPLY`.
pub fn compute_fee(amount: u128) -> (r: u128)
    requires
        amount_in_range(amount),
    ensures
        r == spec_fee(amount),
{
    proof {
        lemma_payout_bounds(amount);
    }
    amount * constants::OWNER_RATE / constants::MULTIPLY
}

/// Computes the candidate win reward
/// `amount * REWARD_RATE / MULTIPLY - fee`.
pub fn compute_reward(amount: u128) -> (r: u128)
    requires
        amount_in_range(amount),
    ensures
        r == spec_reward(amount),
{
    proof {
        lemma_payout_bounds(amount);
    }
    let fee = compute_fee(amount);
    amount * constants::REWARD_RATE / constants::MULTIPLY - fee
}

/// Computes the tie reward `amount - fee`.
pub fn compute_tie_reward(amount: u128) -> (r: u128)
    requires
        amount_in_range(amount),
    ensures
        r == spec_tie_reward(amount),
{
    proof {
        lemma_payout_bounds(amount);
    }
    let fee = compute_fee(amount);
    amount - fee
}

} // verus!
