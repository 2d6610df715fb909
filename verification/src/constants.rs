//! Global rate constants shared by all games.
//!
//! The fee and the reward are fixed-point fractions of the wager: each rate
//! is a numerator over the shared denominator `MULTIPLY`.
use vstd::prelude::*;

verus! {

/// Numerator of the treasury fee rate: the fee is `amount * OWNER_RATE / MULTIPLY`.
pub const OWNER_RATE: u128 = 5;

/// Numerator of the reward multiplier: a winning wager's candidate reward is
/// `amount * REWARD_RATE / MULTIPLY` minus the fee.
pub const REWARD_RATE: u128 = 200;

/// Shared fixed-point denominator for `OWNER_RATE` and `REWARD_RATE`.
pub const MULTIPLY: u128 = 100;

} // verus!
