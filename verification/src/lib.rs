//! A wagering settlement engine shared by four games (coin flip,
//! rock-paper-scissors, dice, roulette) over one pooled treasury balance.
//!
//! For each wager the engine derives a deterministic outcome from public
//! inputs (block time, caller, selection, a per-game counter), computes the
//! treasury fee and the candidate reward, checks that the pool can cover the
//! payout, and appends an immutable record to the game's history ledger.
//!
//! The engine only decides amounts and requests transfers; the host performs
//! them, serializes calls, and commits or reverts each call atomically.
pub mod constants;
pub mod contract;
pub mod error;
pub mod laws;
pub mod msg;
pub mod payout;
pub mod state;
