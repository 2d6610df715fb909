//! The engine's persistent state: the configuration singleton and the four
//! append-only history ledgers.
//!
//! The host serializes calls and commits or reverts each one atomically, so
//! the state is passed explicitly into every settlement call; there is no
//! hidden singleton.
use vstd::prelude::*;

use crate::msg::{BHistory, DHistory, FHistory, RHistory};

verus! {

/// The settlement currency: either a native coin or a token contract,
/// identified by name or address.
#[derive(Debug, PartialEq)]
pub enum Denom {
    Native(String),
    Cw20(String),
}

impl Clone for Denom {
    fn clone(&self) -> (res: Self)
        ensures
            res == *self,
    {
        match self {
            Denom::Native(s) => Denom::Native(s.clone()),
            Denom::Cw20(s) => Denom::Cw20(s.clone()),
        }
    }
}

/// The configuration singleton: operator identity, settlement currency,
/// the global enabled flag, and one play counter per game.
///
/// Each counter only ever increases by exactly 1, and only as the last
/// step of a successful settlement of that game.
#[derive(Debug, PartialEq)]
pub struct Config {
    pub owner: String,
    pub denom: Denom,
    pub enabled: bool,
    pub flip_count: u64,
    pub rps_count: u64,
    pub dice_count: u64,
    pub roulette_count: u64,
}

impl Clone for Config {
    fn clone(&self) -> (res: Self)
        ensures
            res == *self,
    {
        Config {
            owner: self.owner.clone(),
            denom: self.denom.clone(),
            enabled: self.enabled,
            flip_count: self.flip_count,
            rps_count: self.rps_count,
            dice_count: self.dice_count,
            roulette_count: self.roulette_count,
        }
    }
}

/// The whole persistent state: the configuration and one independent
/// append-only ledger per game, keyed by position (the game's 0-based
/// pre-increment counter value at settlement time).
pub struct State {
    pub config: Config,
    pub fhistory: Vec<FHistory>,
    pub rhistory: Vec<RHistory>,
    pub dhistory: Vec<DHistory>,
    pub bhistory: Vec<BHistory>,
}

impl State {
    /// Well-formedness: each game's counter equals its ledger's length, and
    /// the record stored at position `i` carries the 1-based id `i + 1` —
    /// so ledger keys are gapless from 0 and ids are gapless from 1.
    pub open spec fn wf(self) -> bool {
        &&& self.config.flip_count == self.fhistory@.len()
        &&& self.config.rps_count == self.rhistory@.len()
        &&& self.config.dice_count == self.dhistory@.len()
        &&& self.config.roulette_count == self.bhistory@.len()
        &&& forall|i: int|
            0 <= i < self.fhistory@.len() ==> (#[trigger] self.fhistory@[i]).id == i + 1
        &&& forall|i: int|
            0 <= i < self.rhistory@.len() ==> (#[trigger] self.rhistory@[i]).id == i + 1
        &&& forall|i: int|
            0 <= i < self.dhistory@.len() ==> (#[trigger] self.dhistory@[i]).id == i + 1
        &&& forall|i: int|
            0 <= i < self.bhistory@.len() ==> (#[trigger] self.bhistory@[i]).id == i + 1
    }
}

} // verus!
