//! Request and response types of the engine's call surface, and the
//! per-game history records.
use vstd::prelude::*;

use crate::state::Denom;

verus! {

/// Instantiation carries no parameters; the operator and the settlement
/// currency are taken from the instantiating call itself.
#[derive(Clone, Debug, PartialEq)]
pub struct InstantiateMsg {}

/// One settlement or administrative request.
#[derive(Clone, Debug, PartialEq)]
pub enum ExecuteMsg {
    UpdateOwner { owner: String },
    UpdateEnabled { enabled: bool },
    Flip { level: u64 },
    Rps { level: u64 },
    Dice { level: u64 },
    Roulette { level: u64 },
    Withdraw { amount: u128 },
}

/// One query request.
#[derive(Clone, Debug, PartialEq)]
pub enum QueryMsg {
    Config {},
    RistoryMsg { count: u32 },
    FistoryMsg { count: u32 },
    DistoryMsg { count: u32 },
    BistoryMsg { count: u32 },
}

/// The configuration snapshot returned by a config query, together with
/// the pool's current balance of the settlement currency.
#[derive(Clone, Debug, PartialEq)]
pub struct ConfigResponse {
    pub owner: String,
    pub enabled: bool,
    pub denom: Denom,
    pub treasury_amount: u128,
    pub flip_count: u64,
    pub rps_count: u64,
    pub dice_count: u64,
    pub roulette_count: u64,
}

/// A settled rock-paper-scissors wager. `id` is 1-based: it equals the
/// game's counter value immediately after the settling call incremented it.
#[derive(Debug, PartialEq)]
pub struct RHistory {
    pub id: u64,
    pub address: String,
    pub level: u64,
    pub win: Option<u8>,
    pub bet_amount: u128,
    pub timestamp: u64,
}

impl Clone for RHistory {
    fn clone(&self) -> (res: Self)
        ensures
            res == *self,
    {
        RHistory {
            id: self.id,
            address: self.address.clone(),
            level: self.level,
            win: self.win,
            bet_amount: self.bet_amount,
            timestamp: self.timestamp,
        }
    }
}

#[derive(Debug, PartialEq)]
pub struct RHistoryResponse {
    pub list: Vec<RHistory>,
}

/// A settled coin-flip wager; fields as in `RHistory`.
#[derive(Debug, PartialEq)]
pub struct FHistory {
    pub id: u64,
    pub address: String,
    pub level: u64,
    pub win: Option<u8>,
    pub bet_amount: u128,
    pub timestamp: u64,
}

impl Clone for FHistory {
    fn clone(&self) -> (res: Self)
        ensures
            res == *self,
    {
        FHistory {
            id: self.id,
            address: self.address.clone(),
            level: self.level,
            win: self.win,
            bet_amount: self.bet_amount,
            timestamp: self.timestamp,
        }
    }
}

#[derive(Debug, PartialEq)]
pub struct FHistoryResponse {
    pub list: Vec<FHistory>,
}

/// A settled dice wager; fields as in `RHistory`.
#[derive(Debug, PartialEq)]
pub struct DHistory {
    pub id: u64,
    pub address: String,
    pub level: u64,
    pub win: Option<u8>,
    pub bet_amount: u128,
    pub timestamp: u64,
}

impl Clone for DHistory {
    fn clone(&self) -> (res: Self)
        ensures
            res == *self,
    {
        DHistory {
            id: self.id,
            address: self.address.clone(),
            level: self.level,
            win: self.win,
            bet_amount: self.bet_amount,
            timestamp: self.timestamp,
        }
    }
}

#[derive(Debug, PartialEq)]
pub struct DHistoryResponse {
    pub list: Vec<DHistory>,
}

/// A settled roulette wager; fields as in `RHistory`.
#[derive(Debug, PartialEq)]
pub struct BHistory {
    pub id: u64,
    pub address: String,
    pub level: u64,
    pub win: Option<u8>,
    pub bet_amount: u128,
    pub timestamp: u64,
}

impl Clone for BHistory {
    fn clone(&self) -> (res: Self)
        ensures
            res == *self,
    {
        BHistory {
            id: self.id,
            address: self.address.clone(),
            level: self.level,
            win: self.win,
            bet_amount: self.bet_amount,
            timestamp: self.timestamp,
        }
    }
}

#[derive(Debug, PartialEq)]
pub struct BHistoryResponse {
    pub list: Vec<BHistory>,
}

/// The answer to one query request, one variant per `QueryMsg` variant.
#[derive(Debug, PartialEq)]
pub enum QueryResponse {
    Config(ConfigResponse),
    Rhistory(RHistoryResponse),
    Fhistory(FHistoryResponse),
    Dhistory(DHistoryResponse),
    Bhistory(BHistoryResponse),
}

/// Who a requested transfer pays: the treasury address, or the caller of
/// the settlement (the bettor, or the operator on a withdraw).
#[derive(Clone, Copy, Debug, PartialEq, Eq, Structural)]
pub enum Payee {
    Treasury,
    Caller,
}

/// One fund-transfer request. The engine never moves funds itself; the
/// host executes the requests of a successful call atomically with it.
#[derive(Clone, Copy, Debug, PartialEq, Eq, Structural)]
pub struct TransferRequest {
    pub to: Payee,
    pub amount: u128,
}

/// What a successful call hands back to the host: the transfer requests to
/// perform, the outcome code recorded for the wager (if any), and the
/// derived value reported for the call (digest, move, die or wheel value).
#[derive(Debug, PartialEq)]
pub struct SettleResponse {
    pub messages: Vec<TransferRequest>,
    pub win: Option<u8>,
    pub derived: u64,
}

/// The four context fields fed to the outcome oracle. For a fixed caller,
/// timestamp, selection and counter value the derived digest is
/// bit-for-bit reproducible; this is the engine's sole entropy source.
#[derive(Hash)]
pub struct HashObj {
    pub time: u64,
    pub address: String,
    pub level: u64,
    pub count: u64,
}

/// Migration carries no parameters.
#[derive(Clone, Debug, PartialEq)]
pub struct MigrateMsg {}

} // verus!
