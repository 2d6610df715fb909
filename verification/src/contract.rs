//! The settlement engine: outcome derivation, per-game win rules, solvency
//! gating, transfer-request assembly and the ledger append, plus the query
//! and administrative surface.
use vstd::prelude::*;

use crate::error::ContractError;
use crate::msg::{
    BHistory, BHistoryResponse, ConfigResponse, DHistory, DHistoryResponse, ExecuteMsg, FHistory,
    FHistoryResponse, HashObj, Payee, QueryMsg, QueryResponse, RHistory, RHistoryResponse,
    SettleResponse, TransferRequest,
};
use crate::payout::{
    amount_in_range, compute_fee, compute_reward, compute_tie_reward, lemma_payout_bounds,
    spec_fee, spec_reward, spec_tie_reward,
};
use crate::state::{Config, Denom, State};

verus! {

/// The digest that the outcome oracle derives from one bet context. It is a
/// pure function of the four public context fields — which makes every
/// outcome reproducible, and also predictable to anyone who can guess the
/// block timestamp and the counter (a documented design weakness).
pub uninterp spec fn digest_of(time: u64, address: Seq<char>, level: u64, count: u64) -> u64;

/// Relies on std's `DefaultHasher`: hashers made by `DefaultHasher::new`
/// are documented to start from the same state, so the finished digest
/// depends on the hashed `HashObj` fields alone.
#[verifier::external_body]
pub fn calculate_hash(t: &HashObj) -> (r: u64)
    ensures
        r == digest_of(t.time, t.address@, t.level, t.count),
{
    let mut s = std::collections::hash_map::DefaultHasher::new();
    std::hash::Hash::hash(t, &mut s);
    std::hash::Hasher::finish(&s)
}

/// The coin-flip outcome: win (0) exactly when the digest is even; the
/// selection does not enter the rule.
pub open spec fn spec_flip_win(h: u64) -> u8 {
    if h % 2 == 0 {
        0u8
    } else {
        1u8
    }
}

/// The beats-relation of rock-paper-scissors as the engine declares it —
/// move 0 beats 1, 1 beats 2, 2 beats 0 — applied to (player, opponent):
/// `Some(0)` is a player win, `Some(2)` a loss, `Some(1)` a tie (equal
/// moves, and any pair outside the three moves).
pub open spec fn spec_rps_winner(p1: u64, p2: u64) -> Option<u8> {
    if p1 == 0 && p2 == 1 {
        Some(0u8)
    } else if p1 == 2 && p2 == 0 {
        Some(0u8)
    } else if p1 == 1 && p2 == 2 {
        Some(0u8)
    } else if p1 == 0 && p2 == 2 {
        Some(2u8)
    } else if p1 == 2 && p2 == 1 {
        Some(2u8)
    } else if p1 == 1 && p2 == 0 {
        Some(2u8)
    } else {
        Some(1u8)
    }
}

/// The dice outcome: win (0) exactly when the parity of the derived die
/// value matches the selected parity.
pub open spec fn spec_dice_win(die: u64, level: u64) -> u8 {
    if die % 2 == level {
        0u8
    } else {
        1u8
    }
}

/// The red wheel values of the roulette layout.
pub open spec fn spec_is_red(h: u64) -> bool {
    h == 1 || h == 3 || h == 5 || h == 7 || h == 9 || h == 12 || h == 14 || h == 16 || h == 18
        || h == 19 || h == 21 || h == 23 || h == 25 || h == 27 || h == 30 || h == 32 || h == 34
        || h == 36
}

/// The black wheel values of the roulette layout.
pub open spec fn spec_is_black(h: u64) -> bool {
    h == 2 || h == 4 || h == 6 || h == 8 || h == 10 || h == 11 || h == 13 || h == 15 || h == 17
        || h == 20 || h == 22 || h == 24 || h == 26 || h == 28 || h == 29 || h == 31 || h == 33
        || h == 35
}

/// Whether a roulette selection wins against the derived wheel value
/// `h` (already reduced modulo 37). Codes 0..=36 are exact-number bets;
/// 37..=39 are the residue-class columns, 40..=42 the dozens, 43/44 the
/// low/high halves, 45/46 parity, 47/48 the colors.
///
/// The column checks subtract from the wheel value with wraparound, so by
/// the literal rule value 0 also satisfies the first column (code 37) and
/// value 1 also satisfies the second (code 38); and by the literal parity
/// rule value 0 counts as even. These quirks are part of the observable
/// contract and are kept, not corrected.
pub open spec fn spec_roulette_wins(level: u64, h: u64) -> bool {
    if level == 37 {
        h == 0 || h % 3 == 1
    } else if level == 38 {
        h == 1 || h % 3 == 2
    } else if level == 39 {
        h % 3 == 0
    } else if level == 40 {
        0 < h <= 12
    } else if level == 41 {
        12 < h <= 24
    } else if level == 42 {
        24 < h <= 36
    } else if level == 43 {
        1 <= h <= 18
    } else if level == 44 {
        19 <= h <= 36
    } else if level == 45 {
        h % 2 == 0
    } else if level == 46 {
        h % 2 == 1
    } else if level == 47 {
        spec_is_red(h)
    } else if level == 48 {
        spec_is_black(h)
    } else {
        level == h
    }
}

/// The expected fee transfer: the treasury is paid the fee on every
/// settled wager, win, tie or lose alike.
pub open spec fn fee_msg(amount: u128) -> TransferRequest {
    TransferRequest { to: Payee::Treasury, amount: spec_fee(amount) as u128 }
}

/// The expected reward transfer on a win.
pub open spec fn win_msg(amount: u128) -> TransferRequest {
    TransferRequest { to: Payee::Caller, amount: spec_reward(amount) as u128 }
}

/// The expected reward transfer on a tie: the wager minus the fee.
pub open spec fn tie_msg(amount: u128) -> TransferRequest {
    TransferRequest { to: Payee::Caller, amount: spec_tie_reward(amount) as u128 }
}

/// The transfer requests of a settled wager whose only non-lose outcome is
/// a win with code 0: the fee always, and the win reward on a win.
pub open spec fn spec_win_lose_msgs(win: u8, amount: u128) -> Seq<TransferRequest> {
    if win == 0 {
        seq![fee_msg(amount), win_msg(amount)]
    } else {
        seq![fee_msg(amount)]
    }
}

/// Everything a coin-flip settlement does, as a relation between the state
/// before the call, the state after it, the call's inputs, and its result.
///
/// When disabled or on a selection outside {0, 1} the call fails without
/// touching state. Otherwise the outcome is the digest's parity, except
/// that a pool too small to cover the win reward silently downgrades the
/// outcome to a loss (the fee is still charged); the record is appended at
/// the pre-increment counter with the 1-based id, and the counter steps.
pub open spec fn flip_post(
    pre: State,
    post: State,
    time: u64,
    sender: String,
    level: u64,
    amount: u128,
    pool: u128,
    r: Result<SettleResponse, ContractError>,
) -> bool {
    if !pre.config.enabled {
        r == Err::<SettleResponse, ContractError>(ContractError::ContractDisabled) && post == pre
    } else if !(level == 0 || level == 1) {
        r == Err::<SettleResponse, ContractError>(ContractError::InvalidBet) && post == pre
    } else {
        let h = digest_of(time, sender@, level, pre.config.flip_count);
        let win = if pool < spec_reward(amount) {
            1u8
        } else {
            spec_flip_win(h)
        };
        let rec = (FHistory {
            id: (pre.config.flip_count + 1) as u64,
            address: sender,
            level,
            win: Some(win),
            bet_amount: amount,
            timestamp: time,
        });
        &&& (r matches Ok(resp) && resp.messages@ == spec_win_lose_msgs(win, amount)
            && resp.win == Some(win) && resp.derived == h)
        &&& post.config == (Config {
            owner: pre.config.owner,
            denom: pre.config.denom,
            enabled: pre.config.enabled,
            flip_count: (pre.config.flip_count + 1) as u64,
            rps_count: pre.config.rps_count,
            dice_count: pre.config.dice_count,
            roulette_count: pre.config.roulette_count,
        })
        &&& post.fhistory@ == pre.fhistory@.push(rec)
        &&& post.rhistory == pre.rhistory
        &&& post.dhistory == pre.dhistory
        &&& post.bhistory == pre.bhistory
    }
}

/// The transfer requests of a settled rock-paper-scissors wager: the fee
/// always; the win reward on a win (`Some(0)`), the tie reward on a tie
/// (`Some(1)`), nothing more on a loss (`Some(2)`).
pub open spec fn spec_rps_msgs(win: Option<u8>, amount: u128) -> Seq<TransferRequest> {
    if win == Some(0u8) {
        seq![fee_msg(amount), win_msg(amount)]
    } else if win == Some(2u8) {
        seq![fee_msg(amount)]
    } else {
        seq![fee_msg(amount), tie_msg(amount)]
    }
}

/// Everything a rock-paper-scissors settlement does. The opponent move is
/// the digest modulo 3; the beats-relation decides win, loss or tie; a
/// pool too small to cover the win reward downgrades the outcome to a loss
/// — even a tie — and the fee is still charged.
pub open spec fn rps_post(
    pre: State,
    post: State,
    time: u64,
    sender: String,
    level: u64,
    amount: u128,
    pool: u128,
    r: Result<SettleResponse, ContractError>,
) -> bool {
    if !pre.config.enabled {
        r == Err::<SettleResponse, ContractError>(ContractError::ContractDisabled) && post == pre
    } else if !(level == 0 || level == 1 || level == 2) {
        r == Err::<SettleResponse, ContractError>(ContractError::InvalidBet) && post == pre
    } else {
        let h = digest_of(time, sender@, level, pre.config.rps_count);
        let cpu = (h % 3) as u64;
        let win = if pool < spec_reward(amount) {
            Some(2u8)
        } else {
            spec_rps_winner(level, cpu)
        };
        let rec = (RHistory {
            id: (pre.config.rps_count + 1) as u64,
            address: sender,
            level,
            win,
            bet_amount: amount,
            timestamp: time,
        });
        &&& (r matches Ok(resp) && resp.messages@ == spec_rps_msgs(win, amount)
            && resp.win == win && resp.derived == cpu)
        &&& post.config == (Config {
            owner: pre.config.owner,
            denom: pre.config.denom,
            enabled: pre.config.enabled,
            flip_count: pre.config.flip_count,
            rps_count: (pre.config.rps_count + 1) as u64,
            dice_count: pre.config.dice_count,
            roulette_count: pre.config.roulette_count,
        })
        &&& post.rhistory@ == pre.rhistory@.push(rec)
        &&& post.fhistory == pre.fhistory
        &&& post.dhistory == pre.dhistory
        &&& post.bhistory == pre.bhistory
    }
}

/// Everything a dice settlement does. The die value is the digest modulo
/// 6; the wager wins when the die's parity matches the selection; a pool
/// too small to cover the win reward downgrades the outcome to a loss and
/// the reported die value is stepped by one.
pub open spec fn dice_post(
    pre: State,
    post: State,
    time: u64,
    sender: String,
    level: u64,
    amount: u128,
    pool: u128,
    r: Result<SettleResponse, ContractError>,
) -> bool {
    if !pre.config.enabled {
        r == Err::<SettleResponse, ContractError>(ContractError::ContractDisabled) && post == pre
    } else if !(level == 0 || level == 1) {
        r == Err::<SettleResponse, ContractError>(ContractError::InvalidBet) && post == pre
    } else {
        let die = (digest_of(time, sender@, level, pre.config.dice_count) % 6) as u64;
        let short = pool < spec_reward(amount);
        let win = if short {
            1u8
        } else {
            spec_dice_win(die, level)
        };
        let derived = if short {
            (die + 1) as u64
        } else {
            die
        };
        let rec = (DHistory {
            id: (pre.config.dice_count + 1) as u64,
            address: sender,
            level,
            win: Some(win),
            bet_amount: amount,
            timestamp: time,
        });
        &&& (r matches Ok(resp) && resp.messages@ == spec_win_lose_msgs(win, amount)
            && resp.win == Some(win) && resp.derived == derived)
        &&& post.config == (Config {
            owner: pre.config.owner,
            denom: pre.config.denom,
            enabled: pre.config.enabled,
            flip_count: pre.config.flip_count,
            rps_count: pre.config.rps_count,
            dice_count: (pre.config.dice_count + 1) as u64,
            roulette_count: pre.config.roulette_count,
        })
        &&& post.dhistory@ == pre.dhistory@.push(rec)
        &&& post.fhistory == pre.fhistory
        &&& post.rhistory == pre.rhistory
        &&& post.bhistory == pre.bhistory
    }
}

/// Everything a roulette settlement does. The wheel value is the digest
/// modulo 37. Unlike the other games, a pool too small to cover the
/// candidate reward rejects the whole call with `InsufficientFunds` before
/// any transfer is requested or state changed — it never downgrades.
pub open spec fn roulette_post(
    pre: State,
    post: State,
    time: u64,
    sender: String,
    level: u64,
    amount: u128,
    pool: u128,
    r: Result<SettleResponse, ContractError>,
) -> bool {
    if !pre.config.enabled {
        r == Err::<SettleResponse, ContractError>(ContractError::ContractDisabled) && post == pre
    } else if level > 48 {
        r == Err::<SettleResponse, ContractError>(ContractError::InvalidBet) && post == pre
    } else if pool < spec_reward(amount) {
        r == Err::<SettleResponse, ContractError>(ContractError::InsufficientFunds) && post == pre
    } else {
        let h = (digest_of(time, sender@, level, pre.config.roulette_count) % 37) as u64;
        let win = if spec_roulette_wins(level, h) {
            0u8
        } else {
            1u8
        };
        let rec = (BHistory {
            id: (pre.config.roulette_count + 1) as u64,
            address: sender,
            level,
            win: Some(win),
            bet_amount: amount,
            timestamp: time,
        });
        &&& (r matches Ok(resp) && resp.messages@ == spec_win_lose_msgs(win, amount)
            && resp.win == Some(win) && resp.derived == h)
        &&& post.config == (Config {
            owner: pre.config.owner,
            denom: pre.config.denom,
            enabled: pre.config.enabled,
            flip_count: pre.config.flip_count,
            rps_count: pre.config.rps_count,
            dice_count: pre.config.dice_count,
            roulette_count: (pre.config.roulette_count + 1) as u64,
        })
        &&& post.bhistory@ == pre.bhistory@.push(rec)
        &&& post.fhistory == pre.fhistory
        &&& post.rhistory == pre.rhistory
        &&& post.dhistory == pre.dhistory
    }
}

/// Creates the initial state: the instantiating caller becomes the
/// operator, the engine starts enabled, every counter at 0 and every
/// ledger empty.
pub fn instantiate(owner: String, denom: Denom) -> (s: State)
    ensures
        s.wf(),
        s.config.owner == owner,
        s.config.denom == denom,
        s.config.enabled,
        s.config.flip_count == 0,
        s.config.rps_count == 0,
        s.config.dice_count == 0,
        s.config.roulette_count == 0,
        s.fhistory@.len() == 0,
        s.rhistory@.len() == 0,
        s.dhistory@.len() == 0,
        s.bhistory@.len() == 0,
{
    State {
        config: Config {
            owner,
            denom,
            enabled: true,
            flip_count: 0,
            rps_count: 0,
            dice_count: 0,
            roulette_count: 0,
        },
        fhistory: Vec::new(),
        rhistory: Vec::new(),
        dhistory: Vec::new(),
        bhistory: Vec::new(),
    }
}

/// Settles one coin-flip wager of `amount` against the pool balance
/// `pool_balance`, as `flip_post` states.
pub fn execute_flip(
    state: &mut State,
    time: u64,
    sender: String,
    level: u64,
    amount: u128,
    pool_balance: u128,
) -> (r: Result<SettleResponse, ContractError>)
    requires
        old(state).wf(),
        amount_in_range(amount),
        old(state).config.flip_count < u64::MAX,
    ensures
        final(state).wf(),
        flip_post(*old(state), *final(state), time, sender, level, amount, pool_balance, r),
{
    if !state.config.enabled {
        return Err(ContractError::ContractDisabled);
    }
    if level != 0 && level != 1 {
        return Err(ContractError::InvalidBet);
    }

    let obj = HashObj { time, address: sender.clone(), level, count: state.config.flip_count };
    let hash = calculate_hash(&obj);

    let mut win: u8 = 1;
    if hash % 2 == 0 {
        win = 0;
    }

    let owner_amount = compute_fee(amount);
    let reward_amount = compute_reward(amount);

    if pool_balance < reward_amount {
        win = 1;
    }

    let mut messages: Vec<TransferRequest> = Vec::new();
    messages.push(TransferRequest { to: Payee::Treasury, amount: owner_amount });
    if win == 0 {
        messages.push(TransferRequest { to: Payee::Caller, amount: reward_amount });
    }

    let record = FHistory {
        id: state.config.flip_count + 1,
        address: sender,
        level,
        win: Some(win),
        bet_amount: amount,
        timestamp: time,
    };
    state.fhistory.push(record);
    state.config.flip_count = state.config.flip_count + 1;

    proof {
        lemma_payout_bounds(amount);
        assert(messages@ =~= spec_win_lose_msgs(win, amount));
    }
    Ok(SettleResponse { messages, win: Some(win), derived: hash })
}

/// Applies the declared beats-relation to (player move, opponent move):
/// `Some(0)` win, `Some(2)` loss, `Some(1)` tie.
pub fn get_winner(p1: u64, p2: u64) -> (r: Option<u8>)
    ensures
        r == spec_rps_winner(p1, p2),
{
    match (p1, p2) {
        (0, 1) => Some(0),
        (2, 0) => Some(0),
        (1, 2) => Some(0),
        (0, 2) => Some(2),
        (2, 1) => Some(2),
        (1, 0) => Some(2),
        _ => Some(1),
    }
}

/// Settles one rock-paper-scissors wager, as `rps_post` states.
pub fn execute_rps(
    state: &mut State,
    time: u64,
    sender: String,
    level: u64,
    amount: u128,
    pool_balance: u128,
) -> (r: Result<SettleResponse, ContractError>)
    requires
        old(state).wf(),
        amount_in_range(amount),
        old(state).config.rps_count < u64::MAX,
    ensures
        final(state).wf(),
        rps_post(*old(state), *final(state), time, sender, level, amount, pool_balance, r),
{
    if !state.config.enabled {
        return Err(ContractError::ContractDisabled);
    }
    if level != 0 && level != 1 && level != 2 {
        return Err(ContractError::InvalidBet);
    }

    let obj = HashObj { time, address: sender.clone(), level, count: state.config.rps_count };
    let hash = calculate_hash(&obj);
    let cpu_move = hash % 3;

    let owner_amount = compute_fee(amount);
    let reward_amount = compute_reward(amount);

    let mut win = get_winner(level, cpu_move);
    if pool_balance < reward_amount {
        win = Some(2);
    }

    let mut messages: Vec<TransferRequest> = Vec::new();
    messages.push(TransferRequest { to: Payee::Treasury, amount: owner_amount });
    match win {
        Some(0) => {
            messages.push(TransferRequest { to: Payee::Caller, amount: reward_amount });
        }
        Some(2) => {},
        _ => {
            let tie_amount = compute_tie_reward(amount);
            messages.push(TransferRequest { to: Payee::Caller, amount: tie_amount });
        },
    }

    let record = RHistory {
        id: state.config.rps_count + 1,
        address: sender,
        level,
        win,
        bet_amount: amount,
        timestamp: time,
    };
    state.rhistory.push(record);
    state.config.rps_count = state.config.rps_count + 1;

    proof {
        lemma_payout_bounds(amount);
        assert(messages@ =~= spec_rps_msgs(win, amount));
    }
    Ok(SettleResponse { messages, win, derived: cpu_move })
}

/// Settles one dice wager, as `dice_post` states.
pub fn execute_dice(
    state: &mut State,
    time: u64,
    sender: String,
    level: u64,
    amount: u128,
    pool_balance: u128,
) -> (r: Result<SettleResponse, ContractError>)
    requires
        old(state).wf(),
        amount_in_range(amount),
        old(state).config.dice_count < u64::MAX,
    ensures
        final(state).wf(),
        dice_post(*old(state), *final(state), time, sender, level, amount, pool_balance, r),
{
    if !state.config.enabled {
        return Err(ContractError::ContractDisabled);
    }
    if level != 0 && level != 1 {
        return Err(ContractError::InvalidBet);
    }

    let obj = HashObj { time, address: sender.clone(), level, count: state.config.dice_count };
    let mut hash = calculate_hash(&obj) % 6;

    let mut win: u8 = 1;
    if hash % 2 == level {
        win = 0;
    }

    let owner_amount = compute_fee(amount);
    let reward_amount = compute_reward(amount);

    if pool_balance < reward_amount {
        win = 1;
        hash = hash + 1;
    }

    let mut messages: Vec<TransferRequest> = Vec::new();
    messages.push(TransferRequest { to: Payee::Treasury, amount: owner_amount });
    if win == 0 {
        messages.push(TransferRequest { to: Payee::Caller, amount: reward_amount });
    }

    let record = DHistory {
        id: state.config.dice_count + 1,
        address: sender,
        level,
        win: Some(win),
        bet_amount: amount,
        timestamp: time,
    };
    state.dhistory.push(record);
    state.config.dice_count = state.config.dice_count + 1;

    proof {
        lemma_payout_bounds(amount);
        assert(messages@ =~= spec_win_lose_msgs(win, amount));
    }
    Ok(SettleResponse { messages, win: Some(win), derived: hash })
}

/// Whether the wheel value is red.
fn is_red(h: u64) -> (r: bool)
    ensures
        r == spec_is_red(h),
{
    h == 1 || h == 3 || h == 5 || h == 7 || h == 9 || h == 12 || h == 14 || h == 16 || h == 18
        || h == 19 || h == 21 || h == 23 || h == 25 || h == 27 || h == 30 || h == 32 || h == 34
        || h == 36
}

/// Whether the wheel value is black.
fn is_black(h: u64) -> (r: bool)
    ensures
        r == spec_is_black(h),
{
    h == 2 || h == 4 || h == 6 || h == 8 || h == 10 || h == 11 || h == 13 || h == 15 || h == 17
        || h == 20 || h == 22 || h == 24 || h == 26 || h == 28 || h == 29 || h == 31 || h == 33
        || h == 35
}

/// Settles one roulette wager, as `roulette_post` states. The column
/// checks use wrapping subtraction, reproducing the layout quirks that
/// `spec_roulette_wins` documents.
pub fn execute_roulette(
    state: &mut State,
    time: u64,
    sender: String,
    level: u64,
    amount: u128,
    pool_balance: u128,
) -> (r: Result<SettleResponse, ContractError>)
    requires
        old(state).wf(),
        amount_in_range(amount),
        old(state).config.roulette_count < u64::MAX,
    ensures
        final(state).wf(),
        roulette_post(*old(state), *final(state), time, sender, level, amount, pool_balance, r),
{
    if !state.config.enabled {
        return Err(ContractError::ContractDisabled);
    }
    if level > 48 {
        return Err(ContractError::InvalidBet);
    }

    let obj = HashObj { time, address: sender.clone(), level, count: state.config.roulette_count };
    let hash = calculate_hash(&obj) % 37;

    let mut win: u8 = 1;
    if level == 37 && hash.wrapping_sub(1) % 3 == 0 {
        win = 0;
    } else if level == 38 && hash.wrapping_sub(2) % 3 == 0 {
        win = 0;
    } else if level == 39 && hash % 3 == 0 {
        win = 0;
    } else if level == 40 && hash <= 12 && hash > 0 {
        win = 0;
    } else if level == 41 && hash <= 24 && hash > 12 {
        win = 0;
    } else if level == 42 && hash <= 36 && hash > 24 {
        win = 0;
    } else if level == 43 && hash <= 18 && hash >= 1 {
        win = 0;
    } else if level == 44 && hash <= 36 && hash >= 19 {
        win = 0;
    } else if level == 45 && hash % 2 == 0 {
        win = 0;
    } else if level == 46 && hash % 2 == 1 {
        win = 0;
    } else if level == 47 && is_red(hash) {
        win = 0;
    } else if level == 48 && is_black(hash) {
        win = 0;
    } else if level == hash {
        win = 0;
    }
    proof {
        assert(win == (if spec_roulette_wins(level, hash) { 0u8 } else { 1u8 }));
    }

    let owner_amount = compute_fee(amount);
    let reward_amount = compute_reward(amount);

    if pool_balance < reward_amount {
        return Err(ContractError::InsufficientFunds);
    }

    let mut messages: Vec<TransferRequest> = Vec::new();
    messages.push(TransferRequest { to: Payee::Treasury, amount: owner_amount });
    if win == 0 {
        messages.push(TransferRequest { to: Payee::Caller, amount: reward_amount });
    }

    let record = BHistory {
        id: state.config.roulette_count + 1,
        address: sender,
        level,
        win: Some(win),
        bet_amount: amount,
        timestamp: time,
    };
    state.bhistory.push(record);
    state.config.roulette_count = state.config.roulette_count + 1;

    proof {
        lemma_payout_bounds(amount);
        assert(messages@ =~= spec_win_lose_msgs(win, amount));
    }
    Ok(SettleResponse { messages, win: Some(win), derived: hash })
}

/// A response that requests no transfer and reports no outcome, as the
/// administrative operations return.
pub open spec fn empty_response(resp: SettleResponse) -> bool {
    &&& resp.messages@ == Seq::<TransferRequest>::empty()
    &&& resp.win is None
    &&& resp.derived == 0
}

/// What an owner update does: operator-only; on success only the operator
/// field changes.
pub open spec fn update_owner_post(
    pre: State,
    post: State,
    sender: String,
    new_owner: String,
    r: Result<SettleResponse, ContractError>,
) -> bool {
    if sender@ != pre.config.owner@ {
        r == Err::<SettleResponse, ContractError>(ContractError::Unauthorized) && post == pre
    } else {
        &&& (r matches Ok(resp) && empty_response(resp))
        &&& post.config == (Config {
            owner: new_owner,
            denom: pre.config.denom,
            enabled: pre.config.enabled,
            flip_count: pre.config.flip_count,
            rps_count: pre.config.rps_count,
            dice_count: pre.config.dice_count,
            roulette_count: pre.config.roulette_count,
        })
        &&& post.fhistory == pre.fhistory
        &&& post.rhistory == pre.rhistory
        &&& post.dhistory == pre.dhistory
        &&& post.bhistory == pre.bhistory
    }
}

/// What an enabled-flag update does: operator-only; on success only the
/// flag changes.
pub open spec fn update_enabled_post(
    pre: State,
    post: State,
    sender: String,
    enabled: bool,
    r: Result<SettleResponse, ContractError>,
) -> bool {
    if sender@ != pre.config.owner@ {
        r == Err::<SettleResponse, ContractError>(ContractError::Unauthorized) && post == pre
    } else {
        &&& (r matches Ok(resp) && empty_response(resp))
        &&& post.config == (Config {
            owner: pre.config.owner,
            denom: pre.config.denom,
            enabled,
            flip_count: pre.config.flip_count,
            rps_count: pre.config.rps_count,
            dice_count: pre.config.dice_count,
            roulette_count: pre.config.roulette_count,
        })
        &&& post.fhistory == pre.fhistory
        &&& post.rhistory == pre.rhistory
        &&& post.dhistory == pre.dhistory
        &&& post.bhistory == pre.bhistory
    }
}

/// What a withdraw does: operator-only, rejected with `NotEnoughCoins`
/// (echoing the pool balance) when the pool cannot cover it; on success one
/// transfer of the full amount to the caller, and no state or ledger
/// change — withdrawals are not recorded.
pub open spec fn withdraw_post(
    pre: State,
    sender: String,
    amount: u128,
    pool: u128,
    r: Result<SettleResponse, ContractError>,
) -> bool {
    if sender@ != pre.config.owner@ {
        r == Err::<SettleResponse, ContractError>(ContractError::Unauthorized)
    } else if pool < amount {
        r == Err::<SettleResponse, ContractError>(
            ContractError::NotEnoughCoins { contract_amount: pool },
        )
    } else {
        r matches Ok(resp) && resp.messages@ == seq![
            TransferRequest { to: Payee::Caller, amount },
        ] && resp.win is None && resp.derived == 0
    }
}

/// Transfers operatorship, as `update_owner_post` states.
pub fn execute_update_owner(state: &mut State, sender: String, new_owner: String) -> (r: Result<
    SettleResponse,
    ContractError,
>)
    ensures
        update_owner_post(*old(state), *final(state), sender, new_owner, r),
        final(state).wf() == old(state).wf(),
{
    if !(sender == state.config.owner) {
        return Err(ContractError::Unauthorized);
    }
    state.config.owner = new_owner;
    let messages: Vec<TransferRequest> = Vec::new();
    proof {
        assert(messages@ =~= Seq::<TransferRequest>::empty());
    }
    Ok(SettleResponse { messages, win: None, derived: 0 })
}

/// Toggles the global enabled flag, as `update_enabled_post` states. When
/// the flag is false every settlement call is rejected uniformly.
pub fn execute_update_enabled(state: &mut State, sender: String, enabled: bool) -> (r: Result<
    SettleResponse,
    ContractError,
>)
    ensures
        update_enabled_post(*old(state), *final(state), sender, enabled, r),
        final(state).wf() == old(state).wf(),
{
    if !(sender == state.config.owner) {
        return Err(ContractError::Unauthorized);
    }
    state.config.enabled = enabled;
    let messages: Vec<TransferRequest> = Vec::new();
    proof {
        assert(messages@ =~= Seq::<TransferRequest>::empty());
    }
    Ok(SettleResponse { messages, win: None, derived: 0 })
}

/// Requests a withdrawal from the pool to the operator, as
/// `withdraw_post` states.
pub fn execute_withdraw(state: &State, sender: String, amount: u128, pool_balance: u128) -> (r:
    Result<SettleResponse, ContractError>)
    ensures
        withdraw_post(*state, sender, amount, pool_balance, r),
{
    if !(sender == state.config.owner) {
        return Err(ContractError::Unauthorized);
    }
    if pool_balance < amount {
        return Err(ContractError::NotEnoughCoins { contract_amount: pool_balance });
    }
    let mut messages: Vec<TransferRequest> = Vec::new();
    messages.push(TransferRequest { to: Payee::Caller, amount });
    proof {
        assert(messages@ =~= seq![TransferRequest { to: Payee::Caller, amount }]);
    }
    Ok(SettleResponse { messages, win: None, derived: 0 })
}

/// Dispatches one execute request to its handler; the per-operation
/// relations in the ensures clause carry the whole behaviour.
pub fn execute(
    state: &mut State,
    time: u64,
    sender: String,
    amount: u128,
    pool_balance: u128,
    msg: ExecuteMsg,
) -> (r: Result<SettleResponse, ContractError>)
    requires
        old(state).wf(),
        match msg {
            ExecuteMsg::Flip { .. } => amount_in_range(amount) && old(state).config.flip_count
                < u64::MAX,
            ExecuteMsg::Rps { .. } => amount_in_range(amount) && old(state).config.rps_count
                < u64::MAX,
            ExecuteMsg::Dice { .. } => amount_in_range(amount) && old(state).config.dice_count
                < u64::MAX,
            ExecuteMsg::Roulette { .. } => amount_in_range(amount)
                && old(state).config.roulette_count < u64::MAX,
            _ => true,
        },
    ensures
        final(state).wf(),
        match msg {
            ExecuteMsg::UpdateOwner { owner } => update_owner_post(
                *old(state),
                *final(state),
                sender,
                owner,
                r,
            ),
            ExecuteMsg::UpdateEnabled { enabled } => update_enabled_post(
                *old(state),
                *final(state),
                sender,
                enabled,
                r,
            ),
            ExecuteMsg::Flip { level } => flip_post(
                *old(state),
                *final(state),
                time,
                sender,
                level,
                amount,
                pool_balance,
                r,
            ),
            ExecuteMsg::Rps { level } => rps_post(
                *old(state),
                *final(state),
                time,
                sender,
                level,
                amount,
                pool_balance,
                r,
            ),
            ExecuteMsg::Dice { level } => dice_post(
                *old(state),
                *final(state),
                time,
                sender,
                level,
                amount,
                pool_balance,
                r,
            ),
            ExecuteMsg::Roulette { level } => roulette_post(
                *old(state),
                *final(state),
                time,
                sender,
                level,
                amount,
                pool_balance,
                r,
            ),
            ExecuteMsg::Withdraw { amount: withdraw_amount } => withdraw_post(
                *old(state),
                sender,
                withdraw_amount,
                pool_balance,
                r,
            ) && *final(state) == *old(state),
        },
{
    match msg {
        ExecuteMsg::UpdateOwner { owner } => execute_update_owner(state, sender, owner),
        ExecuteMsg::UpdateEnabled { enabled } => execute_update_enabled(state, sender, enabled),
        ExecuteMsg::Flip { level } => execute_flip(state, time, sender, level, amount, pool_balance),
        ExecuteMsg::Rps { level } => execute_rps(state, time, sender, level, amount, pool_balance),
        ExecuteMsg::Dice { level } => execute_dice(state, time, sender, level, amount, pool_balance),
        ExecuteMsg::Roulette { level } => execute_roulette(
            state,
            time,
            sender,
            level,
            amount,
            pool_balance,
        ),
        ExecuteMsg::Withdraw { amount: withdraw_amount } => execute_withdraw(
            &*state,
            sender,
            withdraw_amount,
            pool_balance,
        ),
    }
}

/// How many records a history query returns: the requested count, capped
/// by how many wagers of that game have been settled.
pub open spec fn spec_history_len(count: u32, total: u64) -> int {
    if count <= total {
        count as int
    } else {
        total as int
    }
}

/// A history query's answer: up to `count` most recent records, newest
/// first — element `i` of the answer is the record stored at position
/// `total - 1 - i` of the ledger. A count of 0 yields an empty list.
pub open spec fn fhistory_query_post(s: State, count: u32, list: Seq<FHistory>) -> bool {
    &&& list.len() == spec_history_len(count, s.config.flip_count)
    &&& forall|i: int|
        0 <= i < list.len() ==> list[i] == s.fhistory@[s.config.flip_count - 1 - i]
}

/// As `fhistory_query_post`, for the rock-paper-scissors ledger.
pub open spec fn rhistory_query_post(s: State, count: u32, list: Seq<RHistory>) -> bool {
    &&& list.len() == spec_history_len(count, s.config.rps_count)
    &&& forall|i: int|
        0 <= i < list.len() ==> list[i] == s.rhistory@[s.config.rps_count - 1 - i]
}

/// As `fhistory_query_post`, for the dice ledger.
pub open spec fn dhistory_query_post(s: State, count: u32, list: Seq<DHistory>) -> bool {
    &&& list.len() == spec_history_len(count, s.config.dice_count)
    &&& forall|i: int|
        0 <= i < list.len() ==> list[i] == s.dhistory@[s.config.dice_count - 1 - i]
}

/// As `fhistory_query_post`, for the roulette ledger.
pub open spec fn bhistory_query_post(s: State, count: u32, list: Seq<BHistory>) -> bool {
    &&& list.len() == spec_history_len(count, s.config.roulette_count)
    &&& forall|i: int|
        0 <= i < list.len() ==> list[i] == s.bhistory@[s.config.roulette_count - 1 - i]
}

/// A config query's answer: the configuration fields verbatim, plus the
/// pool's current balance.
pub open spec fn config_query_post(s: State, pool: u128, c: ConfigResponse) -> bool {
    &&& c.owner == s.config.owner
    &&& c.enabled == s.config.enabled
    &&& c.denom == s.config.denom
    &&& c.treasury_amount == pool
    &&& c.flip_count == s.config.flip_count
    &&& c.rps_count == s.config.rps_count
    &&& c.dice_count == s.config.dice_count
    &&& c.roulette_count == s.config.roulette_count
}

/// Reports the configuration and the pool balance.
pub fn query_config(state: &State, pool_balance: u128) -> (r: ConfigResponse)
    ensures
        config_query_post(*state, pool_balance, r),
{
    ConfigResponse {
        owner: state.config.owner.clone(),
        enabled: state.config.enabled,
        denom: state.config.denom.clone(),
        treasury_amount: pool_balance,
        flip_count: state.config.flip_count,
        rps_count: state.config.rps_count,
        dice_count: state.config.dice_count,
        roulette_count: state.config.roulette_count,
    }
}

/// Returns up to `count` most recent coin-flip records, newest first.
pub fn query_fhistory(state: &State, count: u32) -> (r: FHistoryResponse)
    requires
        state.wf(),
    ensures
        fhistory_query_post(*state, count, r.list@),
{
    let total = state.config.flip_count;
    let total_len = state.fhistory.len();
    let real_count: u64 = if (count as u64) < total {
        count as u64
    } else {
        total
    };
    let mut list: Vec<FHistory> = Vec::new();
    let mut i: u64 = 0;
    while i < real_count
        invariant
            state.wf(),
            real_count <= total,
            total == state.config.flip_count,
            total == total_len,
            total_len == state.fhistory@.len(),
            real_count == spec_history_len(count, total),
            i <= real_count,
            list@.len() == i,
            forall|j: int| 0 <= j < i ==> list@[j] == state.fhistory@[total - 1 - j],
        decreases real_count - i,
    {
        let rec = state.fhistory[total_len - 1 - (i as usize)].clone();
        list.push(rec);
        i = i + 1;
    }
    FHistoryResponse { list }
}

/// Returns up to `count` most recent rock-paper-scissors records, newest
/// first.
pub fn query_rhistory(state: &State, count: u32) -> (r: RHistoryResponse)
    requires
        state.wf(),
    ensures
        rhistory_query_post(*state, count, r.list@),
{
    let total = state.config.rps_count;
    let total_len = state.rhistory.len();
    let real_count: u64 = if (count as u64) < total {
        count as u64
    } else {
        total
    };
    let mut list: Vec<RHistory> = Vec::new();
    let mut i: u64 = 0;
    while i < real_count
        invariant
            state.wf(),
            real_count <= total,
            total == state.config.rps_count,
            total == total_len,
            total_len == state.rhistory@.len(),
            real_count == spec_history_len(count, total),
            i <= real_count,
            list@.len() == i,
            forall|j: int| 0 <= j < i ==> list@[j] == state.rhistory@[total - 1 - j],
        decreases real_count - i,
    {
        let rec = state.rhistory[total_len - 1 - (i as usize)].clone();
        list.push(rec);
        i = i + 1;
    }
    RHistoryResponse { list }
}

/// Returns up to `count` most recent dice records, newest first.
pub fn query_dhistory(state: &State, count: u32) -> (r: DHistoryResponse)
    requires
        state.wf(),
    ensures
        dhistory_query_post(*state, count, r.list@),
{
    let total = state.config.dice_count;
    let total_len = state.dhistory.len();
    let real_count: u64 = if (count as u64) < total {
        count as u64
    } else {
        total
    };
    let mut list: Vec<DHistory> = Vec::new();
    let mut i: u64 = 0;
    while i < real_count
        invariant
            state.wf(),
            real_count <= total,
            total == state.config.dice_count,
            total == total_len,
            total_len == state.dhistory@.len(),
            real_count == spec_history_len(count, total),
            i <= real_count,
            list@.len() == i,
            forall|j: int| 0 <= j < i ==> list@[j] == state.dhistory@[total - 1 - j],
        decreases real_count - i,
    {
        let rec = state.dhistory[total_len - 1 - (i as usize)].clone();
        list.push(rec);
        i = i + 1;
    }
    DHistoryResponse { list }
}

/// Returns up to `count` most recent roulette records, newest first.
pub fn query_bhistory(state: &State, count: u32) -> (r: BHistoryResponse)
    requires
        state.wf(),
    ensures
        bhistory_query_post(*state, count, r.list@),
{
    let total = state.config.roulette_count;
    let total_len = state.bhistory.len();
    let real_count: u64 = if (count as u64) < total {
        count as u64
    } else {
        total
    };
    let mut list: Vec<BHistory> = Vec::new();
    let mut i: u64 = 0;
    while i < real_count
        invariant
            state.wf(),
            real_count <= total,
            total == state.config.roulette_count,
            total == total_len,
            total_len == state.bhistory@.len(),
            real_count == spec_history_len(count, total),
            i <= real_count,
            list@.len() == i,
            forall|j: int| 0 <= j < i ==> list@[j] == state.bhistory@[total - 1 - j],
        decreases real_count - i,
    {
        let rec = state.bhistory[total_len - 1 - (i as usize)].clone();
        list.push(rec);
        i = i + 1;
    }
    BHistoryResponse { list }
}

/// Dispatches one query to its handler.
pub fn query(state: &State, pool_balance: u128, msg: QueryMsg) -> (r: QueryResponse)
    requires
        state.wf(),
    ensures
        match msg {
            QueryMsg::Config {  } => (r matches QueryResponse::Config(c) && config_query_post(
                *state,
                pool_balance,
                c,
            )),
            QueryMsg::RistoryMsg { count } => (r matches QueryResponse::Rhistory(h)
                && rhistory_query_post(*state, count, h.list@)),
            QueryMsg::FistoryMsg { count } => (r matches QueryResponse::Fhistory(h)
                && fhistory_query_post(*state, count, h.list@)),
            QueryMsg::DistoryMsg { count } => (r matches QueryResponse::Dhistory(h)
                && dhistory_query_post(*state, count, h.list@)),
            QueryMsg::BistoryMsg { count } => (r matches QueryResponse::Bhistory(h)
                && bhistory_query_post(*state, count, h.list@)),
        },
{
    match msg {
        QueryMsg::Config {  } => QueryResponse::Config(query_config(state, pool_balance)),
        QueryMsg::RistoryMsg { count } => QueryResponse::Rhistory(query_rhistory(state, count)),
        QueryMsg::FistoryMsg { count } => QueryResponse::Fhistory(query_fhistory(state, count)),
        QueryMsg::DistoryMsg { count } => QueryResponse::Dhistory(query_dhistory(state, count)),
        QueryMsg::BistoryMsg { count } => QueryResponse::Bhistory(query_bhistory(state, count)),
    }
}

/// The contract name that migration accepts.
pub open spec fn spec_contract_name() -> Seq<char> {
    "bet"@
}

/// Checks that stored state comes from a like-named contract: any other
/// stored name is rejected with `VersionMismatch`, which echoes it.
pub fn migrate(stored_contract: String) -> (r: Result<(), ContractError>)
    ensures
        stored_contract@ == spec_contract_name() ==> r is Ok,
        stored_contract@ != spec_contract_name() ==> (r matches Err(e) && e
            == (ContractError::VersionMismatch { previous_contract: stored_contract })),
{
    let name = "bet".to_owned();
    if stored_contract == name {
        Ok(())
    } else {
        Err(ContractError::VersionMismatch { previous_contract: stored_contract })
    }
}

} // verus!
