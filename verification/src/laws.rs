//! The engine's cross-game guarantees, stated over the four settlement
//! relations and proved from them.
use vstd::prelude::*;

use crate::contract::{
    bhistory_query_post, dhistory_query_post, dice_post, fee_msg, fhistory_query_post, flip_post,
    rhistory_query_post, roulette_post, rps_post,
};
use crate::error::ContractError;
use crate::msg::{BHistory, DHistory, FHistory, Payee, RHistory, SettleResponse};
use crate::payout::spec_reward;
use crate::state::State;

verus! {

/// The four games, as a tag for the guarantees they share.
#[derive(Clone, Copy, Debug, PartialEq, Eq, Structural)]
pub enum Game {
    Flip,
    Rps,
    Dice,
    Roulette,
}

/// The legal selection domain of each game.
pub open spec fn valid_level(game: Game, level: u64) -> bool {
    match game {
        Game::Flip => level == 0 || level == 1,
        Game::Rps => level == 0 || level == 1 || level == 2,
        Game::Dice => level == 0 || level == 1,
        Game::Roulette => level <= 48,
    }
}

/// The outcome code each game records for a loss.
pub open spec fn lose_code(game: Game) -> u8 {
    match game {
        Game::Rps => 2u8,
        _ => 1u8,
    }
}

/// The settlement relation of the named game.
pub open spec fn settle_post(
    game: Game,
    pre: State,
    post: State,
    time: u64,
    sender: String,
    level: u64,
    amount: u128,
    pool: u128,
    r: Result<SettleResponse, ContractError>,
) -> bool {
    match game {
        Game::Flip => flip_post(pre, post, time, sender, level, amount, pool, r),
        Game::Rps => rps_post(pre, post, time, sender, level, amount, pool, r),
        Game::Dice => dice_post(pre, post, time, sender, level, amount, pool, r),
        Game::Roulette => roulette_post(pre, post, time, sender, level, amount, pool, r),
    }
}

/// The outcome code that the newest record of the game's ledger carries.
pub open spec fn recorded_win(game: Game, post: State) -> Option<u8> {
    match game {
        Game::Flip => post.fhistory@.last().win,
        Game::Rps => post.rhistory@.last().win,
        Game::Dice => post.dhistory@.last().win,
        Game::Roulette => post.bhistory@.last().win,
    }
}

/// The treasury fee is deducted identically whether the bet wins, ties or
/// loses: every successful settlement's first transfer request pays the
/// treasury exactly the fee of the wager — a function of the wager alone,
/// into which neither the digest nor the pool balance enters — and every
/// further transfer request is a reward to the caller.
pub proof fn lemma_fee_independent_of_outcome(
    game: Game,
    pre: State,
    post: State,
    time: u64,
    sender: String,
    level: u64,
    amount: u128,
    pool: u128,
    r: Result<SettleResponse, ContractError>,
)
    requires
        settle_post(game, pre, post, time, sender, level, amount, pool, r),
        r is Ok,
    ensures
        r matches Ok(resp) ==> {
            &&& resp.messages@.len() >= 1
            &&& resp.messages@[0] == fee_msg(amount)
            &&& forall|j: int|
                1 <= j < resp.messages@.len() ==> (#[trigger] resp.messages@[j]).to
                    == Payee::Caller
        },
{
}

/// For every game but roulette, a pool that cannot cover the win reward
/// downgrades the outcome instead of failing: the call succeeds, the
/// recorded outcome is the game's lose code, and no reward transfer is
/// requested — the fee still is.
pub proof fn lemma_shortfall_downgrades_to_loss(
    game: Game,
    pre: State,
    post: State,
    time: u64,
    sender: String,
    level: u64,
    amount: u128,
    pool: u128,
    r: Result<SettleResponse, ContractError>,
)
    requires
        settle_post(game, pre, post, time, sender, level, amount, pool, r),
        game != Game::Roulette,
        pre.config.enabled,
        valid_level(game, level),
        pool < spec_reward(amount),
    ensures
        r is Ok,
        recorded_win(game, post) == Some(lose_code(game)),
        r matches Ok(resp) ==> resp.messages@ == seq![fee_msg(amount)],
{
}

/// Roulette never downgrades: a pool that cannot cover the candidate
/// reward fails the whole call with `InsufficientFunds`, and no state —
/// counter, ledger or transfer — changes.
pub proof fn lemma_roulette_shortfall_rejects(
    pre: State,
    post: State,
    time: u64,
    sender: String,
    level: u64,
    amount: u128,
    pool: u128,
    r: Result<SettleResponse, ContractError>,
)
    requires
        roulette_post(pre, post, time, sender, level, amount, pool, r),
        pre.config.enabled,
        level <= 48,
        pool < spec_reward(amount),
    ensures
        r == Err::<SettleResponse, ContractError>(ContractError::InsufficientFunds),
        post == pre,
{
}

/// The appended record's 1-based id equals the game's counter immediately
/// after its increment, and in a well-formed state every ledger's keys run
/// gaplessly from 0 with ids running gaplessly from 1.
pub proof fn lemma_record_id_matches_counter(
    game: Game,
    pre: State,
    post: State,
    time: u64,
    sender: String,
    level: u64,
    amount: u128,
    pool: u128,
    r: Result<SettleResponse, ContractError>,
)
    requires
        pre.wf(),
        post.wf(),
        settle_post(game, pre, post, time, sender, level, amount, pool, r),
        r is Ok,
    ensures
        match game {
            Game::Flip => post.config.flip_count == pre.config.flip_count + 1
                && post.fhistory@.len() == post.config.flip_count && post.fhistory@.last().id
                == post.config.flip_count,
            Game::Rps => post.config.rps_count == pre.config.rps_count + 1
                && post.rhistory@.len() == post.config.rps_count && post.rhistory@.last().id
                == post.config.rps_count,
            Game::Dice => post.config.dice_count == pre.config.dice_count + 1
                && post.dhistory@.len() == post.config.dice_count && post.dhistory@.last().id
                == post.config.dice_count,
            Game::Roulette => post.config.roulette_count == pre.config.roulette_count + 1
                && post.bhistory@.len() == post.config.roulette_count && post.bhistory@.last().id
                == post.config.roulette_count,
        },
{
}

/// In a well-formed state every ledger is keyed gaplessly from 0 and the
/// record at key `i` carries the 1-based id `i + 1`, for all four games.
pub proof fn lemma_ledger_gapless(s: State)
    requires
        s.wf(),
    ensures
        s.fhistory@.len() == s.config.flip_count,
        s.rhistory@.len() == s.config.rps_count,
        s.dhistory@.len() == s.config.dice_count,
        s.bhistory@.len() == s.config.roulette_count,
        forall|i: int| 0 <= i < s.fhistory@.len() ==> (#[trigger] s.fhistory@[i]).id == i + 1,
        forall|i: int| 0 <= i < s.rhistory@.len() ==> (#[trigger] s.rhistory@[i]).id == i + 1,
        forall|i: int| 0 <= i < s.dhistory@.len() ==> (#[trigger] s.dhistory@[i]).id == i + 1,
        forall|i: int| 0 <= i < s.bhistory@.len() ==> (#[trigger] s.bhistory@[i]).id == i + 1,
{
}

/// A selection outside the game's declared domain fails with `InvalidBet`
/// and mutates no state.
pub proof fn lemma_invalid_selection_rejects(
    game: Game,
    pre: State,
    post: State,
    time: u64,
    sender: String,
    level: u64,
    amount: u128,
    pool: u128,
    r: Result<SettleResponse, ContractError>,
)
    requires
        settle_post(game, pre, post, time, sender, level, amount, pool, r),
        pre.config.enabled,
        !valid_level(game, level),
    ensures
        r == Err::<SettleResponse, ContractError>(ContractError::InvalidBet),
        post == pre,
{
}

/// Outcome determinism: two settlements of the same game from the same
/// state, with identical timestamp, caller, selection, wager and pool
/// balance, succeed or fail alike and produce identical outcomes, derived
/// values, transfer requests, configurations and ledgers.
pub proof fn lemma_settlement_deterministic(
    game: Game,
    pre: State,
    post1: State,
    post2: State,
    time: u64,
    sender: String,
    level: u64,
    amount: u128,
    pool: u128,
    r1: Result<SettleResponse, ContractError>,
    r2: Result<SettleResponse, ContractError>,
)
    requires
        settle_post(game, pre, post1, time, sender, level, amount, pool, r1),
        settle_post(game, pre, post2, time, sender, level, amount, pool, r2),
    ensures
        r1 is Ok <==> r2 is Ok,
        r1 is Err ==> r1 == r2,
        r1 matches Ok(a) ==> (r2 matches Ok(b) && a.win == b.win && a.derived == b.derived
            && a.messages@ == b.messages@),
        post1.config == post2.config,
        post1.fhistory@ == post2.fhistory@,
        post1.rhistory@ == post2.rhistory@,
        post1.dhistory@ == post2.dhistory@,
        post1.bhistory@ == post2.bhistory@,
{
}

/// A history query for zero records returns the empty sequence, for every
/// game and any state.
pub proof fn lemma_zero_count_query_is_empty(
    s: State,
    flist: Seq<FHistory>,
    rlist: Seq<RHistory>,
    dlist: Seq<DHistory>,
    blist: Seq<BHistory>,
)
    requires
        fhistory_query_post(s, 0, flist),
        rhistory_query_post(s, 0, rlist),
        dhistory_query_post(s, 0, dlist),
        bhistory_query_post(s, 0, blist),
    ensures
        flist.len() == 0,
        rlist.len() == 0,
        dlist.len() == 0,
        blist.len() == 0,
{
}

} // verus!
