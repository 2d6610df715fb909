use bet::contract::{
    calculate_hash, execute_dice, execute_flip, execute_roulette, execute_rps, get_winner,
    instantiate,
};
use bet::error::ContractError;
use bet::msg::{HashObj, Payee, TransferRequest};
use bet::state::{Denom, State};

const SENDER: &str = "bob";
const POOL: u128 = 1_000_000;

fn fresh_state() -> State {
    instantiate("alice".to_string(), Denom::Native("uatom".to_string()))
}

fn digest(time: u64, address: &str, level: u64, count: u64) -> u64 {
    calculate_hash(&HashObj { time, address: address.to_string(), level, count })
}

/// A timestamp whose digest satisfies `pred`, for the given context.
fn find_time(address: &str, level: u64, count: u64, pred: impl Fn(u64) -> bool) -> u64 {
    for t in 0..1_000_000u64 {
        if pred(digest(t, address, level, count)) {
            return t;
        }
    }
    panic!("no timestamp with the wanted digest found");
}

fn fee_msg(amount: u128) -> TransferRequest {
    TransferRequest { to: Payee::Treasury, amount: amount * 5 / 100 }
}

fn win_msg(amount: u128) -> TransferRequest {
    TransferRequest { to: Payee::Caller, amount: amount * 200 / 100 - amount * 5 / 100 }
}

#[test]
fn flip_win_scenario() {
    // Counter 0, selection 0, even digest parity: a win. The fee and the
    // multiplied reward are both requested, the counter becomes 1, and the
    // record {id: 1, level: 0, win: Some(0)} sits at key 0.
    let mut st = fresh_state();
    let t = find_time(SENDER, 0, 0, |h| h % 2 == 0);
    let r = execute_flip(&mut st, t, SENDER.to_string(), 0, 100, POOL).unwrap();
    assert_eq!(r.win, Some(0));
    assert_eq!(r.messages, vec![fee_msg(100), win_msg(100)]);
    assert_eq!(r.messages[0].amount, 5);
    assert_eq!(r.messages[1].amount, 195);
    assert_eq!(st.config.flip_count, 1);
    assert_eq!(st.fhistory.len(), 1);
    assert_eq!(st.fhistory[0].id, 1);
    assert_eq!(st.fhistory[0].level, 0);
    assert_eq!(st.fhistory[0].win, Some(0));
    assert_eq!(st.fhistory[0].bet_amount, 100);
    assert_eq!(st.fhistory[0].timestamp, t);
    assert_eq!(st.fhistory[0].address, SENDER);
}

#[test]
fn flip_lose_scenario() {
    let mut st = fresh_state();
    let t = find_time(SENDER, 1, 0, |h| h % 2 == 1);
    let r = execute_flip(&mut st, t, SENDER.to_string(), 1, 100, POOL).unwrap();
    assert_eq!(r.win, Some(1));
    // Only the fee is transferred on a loss.
    assert_eq!(r.messages, vec![fee_msg(100)]);
    assert_eq!(st.fhistory[0].win, Some(1));
}

#[test]
fn fee_identical_across_outcomes() {
    // The first transfer is the same treasury fee whether the bet wins,
    // ties or loses; only the reward transfer varies.
    let amount = 999u128;
    let expected_fee = fee_msg(amount);
    assert_eq!(expected_fee.amount, 49); // 999 * 5 / 100, truncated

    let mut st = fresh_state();
    let t_win = find_time(SENDER, 0, 0, |h| h % 2 == 0);
    let r_win = execute_flip(&mut st, t_win, SENDER.to_string(), 0, amount, POOL).unwrap();
    assert_eq!(r_win.messages[0], expected_fee);

    let t_lose = find_time(SENDER, 0, 1, |h| h % 2 == 1);
    let r_lose = execute_flip(&mut st, t_lose, SENDER.to_string(), 0, amount, POOL).unwrap();
    assert_eq!(r_lose.messages[0], expected_fee);

    // A tie in rock-paper-scissors: equal moves. Fee identical, and the
    // tie reward is the wager minus the fee with no multiplier.
    let t_tie = find_time(SENDER, 1, 0, |h| h % 3 == 1);
    let r_tie = execute_rps(&mut st, t_tie, SENDER.to_string(), 1, amount, POOL).unwrap();
    assert_eq!(r_tie.win, Some(1));
    assert_eq!(r_tie.messages[0], expected_fee);
    assert_eq!(
        r_tie.messages[1],
        TransferRequest { to: Payee::Caller, amount: 999 - 49 }
    );
}

#[test]
fn rps_paper_vs_scissors() {
    // Selection 1 against derived opponent move 2: under the engine's
    // declared beats-relation (0 beats 1, 1 beats 2, 2 beats 0) move 1
    // beats move 2, so the player wins and the reward is requested.
    let mut st = fresh_state();
    let t = find_time(SENDER, 1, 0, |h| h % 3 == 2);
    let r = execute_rps(&mut st, t, SENDER.to_string(), 1, 100, POOL).unwrap();
    assert_eq!(r.derived, 2);
    assert_eq!(r.win, Some(0));
    assert_eq!(r.messages, vec![fee_msg(100), win_msg(100)]);
    assert_eq!(st.rhistory[0].win, Some(0));
}

#[test]
fn rps_lose_scenario() {
    // Selection 0 against derived opponent move 2: 2 beats 0, a loss;
    // only the fee is transferred.
    let mut st = fresh_state();
    let t = find_time(SENDER, 0, 0, |h| h % 3 == 2);
    let r = execute_rps(&mut st, t, SENDER.to_string(), 0, 100, POOL).unwrap();
    assert_eq!(r.win, Some(2));
    assert_eq!(r.messages, vec![fee_msg(100)]);
}

#[test]
fn get_winner_beats_relation() {
    assert_eq!(get_winner(0, 1), Some(0));
    assert_eq!(get_winner(1, 2), Some(0));
    assert_eq!(get_winner(2, 0), Some(0));
    assert_eq!(get_winner(0, 2), Some(2));
    assert_eq!(get_winner(2, 1), Some(2));
    assert_eq!(get_winner(1, 0), Some(2));
    assert_eq!(get_winner(0, 0), Some(1));
    assert_eq!(get_winner(1, 1), Some(1));
    assert_eq!(get_winner(2, 2), Some(1));
}

#[test]
fn dice_win_on_matching_parity() {
    let mut st = fresh_state();
    let t = find_time(SENDER, 1, 0, |h| (h % 6) % 2 == 1);
    let r = execute_dice(&mut st, t, SENDER.to_string(), 1, 100, POOL).unwrap();
    assert_eq!(r.win, Some(0));
    assert_eq!(r.derived, digest(t, SENDER, 1, 0) % 6);
    assert_eq!(r.messages, vec![fee_msg(100), win_msg(100)]);
}

#[test]
fn dice_lose_on_mismatched_parity() {
    let mut st = fresh_state();
    let t = find_time(SENDER, 0, 0, |h| (h % 6) % 2 == 1);
    let r = execute_dice(&mut st, t, SENDER.to_string(), 0, 100, POOL).unwrap();
    assert_eq!(r.win, Some(1));
    assert_eq!(r.messages, vec![fee_msg(100)]);
    assert_eq!(st.dhistory[0].win, Some(1));
}

#[test]
fn shortfall_downgrades_to_loss_not_error() {
    // Coin flip, rock-paper-scissors and dice: a pool that cannot cover
    // the win reward downgrades the outcome to a loss; the call succeeds,
    // the fee is still charged, and no reward transfer is emitted.
    let mut st = fresh_state();
    let t = find_time(SENDER, 0, 0, |h| h % 2 == 0); // would win
    let r = execute_flip(&mut st, t, SENDER.to_string(), 0, 100, 0).unwrap();
    assert_eq!(r.win, Some(1));
    assert_eq!(r.messages, vec![fee_msg(100)]);
    assert_eq!(st.fhistory[0].win, Some(1));

    // Even a rock-paper-scissors tie is downgraded to the lose code 2.
    let t2 = find_time(SENDER, 1, 0, |h| h % 3 == 1); // would tie
    let r2 = execute_rps(&mut st, t2, SENDER.to_string(), 1, 100, 0).unwrap();
    assert_eq!(r2.win, Some(2));
    assert_eq!(r2.messages, vec![fee_msg(100)]);

    // Dice reports the die value stepped by one when downgraded.
    let t3 = find_time(SENDER, 0, 0, |h| (h % 6) % 2 == 0); // would win
    let die = digest(t3, SENDER, 0, 0) % 6;
    let r3 = execute_dice(&mut st, t3, SENDER.to_string(), 0, 100, 0).unwrap();
    assert_eq!(r3.win, Some(1));
    assert_eq!(r3.derived, die + 1);
    assert_eq!(r3.messages, vec![fee_msg(100)]);
}

#[test]
fn roulette_shortfall_rejects_whole_call() {
    // Roulette alone fails hard on a shortfall: InsufficientFunds, and no
    // counter, ledger or transfer changes.
    let mut st = fresh_state();
    let r = execute_roulette(&mut st, 7, SENDER.to_string(), 10, 100, 0);
    assert_eq!(r.unwrap_err(), ContractError::InsufficientFunds);
    assert_eq!(st.config.roulette_count, 0);
    assert_eq!(st.bhistory.len(), 0);
}

#[test]
fn roulette_exact_number_win() {
    let mut st = fresh_state();
    let t = find_time(SENDER, 17, 0, |h| h % 37 == 17);
    let r = execute_roulette(&mut st, t, SENDER.to_string(), 17, 100, POOL).unwrap();
    assert_eq!(r.derived, 17);
    assert_eq!(r.win, Some(0));
    assert_eq!(r.messages, vec![fee_msg(100), win_msg(100)]);
}

#[test]
fn roulette_zero_wheel_edge_cases() {
    // Wheel value 0 against the composite bets, following the engine's
    // literal rules: the even bet (45) wins because 0 % 2 == 0; the first
    // dozen (40) excludes 0; the first column (37) includes 0 through the
    // wrapping subtraction in its check.
    let mut st = fresh_state();

    let t45 = find_time(SENDER, 45, 0, |h| h % 37 == 0);
    let r45 = execute_roulette(&mut st, t45, SENDER.to_string(), 45, 100, POOL).unwrap();
    assert_eq!(r45.derived, 0);
    assert_eq!(r45.win, Some(0));

    let t40 = find_time(SENDER, 40, 1, |h| h % 37 == 0);
    let r40 = execute_roulette(&mut st, t40, SENDER.to_string(), 40, 100, POOL).unwrap();
    assert_eq!(r40.derived, 0);
    assert_eq!(r40.win, Some(1));

    let t37 = find_time(SENDER, 37, 2, |h| h % 37 == 0);
    let r37 = execute_roulette(&mut st, t37, SENDER.to_string(), 37, 100, POOL).unwrap();
    assert_eq!(r37.derived, 0);
    assert_eq!(r37.win, Some(0));

    // Wheel value 1 also satisfies the second column (38) by the same
    // wrapping quirk.
    let t38 = find_time(SENDER, 38, 3, |h| h % 37 == 1);
    let r38 = execute_roulette(&mut st, t38, SENDER.to_string(), 38, 100, POOL).unwrap();
    assert_eq!(r38.derived, 1);
    assert_eq!(r38.win, Some(0));
}

#[test]
fn roulette_composite_bets() {
    let mut st = fresh_state();
    // Odd bet (46) on an odd wheel value.
    let t = find_time(SENDER, 46, 0, |h| h % 37 == 9);
    let r = execute_roulette(&mut st, t, SENDER.to_string(), 46, 100, POOL).unwrap();
    assert_eq!(r.win, Some(0));
    // Red bet (47) on a black value loses.
    let t2 = find_time(SENDER, 47, 1, |h| h % 37 == 2);
    let r2 = execute_roulette(&mut st, t2, SENDER.to_string(), 47, 100, POOL).unwrap();
    assert_eq!(r2.win, Some(1));
    // Black bet (48) on a black value wins.
    let t3 = find_time(SENDER, 48, 2, |h| h % 37 == 2);
    let r3 = execute_roulette(&mut st, t3, SENDER.to_string(), 48, 100, POOL).unwrap();
    assert_eq!(r3.win, Some(0));
    // High half (44) on value 19 wins.
    let t4 = find_time(SENDER, 44, 3, |h| h % 37 == 19);
    let r4 = execute_roulette(&mut st, t4, SENDER.to_string(), 44, 100, POOL).unwrap();
    assert_eq!(r4.win, Some(0));
}

#[test]
fn invalid_selection_rejected_without_state_change() {
    let mut st = fresh_state();
    assert_eq!(
        execute_flip(&mut st, 7, SENDER.to_string(), 2, 100, POOL).unwrap_err(),
        ContractError::InvalidBet
    );
    assert_eq!(
        execute_rps(&mut st, 7, SENDER.to_string(), 3, 100, POOL).unwrap_err(),
        ContractError::InvalidBet
    );
    assert_eq!(
        execute_dice(&mut st, 7, SENDER.to_string(), 2, 100, POOL).unwrap_err(),
        ContractError::InvalidBet
    );
    assert_eq!(
        execute_roulette(&mut st, 7, SENDER.to_string(), 49, 100, POOL).unwrap_err(),
        ContractError::InvalidBet
    );
    assert_eq!(st.config.flip_count, 0);
    assert_eq!(st.config.rps_count, 0);
    assert_eq!(st.config.dice_count, 0);
    assert_eq!(st.config.roulette_count, 0);
    assert_eq!(st.fhistory.len(), 0);
    assert_eq!(st.rhistory.len(), 0);
    assert_eq!(st.dhistory.len(), 0);
    assert_eq!(st.bhistory.len(), 0);
}

#[test]
fn record_ids_follow_counter_without_gaps() {
    let mut st = fresh_state();
    for i in 0..3u64 {
        execute_flip(&mut st, 100 + i, SENDER.to_string(), 0, 100, POOL).unwrap();
    }
    assert_eq!(st.config.flip_count, 3);
    assert_eq!(st.fhistory.len(), 3);
    for (i, rec) in st.fhistory.iter().enumerate() {
        assert_eq!(rec.id, i as u64 + 1);
    }
}

#[test]
fn outcome_deterministic_for_identical_context() {
    // Identical (timestamp, caller, selection, counter) always derive the
    // identical digest and outcome.
    let h1 = digest(12345, SENDER, 1, 7);
    let h2 = digest(12345, SENDER, 1, 7);
    assert_eq!(h1, h2);

    let mut st1 = fresh_state();
    let mut st2 = fresh_state();
    let r1 = execute_rps(&mut st1, 12345, SENDER.to_string(), 1, 100, POOL).unwrap();
    let r2 = execute_rps(&mut st2, 12345, SENDER.to_string(), 1, 100, POOL).unwrap();
    assert_eq!(r1.win, r2.win);
    assert_eq!(r1.derived, r2.derived);
    assert_eq!(r1.messages, r2.messages);
    assert_eq!(st1.rhistory, st2.rhistory);
}

#[test]
fn flip_outcome_matches_published_digest() {
    // The settlement must use the same digest that `calculate_hash`
    // publishes for the same context.
    let mut st = fresh_state();
    let h = digest(777, SENDER, 0, 0);
    let r = execute_flip(&mut st, 777, SENDER.to_string(), 0, 100, POOL).unwrap();
    assert_eq!(r.derived, h);
    assert_eq!(r.win, Some(if h % 2 == 0 { 0 } else { 1 }));
}

#[test]
fn digest_depends_on_every_context_field() {
    let base = digest(1, SENDER, 0, 0);
    assert!(
        digest(2, SENDER, 0, 0) != base
            || digest(1, "carol", 0, 0) != base
            || digest(1, SENDER, 1, 0) != base
            || digest(1, SENDER, 0, 1) != base
    );
}

#[test]
fn largest_wager_in_range_settles() {
    let amount = u128::MAX / 200; // the largest wager the arithmetic admits
    let mut st = fresh_state();
    let t = find_time(SENDER, 0, 0, |h| h % 2 == 0);
    let r = execute_flip(&mut st, t, SENDER.to_string(), 0, amount, u128::MAX).unwrap();
    assert_eq!(r.win, Some(0));
    let fee = amount * 5 / 100;
    assert_eq!(r.messages[0].amount, fee);
    assert_eq!(r.messages[1].amount, amount * 200 / 100 - fee);
}
