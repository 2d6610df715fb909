use bet::contract::{
    execute, execute_flip, execute_rps, execute_update_enabled, execute_update_owner,
    execute_withdraw, instantiate, migrate, query, query_bhistory, query_config, query_dhistory,
    query_fhistory, query_rhistory,
};
use bet::error::ContractError;
use bet::msg::{ExecuteMsg, Payee, QueryMsg, QueryResponse, TransferRequest};
use bet::state::{Denom, State};

const OWNER: &str = "alice";
const SENDER: &str = "bob";
const POOL: u128 = 1_000_000;

fn fresh_state() -> State {
    instantiate(OWNER.to_string(), Denom::Native("uatom".to_string()))
}

#[test]
fn instantiate_starts_enabled_with_zero_counters() {
    let st = fresh_state();
    assert_eq!(st.config.owner, OWNER);
    assert!(st.config.enabled);
    assert_eq!(st.config.flip_count, 0);
    assert_eq!(st.config.rps_count, 0);
    assert_eq!(st.config.dice_count, 0);
    assert_eq!(st.config.roulette_count, 0);
    assert_eq!(st.config.denom, Denom::Native("uatom".to_string()));
}

#[test]
fn history_query_count_zero_is_empty_for_every_game() {
    let mut st = fresh_state();
    execute_flip(&mut st, 7, SENDER.to_string(), 0, 100, POOL).unwrap();
    assert_eq!(query_fhistory(&st, 0).list.len(), 0);
    assert_eq!(query_rhistory(&st, 0).list.len(), 0);
    assert_eq!(query_dhistory(&st, 0).list.len(), 0);
    assert_eq!(query_bhistory(&st, 0).list.len(), 0);
}

#[test]
fn history_query_newest_first() {
    let mut st = fresh_state();
    for i in 0..3u64 {
        execute_flip(&mut st, 100 + i, SENDER.to_string(), 0, 100, POOL).unwrap();
    }
    let two = query_fhistory(&st, 2).list;
    assert_eq!(two.len(), 2);
    assert_eq!(two[0].id, 3);
    assert_eq!(two[0].timestamp, 102);
    assert_eq!(two[1].id, 2);
    assert_eq!(two[1].timestamp, 101);
    // Asking for more than settled caps at the total, still newest first.
    let all = query_fhistory(&st, 10).list;
    assert_eq!(all.len(), 3);
    assert_eq!(all[0].id, 3);
    assert_eq!(all[2].id, 1);
}

#[test]
fn config_query_reports_state_and_pool() {
    let mut st = fresh_state();
    execute_rps(&mut st, 7, SENDER.to_string(), 0, 100, POOL).unwrap();
    let c = query_config(&st, 4242);
    assert_eq!(c.owner, OWNER);
    assert!(c.enabled);
    assert_eq!(c.treasury_amount, 4242);
    assert_eq!(c.denom, Denom::Native("uatom".to_string()));
    assert_eq!(c.flip_count, 0);
    assert_eq!(c.rps_count, 1);
    assert_eq!(c.dice_count, 0);
    assert_eq!(c.roulette_count, 0);
}

#[test]
fn query_dispatch_routes_each_message() {
    let mut st = fresh_state();
    execute_flip(&mut st, 7, SENDER.to_string(), 0, 100, POOL).unwrap();
    match query(&st, POOL, QueryMsg::Config {}) {
        QueryResponse::Config(c) => assert_eq!(c.flip_count, 1),
        other => panic!("wrong response variant: {:?}", other),
    }
    match query(&st, POOL, QueryMsg::FistoryMsg { count: 5 }) {
        QueryResponse::Fhistory(h) => assert_eq!(h.list.len(), 1),
        other => panic!("wrong response variant: {:?}", other),
    }
    match query(&st, POOL, QueryMsg::RistoryMsg { count: 5 }) {
        QueryResponse::Rhistory(h) => assert_eq!(h.list.len(), 0),
        other => panic!("wrong response variant: {:?}", other),
    }
    match query(&st, POOL, QueryMsg::DistoryMsg { count: 5 }) {
        QueryResponse::Dhistory(h) => assert_eq!(h.list.len(), 0),
        other => panic!("wrong response variant: {:?}", other),
    }
    match query(&st, POOL, QueryMsg::BistoryMsg { count: 5 }) {
        QueryResponse::Bhistory(h) => assert_eq!(h.list.len(), 0),
        other => panic!("wrong response variant: {:?}", other),
    }
}

#[test]
fn disabled_engine_rejects_every_settlement() {
    let mut st = fresh_state();
    execute_update_enabled(&mut st, OWNER.to_string(), false).unwrap();
    let r = execute_flip(&mut st, 7, SENDER.to_string(), 0, 100, POOL);
    assert_eq!(r.unwrap_err(), ContractError::ContractDisabled);
    let r = execute(
        &mut st,
        7,
        SENDER.to_string(),
        100,
        POOL,
        ExecuteMsg::Roulette { level: 10 },
    );
    assert_eq!(r.unwrap_err(), ContractError::ContractDisabled);
    assert_eq!(st.config.flip_count, 0);
    assert_eq!(st.config.roulette_count, 0);
    // Re-enabling restores settlement.
    execute_update_enabled(&mut st, OWNER.to_string(), true).unwrap();
    assert!(execute_flip(&mut st, 7, SENDER.to_string(), 0, 100, POOL).is_ok());
}

#[test]
fn update_enabled_requires_operator() {
    let mut st = fresh_state();
    let r = execute_update_enabled(&mut st, SENDER.to_string(), false);
    assert_eq!(r.unwrap_err(), ContractError::Unauthorized);
    assert!(st.config.enabled);
}

#[test]
fn update_owner_transfers_operatorship() {
    let mut st = fresh_state();
    assert_eq!(
        execute_update_owner(&mut st, SENDER.to_string(), SENDER.to_string()).unwrap_err(),
        ContractError::Unauthorized
    );
    execute_update_owner(&mut st, OWNER.to_string(), "carol".to_string()).unwrap();
    assert_eq!(st.config.owner, "carol");
    // The old operator is no longer authorized.
    assert_eq!(
        execute_update_enabled(&mut st, OWNER.to_string(), false).unwrap_err(),
        ContractError::Unauthorized
    );
}

#[test]
fn withdraw_pays_the_operator() {
    let st = fresh_state();
    let r = execute_withdraw(&st, OWNER.to_string(), 500, POOL).unwrap();
    assert_eq!(
        r.messages,
        vec![TransferRequest { to: Payee::Caller, amount: 500 }]
    );
    assert_eq!(r.win, None);
}

#[test]
fn withdraw_rejects_overdraft_and_strangers() {
    let st = fresh_state();
    assert_eq!(
        execute_withdraw(&st, SENDER.to_string(), 500, POOL).unwrap_err(),
        ContractError::Unauthorized
    );
    assert_eq!(
        execute_withdraw(&st, OWNER.to_string(), 1_000_001, POOL).unwrap_err(),
        ContractError::NotEnoughCoins { contract_amount: POOL }
    );
}

#[test]
fn execute_dispatch_routes_each_message() {
    let mut st = fresh_state();
    execute(&mut st, 7, SENDER.to_string(), 100, POOL, ExecuteMsg::Flip { level: 0 }).unwrap();
    assert_eq!(st.config.flip_count, 1);
    execute(&mut st, 7, SENDER.to_string(), 100, POOL, ExecuteMsg::Rps { level: 1 }).unwrap();
    assert_eq!(st.config.rps_count, 1);
    execute(&mut st, 7, SENDER.to_string(), 100, POOL, ExecuteMsg::Dice { level: 1 }).unwrap();
    assert_eq!(st.config.dice_count, 1);
    execute(&mut st, 7, SENDER.to_string(), 100, POOL, ExecuteMsg::Roulette { level: 3 }).unwrap();
    assert_eq!(st.config.roulette_count, 1);
    let r = execute(
        &mut st,
        7,
        OWNER.to_string(),
        0,
        POOL,
        ExecuteMsg::Withdraw { amount: 10 },
    )
    .unwrap();
    assert_eq!(r.messages.len(), 1);
    let r = execute(
        &mut st,
        7,
        OWNER.to_string(),
        0,
        POOL,
        ExecuteMsg::UpdateEnabled { enabled: false },
    )
    .unwrap();
    assert!(r.messages.is_empty());
    assert!(!st.config.enabled);
}

#[test]
fn migrate_accepts_only_the_contract_name() {
    assert!(migrate("bet".to_string()).is_ok());
    assert_eq!(
        migrate("other".to_string()).unwrap_err(),
        ContractError::VersionMismatch { previous_contract: "other".to_string() }
    );
}
