use cw_croncat::error::ContractError;
use cw_croncat::msg::UpdateSettings;
use cw_croncat::state::{Config, CwCroncat};
use cw_croncat::types::{coin, Balance, Coin, Cw20CoinVerified, GenericBalance, TransferMsg};

fn coins(amount: u128, denom: &str) -> Vec<Coin> {
    vec![coin(amount, denom)]
}

/// The state right after genesis: the sender owns the contract, and the
/// available balance holds what the contract's account has plus the funds
/// sent along.
fn fresh_state(chain: &[Coin], sender: &str, funds: &[Coin], denom: &str, duration: u16) -> CwCroncat {
    let mut native = chain.to_vec();
    native.extend_from_slice(funds);
    CwCroncat {
        config: Config {
            paused: false,
            owner_id: sender.to_string(),
            min_tasks_per_agent: 3,
            agent_active_index: 0,
            agents_eject_threshold: 600,
            agent_nomination_duration: duration,
            agent_fee: coin(5, denom),
            gas_price: 1,
            proxy_callback_gas: 3,
            slot_granularity: 60_000_000_000,
            native_denom: denom.to_string(),
            cw20_whitelist: vec![],
            available_balance: GenericBalance { native, cw20: vec![] },
            staked_balance: GenericBalance { native: vec![], cw20: vec![] },
        },
        agent_active_queue: vec![],
        agent_pending_queue: vec![],
        agent_nomination_begin_time: None,
        task_total: 0,
    }
}

fn empty_patch() -> UpdateSettings {
    UpdateSettings {
        paused: None,
        owner_id: None,
        agent_fee: None,
        min_tasks_per_agent: None,
        agents_eject_threshold: None,
        gas_price: None,
        proxy_callback_gas: None,
        slot_granularity: None,
    }
}

#[test]
fn update_settings() {
    let chain = coins(200, "");
    let mut store = fresh_state(&chain, "creator", &coins(1000, "meow"), "atom", 360);

    let payload = UpdateSettings { paused: Some(true), ..empty_patch() };

    // non-owner fails
    let res_fail = store.update_settings(&"michael_scott".to_string(), payload.clone());
    match res_fail {
        Err(ContractError::Unauthorized {}) => {}
        _ => panic!("Must return unauthorized error"),
    }

    // do the right thing
    let res_exec = store.update_settings(&"creator".to_string(), payload).unwrap();
    assert_eq!(true, res_exec.paused);

    // it worked, let's query the state
    let value = store.query_config();
    assert_eq!(true, value.paused);
    assert_eq!("creator".to_string(), value.owner_id);
}

#[test]
fn move_balances_auth_checks() {
    let chain = coins(200000000, "atom");
    let mut store = fresh_state(&chain, "owner_id", &coins(1000, "meow"), "atom", 360);
    let exist_bal = vec![Balance::Native(coins(2, "atom"))];
    let non_exist_bal = vec![Balance::Native(coins(2, "shrute_bucks"))];

    let res_exec = store.update_settings(&"owner_id".to_string(), empty_patch());
    assert!(res_exec.is_ok());

    // try to move funds as non-owner
    let res_fail_1 = store.move_balances(
        &"michael_scott".to_string(),
        &chain,
        &non_exist_bal,
        &"scammer".to_string(),
    );
    match res_fail_1 {
        Err(ContractError::Unauthorized {}) => {}
        _ => panic!("Must return unauthorized error"),
    }

    // try to move funds to account other than treasury or owner
    let res_fail_2 =
        store.move_balances(&"owner_id".to_string(), &chain, &exist_bal, &"scammer".to_string());
    match res_fail_2 {
        Err(ContractError::CustomError { .. }) => {}
        _ => panic!("Must return unauthorized error"),
    }
}

#[test]
fn move_balances_native() {
    let chain = coins(200000000, "atom");
    let mut store = fresh_state(&chain, "owner_id", &coins(1000, "meow"), "atom", 360);
    let exist_bal = vec![Balance::Native(coins(2, "atom"))];
    let spensive_bal = vec![Balance::Native(coins(2000000000000, "atom"))];
    let money_bags = "owner_id".to_string();

    let res_exec = store.update_settings(&"owner_id".to_string(), empty_patch());
    assert!(res_exec.is_ok());

    // try to move funds with greater amount than native available
    let res_fail = store.move_balances(&"owner_id".to_string(), &chain, &spensive_bal, &money_bags);
    match res_fail {
        Err(ContractError::NotEnoughFunds {}) => {}
        _ => panic!("Must return custom not enough funds error"),
    }

    // try to move native available funds
    let res_exec = store
        .move_balances(&"owner_id".to_string(), &chain, &exist_bal, &money_bags)
        .unwrap();
    assert!(!res_exec.is_empty());
    assert_eq!(
        res_exec,
        vec![TransferMsg::Send { to_address: "owner_id".to_string(), amount: coins(2, "atom") }]
    );

    // it worked, let's query the state
    let balances = store.query_balances();
    assert_eq!(
        vec![coin(199999998, "atom"), coin(1000, "meow")],
        balances.available_balance.native
    );
}

#[test]
fn update_settings_patches_only_given_fields() {
    let mut store = fresh_state(&coins(200, "atom"), "creator", &[], "atom", 360);
    let before = store.clone();
    let payload = UpdateSettings { paused: Some(true), ..empty_patch() };
    let shown = store.update_settings(&"creator".to_string(), payload).unwrap();
    let mut expected = before.clone();
    expected.config.paused = true;
    assert_eq!(store, expected);
    assert_eq!(shown, store.query_config());
    assert_eq!(store.config.agents_eject_threshold, 600);

    let payload = UpdateSettings {
        owner_id: Some("dao".to_string()),
        slot_granularity: Some(7),
        paused: Some(false),
        agent_fee: Some(coin(9, "atom")),
        gas_price: Some(11),
        proxy_callback_gas: Some(13),
        min_tasks_per_agent: Some(4),
        agents_eject_threshold: Some(17),
    };
    let shown = store.update_settings(&"creator".to_string(), payload).unwrap();
    assert_eq!(shown.owner_id, "dao");
    assert_eq!(store.config.owner_id, "dao");
    assert_eq!(store.config.slot_granularity, 7);
    assert_eq!(store.config.paused, false);
    assert_eq!(store.config.agent_fee, coin(9, "atom"));
    assert_eq!(store.config.gas_price, 11);
    assert_eq!(store.config.proxy_callback_gas, 13);
    assert_eq!(store.config.min_tasks_per_agent, 4);
    assert_eq!(store.config.agents_eject_threshold, 17);
    assert_eq!(store.config.agent_nomination_duration, 360);
    assert_eq!(store.config.available_balance, before.config.available_balance);

    // the former owner has lost the role
    let res = store.update_settings(&"creator".to_string(), empty_patch());
    assert!(matches!(res, Err(ContractError::Unauthorized)));
}

#[test]
fn update_settings_by_stranger_changes_nothing() {
    let mut store = fresh_state(&coins(200, "atom"), "creator", &[], "atom", 360);
    let before = store.clone();
    let payload = UpdateSettings { paused: Some(true), gas_price: Some(9), ..empty_patch() };
    let res = store.update_settings(&"michael_scott".to_string(), payload);
    assert!(matches!(res, Err(ContractError::Unauthorized)));
    assert_eq!(store, before);
}

#[test]
fn update_settings_refuses_zero_tasks_per_agent() {
    let mut store = fresh_state(&coins(200, "atom"), "creator", &[], "atom", 360);
    let before = store.clone();
    let payload =
        UpdateSettings { paused: Some(true), min_tasks_per_agent: Some(0), ..empty_patch() };
    let res = store.update_settings(&"creator".to_string(), payload);
    assert!(matches!(res, Err(ContractError::InvalidConfiguration)));
    assert_eq!(store, before);
    assert!(store.config.is_valid());
}

#[test]
fn move_over_available_but_within_chain_balance_fails() {
    let chain = coins(1000, "atom");
    let mut store = fresh_state(&coins(100, "atom"), "owner_id", &[], "atom", 360);
    let before = store.clone();
    let owner = "owner_id".to_string();
    let res = store.move_balances(&owner, &chain, &vec![Balance::Native(coins(500, "atom"))], &owner);
    assert!(matches!(res, Err(ContractError::NotEnoughFunds)));
    assert_eq!(store, before);
}

#[test]
fn move_over_chain_balance_but_within_available_fails() {
    let chain = coins(100, "atom");
    let mut store = fresh_state(&coins(1000, "atom"), "owner_id", &[], "atom", 360);
    let before = store.clone();
    let owner = "owner_id".to_string();
    let res = store.move_balances(&owner, &chain, &vec![Balance::Native(coins(500, "atom"))], &owner);
    assert!(matches!(res, Err(ContractError::NotEnoughFunds)));
    assert_eq!(store, before);
    // a denomination the chain does not hold at all
    let res = store.move_balances(&owner, &chain, &vec![Balance::Native(coins(1, "meow"))], &owner);
    assert!(matches!(res, Err(ContractError::NotEnoughFunds)));
    assert_eq!(store, before);
}

#[test]
fn batch_with_one_invalid_movement_moves_nothing() {
    let chain = vec![coin(1000, "atom"), coin(1000, "meow")];
    let mut store = fresh_state(&chain, "owner_id", &[], "atom", 360);
    store.config.available_balance.cw20 =
        vec![Cw20CoinVerified { address: "token".to_string(), amount: 50 }];
    let before = store.clone();
    let owner = "owner_id".to_string();
    let batch = vec![
        Balance::Native(coins(10, "atom")),
        Balance::Cw20(Cw20CoinVerified { address: "token".to_string(), amount: 51 }),
        Balance::Native(coins(10, "meow")),
    ];
    let res = store.move_balances(&owner, &chain, &batch, &owner);
    assert!(matches!(res, Err(ContractError::NotEnoughFunds)));
    assert_eq!(store, before);
}

#[test]
fn batch_is_settled_in_order_on_the_running_ledger() {
    let chain = vec![coin(1000, "atom"), coin(1000, "meow")];
    let mut store = fresh_state(&chain, "owner_id", &[], "atom", 360);
    store.config.available_balance.cw20 =
        vec![Cw20CoinVerified { address: "token".to_string(), amount: 50 }];
    let owner = "owner_id".to_string();
    let batch = vec![
        Balance::Native(vec![coin(600, "atom"), coin(1, "meow")]),
        Balance::Cw20(Cw20CoinVerified { address: "token".to_string(), amount: 50 }),
        Balance::Native(coins(400, "atom")),
    ];
    let msgs = store.move_balances(&owner, &chain, &batch, &owner).unwrap();
    assert_eq!(
        msgs,
        vec![
            TransferMsg::Send {
                to_address: "owner_id".to_string(),
                amount: vec![coin(600, "atom"), coin(1, "meow")],
            },
            TransferMsg::Execute {
                contract_addr: "token".to_string(),
                msg: b"{\"transfer\":{\"recipient\":\"owner_id\",\"amount\":\"50\"}}".to_vec(),
            },
            TransferMsg::Send { to_address: "owner_id".to_string(), amount: coins(400, "atom") },
        ]
    );
    assert_eq!(store.config.available_balance.native, vec![coin(0, "atom"), coin(999, "meow")]);
    assert_eq!(
        store.config.available_balance.cw20,
        vec![Cw20CoinVerified { address: "token".to_string(), amount: 0 }]
    );

    // each movement alone is covered, the two together are not
    let mut store = fresh_state(&chain, "owner_id", &[], "atom", 360);
    let before = store.clone();
    let batch = vec![Balance::Native(coins(600, "atom")), Balance::Native(coins(600, "atom"))];
    let res = store.move_balances(&owner, &chain, &batch, &owner);
    assert!(matches!(res, Err(ContractError::NotEnoughFunds)));
    assert_eq!(store, before);
}

#[test]
fn move_of_unknown_token_fails() {
    let chain = coins(1000, "atom");
    let mut store = fresh_state(&chain, "owner_id", &[], "atom", 360);
    let before = store.clone();
    let owner = "owner_id".to_string();
    let batch = vec![Balance::Cw20(Cw20CoinVerified { address: "token".to_string(), amount: 0 })];
    let res = store.move_balances(&owner, &chain, &batch, &owner);
    assert!(matches!(res, Err(ContractError::NotEnoughFunds)));
    assert_eq!(store, before);
}

#[test]
fn move_to_stranger_names_the_rule() {
    let chain = coins(1000, "atom");
    let mut store = fresh_state(&chain, "owner_id", &[], "atom", 360);
    let before = store.clone();
    let res = store.move_balances(
        &"owner_id".to_string(),
        &chain,
        &vec![Balance::Native(coins(1, "atom"))],
        &"scammer".to_string(),
    );
    match res {
        Err(ContractError::CustomError { val }) => {
            assert_eq!(val, "Cannot move funds to this account")
        }
        _ => panic!("the destination must be refused"),
    }
    assert_eq!(store, before);
}

#[test]
fn empty_batch_moves_nothing() {
    let chain = coins(1000, "atom");
    let mut store = fresh_state(&chain, "owner_id", &[], "atom", 360);
    let before = store.clone();
    let owner = "owner_id".to_string();
    let msgs = store.move_balances(&owner, &chain, &vec![], &owner).unwrap();
    assert!(msgs.is_empty());
    assert_eq!(store, before);
}

#[test]
fn queries_show_the_state() {
    let mut store = fresh_state(&coins(7, "atom"), "creator", &coins(3, "meow"), "atom", 360);
    store.agent_nomination_begin_time = Some(42);
    store.config.cw20_whitelist = vec!["token".to_string()];
    store.config.staked_balance.native = coins(5, "atom");
    let c = store.query_config();
    assert_eq!(c.paused, false);
    assert_eq!(c.owner_id, "creator");
    assert_eq!(c.min_tasks_per_agent, 3);
    assert_eq!(c.agent_active_index, 0);
    assert_eq!(c.agents_eject_threshold, 600);
    assert_eq!(c.agent_fee, coin(5, "atom"));
    assert_eq!(c.gas_price, 1);
    assert_eq!(c.proxy_callback_gas, 3);
    assert_eq!(c.slot_granularity, 60_000_000_000);
    assert_eq!(c.native_denom, "atom");
    assert_eq!(c.agent_nomination_begin_time, Some(42));
    let b = store.query_balances();
    assert_eq!(b.native_denom, "atom");
    assert_eq!(b.available_balance.native, vec![coin(7, "atom"), coin(3, "meow")]);
    assert_eq!(b.staked_balance.native, coins(5, "atom"));
    assert_eq!(b.cw20_whitelist, vec!["token".to_string()]);
}
