use cw_croncat::admission::AgentStatus;
use cw_croncat::error::ContractError;
use cw_croncat::helpers::position_of;
use cw_croncat::msg::{GetAgentIdsResponse, GetAgentTasksResponse};
use cw_croncat::state::{Config, CwCroncat};
use cw_croncat::types::{coin, GenericBalance};

fn ids(names: &[&str]) -> Vec<String> {
    names.iter().map(|n| n.to_string()).collect()
}

fn state(min_tasks: u64, duration: u16, active: &[&str], pending: &[&str], tasks: u64, begin: Option<u64>) -> CwCroncat {
    CwCroncat {
        config: Config {
            paused: false,
            owner_id: "owner".to_string(),
            min_tasks_per_agent: min_tasks,
            agent_active_index: 0,
            agents_eject_threshold: 600,
            agent_nomination_duration: duration,
            agent_fee: coin(5, "atom"),
            gas_price: 1,
            proxy_callback_gas: 3,
            slot_granularity: 60_000_000_000,
            native_denom: "atom".to_string(),
            cw20_whitelist: vec![],
            available_balance: GenericBalance { native: vec![], cw20: vec![] },
            staked_balance: GenericBalance { native: vec![], cw20: vec![] },
        },
        agent_active_queue: ids(active),
        agent_pending_queue: ids(pending),
        agent_nomination_begin_time: begin,
        task_total: tasks,
    }
}

fn status(s: &CwCroncat, at: u64, who: &str) -> AgentStatus {
    let active = s.agent_active_queue.clone();
    s.get_agent_status(at, &who.to_string(), &active).unwrap()
}

#[test]
fn no_backlog_lets_nobody_in() {
    let s = state(3, 360, &[], &[], 0, None);
    assert_eq!(s.agents_to_let_in(&1, &0, &0), 0);
    assert_eq!(s.agents_to_let_in(&10, &1, &10), 0);
    assert_eq!(s.agents_to_let_in(&10, &1, &9), 0);
    assert_eq!(s.agents_to_let_in(&10, &5, &0), 0);
    assert_eq!(s.agents_to_let_in(&u64::MAX, &u64::MAX, &u64::MAX), 0);
}

#[test]
fn backlog_is_divided_rounding_up() {
    let s = state(3, 360, &[], &[], 0, None);
    assert_eq!(s.agents_to_let_in(&2, &0, &5), 3);
    assert_eq!(s.agents_to_let_in(&2, &0, &4), 2);
    assert_eq!(s.agents_to_let_in(&10, &1, &25), 2);
    assert_eq!(s.agents_to_let_in(&10, &1, &11), 1);
    assert_eq!(s.agents_to_let_in(&10, &1, &20), 1);
    assert_eq!(s.agents_to_let_in(&10, &1, &21), 2);
    assert_eq!(s.agents_to_let_in(&1, &0, &u64::MAX), u64::MAX);
    assert_eq!(s.agents_to_let_in(&u64::MAX, &0, &u64::MAX), 1);
}

#[test]
fn two_slots_open_at_window_start() {
    let s = state(10, 360, &["a0"], &["p0", "p1", "p2", "p3"], 25, Some(1000));
    assert_eq!(status(&s, 1000, "a0"), AgentStatus::Active);
    assert_eq!(status(&s, 1000, "p0"), AgentStatus::Nominated);
    assert_eq!(status(&s, 1000, "p1"), AgentStatus::Nominated);
    assert_eq!(status(&s, 1000, "p2"), AgentStatus::Pending);
    assert_eq!(status(&s, 1000, "p3"), AgentStatus::Pending);
}

#[test]
fn elapsed_periods_open_further_places() {
    let s = state(10, 360, &["a0"], &["p0", "p1", "p2", "p3"], 25, Some(1000));
    assert_eq!(status(&s, 1000 + 719, "p2"), AgentStatus::Pending);
    assert_eq!(status(&s, 1000 + 720, "p2"), AgentStatus::Nominated);
    assert_eq!(status(&s, 1000 + 720, "p3"), AgentStatus::Pending);
    assert_eq!(status(&s, 1000 + 1080, "p3"), AgentStatus::Nominated);
    // a nomination is never taken back by time
    for at in [1000u64, 1359, 1360, 5000, u64::MAX] {
        assert_eq!(status(&s, at, "p0"), AgentStatus::Nominated);
        assert_eq!(status(&s, at, "p1"), AgentStatus::Nominated);
    }
}

#[test]
fn no_window_or_no_backlog_keeps_everyone_pending() {
    let s = state(10, 360, &["a0"], &["p0", "p1"], 25, None);
    assert_eq!(status(&s, 5000, "p0"), AgentStatus::Pending);
    let s = state(10, 360, &["a0"], &["p0", "p1"], 10, Some(0));
    assert_eq!(status(&s, 5000, "p0"), AgentStatus::Pending);
    let s = state(10, 360, &["a0"], &["p0", "p1"], 0, Some(0));
    assert_eq!(status(&s, 5000, "p0"), AgentStatus::Pending);
    assert_eq!(status(&s, 5000, "p1"), AgentStatus::Pending);
}

#[test]
fn unknown_agent_is_unregistered() {
    let s = state(10, 360, &["a0"], &["p0"], 25, Some(0));
    let res = s.get_agent_status(10, &"ghost".to_string(), &s.agent_active_queue.clone());
    assert!(matches!(res, Err(ContractError::AgentUnregistered)));
}

#[test]
fn active_list_decides_before_the_pending_queue() {
    let s = state(10, 360, &["a0"], &["p0", "p1", "p2"], 0, None);
    let res = s.get_agent_status(10, &"p2".to_string(), &ids(&["p2"]));
    assert_eq!(res.unwrap(), AgentStatus::Active);
    // the stored active queue counts for the backlog, the list handed in for membership
    let res = s.get_agent_status(10, &"a0".to_string(), &[]);
    assert!(matches!(res, Err(ContractError::AgentUnregistered)));
}

#[test]
fn asking_twice_gives_the_same_status() {
    let s = state(10, 360, &["a0"], &["p0", "p1", "p2"], 25, Some(1000));
    for who in ["a0", "p0", "p1", "p2"] {
        assert_eq!(status(&s, 1500, who), status(&s, 1500, who));
    }
}

#[test]
fn place_in_queue_is_the_first_match() {
    let q = ids(&["x", "y", "x"]);
    assert_eq!(position_of(&q, &"x".to_string()), Some(0));
    assert_eq!(position_of(&q, &"y".to_string()), Some(1));
    assert_eq!(position_of(&q, &"z".to_string()), None);
}

#[test]
fn responses_hold_their_fields() {
    let r = GetAgentTasksResponse(3, 4);
    assert_eq!((r.0, r.1), (3, 4));
    let r = GetAgentIdsResponse { active: ids(&["a"]), pending: ids(&["p"]) };
    assert_eq!(r.active, vec!["a"]);
    assert_eq!(r.pending, vec!["p"]);
}
