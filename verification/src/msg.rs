//! Requests to the contract and its answers.

use vstd::prelude::*;
use crate::types::{Coin, GenericBalance};

verus! {

/// The configuration as a query shows it.
#[derive(Clone, Debug, PartialEq, Eq)]
pub struct ConfigResponse {
    pub paused: bool,
    pub owner_id: String,
    pub min_tasks_per_agent: u64,
    pub agent_active_index: u64,
    pub agents_eject_threshold: u64,
    pub agent_fee: Coin,
    pub gas_price: u32,
    pub proxy_callback_gas: u32,
    pub slot_granularity: u64,
    pub native_denom: String,
    pub agent_nomination_begin_time: Option<u64>,
}

/// The two buckets of funds as a query shows them.
#[derive(Clone, Debug, PartialEq, Eq)]
pub struct BalancesResponse {
    pub native_denom: String,
    pub available_balance: GenericBalance,
    pub staked_balance: GenericBalance,
    pub cw20_whitelist: Vec<String>,
}

/// The two agent queues.
#[derive(Clone, Debug, PartialEq, Eq)]
pub struct GetAgentIdsResponse {
    pub active: Vec<String>,
    pub pending: Vec<String>,
}

/// Two task counts of one agent.
#[derive(Clone, Debug, PartialEq, Eq)]
pub struct GetAgentTasksResponse(pub u64, pub u64);

/// A patch of the configuration: a field that is `None` leaves the
/// configuration's field as it is.
#[derive(Clone, Debug, PartialEq, Eq)]
pub struct UpdateSettings {
    pub owner_id: Option<String>,
    pub slot_granularity: Option<u64>,
    pub paused: Option<bool>,
    pub agent_fee: Option<Coin>,
    pub gas_price: Option<u32>,
    pub proxy_callback_gas: Option<u32>,
    pub min_tasks_per_agent: Option<u64>,
    pub agents_eject_threshold: Option<u64>,
}

} // verus!
