//! The contract's state: its configuration, the two agent queues and the
//! start of the current nomination window.

use vstd::prelude::*;
use crate::types::{Coin, GenericBalance};

verus! {

/// The parameters of the scheduler and its two buckets of funds.
#[derive(Clone, Debug, PartialEq, Eq)]
pub struct Config {
    pub paused: bool,
    pub owner_id: String,
    /// Tasks that one agent is expected to cover.
    pub min_tasks_per_agent: u64,
    pub agent_active_index: u64,
    pub agents_eject_threshold: u64,
    /// Length of one nomination period, in seconds.
    pub agent_nomination_duration: u16,
    pub agent_fee: Coin,
    pub gas_price: u32,
    pub proxy_callback_gas: u32,
    pub slot_granularity: u64,
    pub native_denom: String,
    pub cw20_whitelist: Vec<String>,
    /// Spendable by the owner's moves; holds unclaimed rewards.
    pub available_balance: GenericBalance,
    /// Collateral.
    pub staked_balance: GenericBalance,
}

impl Config {
    /// The divisors of the admission rules are not zero.
    pub open spec fn wf(&self) -> bool {
        &&& self.min_tasks_per_agent > 0
        &&& self.agent_nomination_duration > 0
    }

    /// Whether the divisors of the admission rules are not zero.
    pub fn is_valid(&self) -> (valid: bool)
        ensures
            valid == self.wf(),
    {
        self.min_tasks_per_agent > 0 && self.agent_nomination_duration > 0
    }
}

/// The whole state that one call works on.
#[derive(Clone, Debug, PartialEq, Eq)]
pub struct CwCroncat {
    pub config: Config,
    /// Agents allowed to execute tasks, in order of admission.
    pub agent_active_queue: Vec<String>,
    /// Agents waiting for admission, first come first.
    pub agent_pending_queue: Vec<String>,
    /// When the current nomination window opened, in seconds; `None` while
    /// none is open.
    pub agent_nomination_begin_time: Option<u64>,
    /// Number of tasks currently scheduled.
    pub task_total: u64,
}

} // verus!
