//! The admission rules: how many pending agents the backlog calls for, and
//! whether the agent at a given place in the pending queue may check in yet.

use vstd::prelude::*;

verus! {

/// What an agent may currently do. Derived from the queues on every query,
/// never stored.
#[derive(Clone, Copy, Debug, PartialEq, Eq, Structural)]
pub enum AgentStatus {
    /// In the active queue: may execute tasks and collect rewards.
    Active,
    /// In the pending queue, turn not yet arrived.
    Pending,
    /// In the pending queue and allowed to check in.
    Nominated,
}

/// Tasks that the active agents cannot cover, each agent taking `per_agent`.
pub open spec fn backlog(total_tasks: nat, num_active_agents: nat, per_agent: nat) -> nat {
    if total_tasks > num_active_agents * per_agent {
        (total_tasks - num_active_agents * per_agent) as nat
    } else {
        0
    }
}

/// Agents needed to take up `backlog` tasks at `per_agent` tasks each: the
/// quotient, plus one where the division leaves a remainder.
pub open spec fn slots_to_open(backlog: nat, per_agent: nat) -> nat
    recommends
        per_agent > 0,
{
    if backlog == 0 {
        0
    } else if backlog % per_agent == 0 {
        backlog / per_agent
    } else {
        backlog / per_agent + 1
    }
}

/// The last place in the pending queue that may check in: whichever is
/// larger of the number of whole nomination periods elapsed and the last of
/// the open slots.
pub open spec fn max_admittable_index(elapsed: nat, duration: nat, slots: nat) -> nat
    recommends
        duration > 0,
        slots > 0,
{
    let by_time = elapsed / duration;
    let by_slots = (slots - 1) as nat;
    if by_time >= by_slots {
        by_time
    } else {
        by_slots
    }
}

/// Status of the pending agent at `position` of the queue.
pub open spec fn pending_status(
    position: nat,
    slots: nat,
    begin_time: Option<u64>,
    block_time: nat,
    duration: nat,
) -> AgentStatus {
    match begin_time {
        Some(begin) if slots > 0 => {
            if position <= max_admittable_index((block_time - begin) as nat, duration, slots) {
                AgentStatus::Nominated
            } else {
                AgentStatus::Pending
            }
        },
        _ => AgentStatus::Pending,
    }
}

/// With no backlog no slot opens, whatever the capacity of an agent.
pub proof fn no_backlog_opens_no_slot(per_agent: nat)
    requires
        per_agent > 0,
    ensures
        slots_to_open(0, per_agent) == 0,
{
}

/// For a backlog the number of slots is the ceiling of `backlog / per_agent`:
/// the least number of agents whose joint capacity reaches the backlog.
pub proof fn slots_are_ceiling(backlog: nat, per_agent: nat)
    requires
        backlog > 0,
        per_agent > 0,
    ensures
        slots_to_open(backlog, per_agent) >= 1,
        slots_to_open(backlog, per_agent) * per_agent >= backlog,
        (slots_to_open(backlog, per_agent) - 1) * per_agent < backlog,
        slots_to_open(backlog, per_agent) == (backlog + per_agent - 1) / (per_agent as int),
{
    let q = backlog / per_agent;
    let r = backlog % per_agent;
    let s = slots_to_open(backlog, per_agent);
    assert(backlog == q * per_agent + r && 0 <= r < per_agent) by (nonlinear_arith)
        requires
            per_agent > 0,
            q == backlog / per_agent,
            r == backlog % per_agent,
    ;
    assert(s * per_agent >= backlog && (s - 1) * per_agent < backlog && s >= 1) by (nonlinear_arith)
        requires
            backlog == q * per_agent + r,
            0 <= r < per_agent,
            backlog > 0,
            s == if r == 0 { q } else { q + 1 },
    ;
    assert(s == (backlog + per_agent - 1) / (per_agent as int)) by (nonlinear_arith)
        requires
            backlog == q * per_agent + r,
            0 <= r < per_agent,
            per_agent > 0,
            s == if r == 0 { q } else { q + 1 },
    ;
}

/// A later block time never takes a nomination back: with the other inputs
/// fixed, an agent nominated at `earlier` is nominated at `later`.
pub proof fn nomination_is_monotonic(
    position: nat,
    slots: nat,
    begin_time: Option<u64>,
    earlier: nat,
    later: nat,
    duration: nat,
)
    requires
        duration > 0,
        earlier <= later,
        begin_time matches Some(begin) ==> begin <= earlier,
        pending_status(position, slots, begin_time, earlier, duration) == AgentStatus::Nominated,
    ensures
        pending_status(position, slots, begin_time, later, duration) == AgentStatus::Nominated,
{
    let begin = begin_time->Some_0;
    let e1 = (earlier - begin) as nat;
    let e2 = (later - begin) as nat;
    assert(e1 / duration <= e2 / duration) by (nonlinear_arith)
        requires
            e1 <= e2,
            duration > 0,
    ;
}

} // verus!
