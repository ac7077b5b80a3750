//! Agent status, the number of agents to let in, and the messages that pay a
//! balance out.

use vstd::prelude::*;
use crate::admission::{
    backlog, nomination_is_monotonic, pending_status, slots_are_ceiling, slots_to_open, AgentStatus,
};
use crate::error::ContractError;
use crate::host::{cw20_transfer_json, encode_cw20_transfer};
use crate::ledger::{find_token, has_at_least};
use crate::state::CwCroncat;
use crate::types::{
    duplicate_coins, token_entries, transfer_views, Cw20CoinVerified, Entry, GenericBalance,
    TransferMsg, TransferView,
};

verus! {

/// `i` is the first place of `id` in `queue`.
pub open spec fn queued_at(queue: Seq<String>, id: Seq<char>, i: int) -> bool {
    &&& 0 <= i < queue.len()
    &&& queue[i]@ == id
    &&& forall|j: int| 0 <= j < i ==> (#[trigger] queue[j])@ != id
}

/// The first place of `id` in `queue`, if it is there.
pub open spec fn queue_place(queue: Seq<String>, id: Seq<char>) -> Option<int> {
    if exists|i: int| queued_at(queue, id, i) {
        Some(choose|i: int| queued_at(queue, id, i))
    } else {
        None
    }
}

/// The first place of `id` in `queue`.
pub fn position_of(queue: &[String], id: &String) -> (place: Option<usize>)
    ensures
        match place {
            Some(i) => queue_place(queue@, id@) == Some(i as int),
            None => queue_place(queue@, id@) is None,
        },
{
    let mut i: usize = 0;
    while i < queue.len()
        invariant
            i <= queue.len(),
            forall|j: int| 0 <= j < i ==> (#[trigger] queue@[j])@ != id@,
        decreases queue.len() - i,
    {
        if queue[i] == *id {
            proof {
                let c = choose|c: int| queued_at(queue@, id@, c);
                assert(queued_at(queue@, id@, i as int));
                if c < i {
                    assert(queue@[c]@ != id@);
                }
                if i < c {
                    assert(queue@[i as int]@ == id@);
                }
            }
            return Some(i);
        }
        i += 1;
    }
    proof {
        if exists|c: int| queued_at(queue@, id@, c) {
            let c = choose|c: int| queued_at(queue@, id@, c);
            assert(queue@[c]@ != id@);
        }
    }
    None
}

/// The messages that call each token's contract to transfer its amount to
/// `to`, in the order of `tokens`, provided each of them can be serialised.
pub open spec fn token_transfers(tokens: Seq<Entry>, to: Seq<char>) -> Option<Seq<TransferView>> {
    if forall|i: int|
        0 <= i < tokens.len() ==> cw20_transfer_json(to, (#[trigger] tokens[i]).amount) is Some {
        Some(
            Seq::new(
                tokens.len(),
                |i: int|
                    TransferView::Execute {
                        contract: tokens[i].key,
                        msg: cw20_transfer_json(to, tokens[i].amount)->Some_0,
                    },
            ),
        )
    } else {
        None
    }
}

/// The message that sends the native coins of a balance to `to`: one send of
/// all of them, none where there are no coins.
pub open spec fn native_transfer(native: Seq<Entry>, to: Seq<char>) -> Seq<TransferView> {
    if native.len() == 0 {
        Seq::empty()
    } else {
        seq![TransferView::Send { to: to, amount: native }]
    }
}

/// The call of the token contract at `contract_addr` that carries the
/// serialised transfer `encoded`; the host's error where serialising failed.
pub fn token_transfer_msg(
    contract_addr: &String,
    encoded: Result<Vec<u8>, cosmwasm_std::StdError>,
) -> (r: Result<TransferMsg, ContractError>)
    ensures
        match encoded {
            Ok(bytes) => r matches Ok(m) && m@ == (TransferView::Execute {
                contract: contract_addr@,
                msg: bytes@,
            }),
            Err(e) => r == Err::<TransferMsg, ContractError>(ContractError::Std(e)),
        },
{
    match encoded {
        Ok(bytes) => Ok(TransferMsg::Execute { contract_addr: contract_addr.clone(), msg: bytes }),
        Err(e) => Err(ContractError::Std(e)),
    }
}

/// The messages that pay `balance` out to `to`, with a copy of what they
/// carry: one send of all the native coins, where there are any, then one
/// transfer call for each token amount.
pub fn send_tokens(to: &String, balance: &GenericBalance) -> (r: Result<
    (Vec<TransferMsg>, GenericBalance),
    ContractError,
>)
    ensures
        match token_transfers(balance@.cw20, to@) {
            Some(calls) => r matches Ok((msgs, coins)) && transfer_views(msgs@) == native_transfer(
                balance@.native,
                to@,
            ) + calls && coins@ == balance@,
            None => r matches Err(ContractError::Std(_)),
        },
{
    let mut msgs: Vec<TransferMsg> = Vec::new();
    if balance.native.len() > 0 {
        msgs.push(
            TransferMsg::Send { to_address: to.clone(), amount: duplicate_coins(&balance.native) },
        );
    }
    assert(transfer_views(msgs@) =~= native_transfer(balance@.native, to@));
    let ghost sends = transfer_views(msgs@);
    let mut i: usize = 0;
    while i < balance.cw20.len()
        invariant
            i <= balance.cw20.len(),
            transfer_views(msgs@).len() == sends.len() + i,
            transfer_views(msgs@).take(sends.len() as int) == sends,
            forall|j: int|
                0 <= j < i ==> {
                    &&& cw20_transfer_json(to@, (#[trigger] balance@.cw20[j]).amount) is Some
                    &&& transfer_views(msgs@)[sends.len() + j] == (TransferView::Execute {
                        contract: balance@.cw20[j].key,
                        msg: cw20_transfer_json(to@, balance@.cw20[j].amount)->Some_0,
                    })
                },
        decreases balance.cw20.len() - i,
    {
        let token = &balance.cw20[i];
        let ghost before = transfer_views(msgs@);
        assert(balance@.cw20[i as int] == token@);
        match token_transfer_msg(&token.address, encode_cw20_transfer(to, token.amount)) {
            Ok(m) => {
                msgs.push(m);
                assert(transfer_views(msgs@) =~= before.push(m@));
                assert(transfer_views(msgs@).take(sends.len() as int) =~= before.take(
                    sends.len() as int,
                ));
            },
            Err(e) => {
                return Err(e);
            },
        }
        i += 1;
    }
    let coins = balance.duplicate();
    assert(transfer_views(msgs@) =~= sends + token_transfers(balance@.cw20, to@)->Some_0);
    Ok((msgs, coins))
}

/// Whether `coins` holds at least the amount of `required`, under its first
/// entry of that token.
pub fn has_cw_coins(coins: &[Cw20CoinVerified], required: &Cw20CoinVerified) -> (held: bool)
    ensures
        held == has_at_least(token_entries(coins@), required@),
{
    match find_token(coins, &required.address) {
        Some(i) => coins[i].amount >= required.amount,
        None => false,
    }
}

impl CwCroncat {
    /// The number of pending agents that the current backlog calls for.
    pub open spec fn open_slots(&self) -> nat {
        slots_to_open(
            backlog(
                self.task_total as nat,
                self.agent_active_queue@.len(),
                self.config.min_tasks_per_agent as nat,
            ),
            self.config.min_tasks_per_agent as nat,
        )
    }

    /// The status of `account` at `block_time`: active where `active` lists
    /// it; else, where the pending queue lists it, what its place there and
    /// the nomination window give; else unregistered.
    pub open spec fn agent_status(
        &self,
        account: Seq<char>,
        active: Seq<String>,
        block_time: u64,
    ) -> Result<AgentStatus, ContractError> {
        if queue_place(active, account) is Some {
            Ok(AgentStatus::Active)
        } else {
            match queue_place(self.agent_pending_queue@, account) {
                Some(place) => Ok(
                    pending_status(
                        place as nat,
                        self.open_slots(),
                        self.agent_nomination_begin_time,
                        block_time as nat,
                        self.config.agent_nomination_duration as nat,
                    ),
                ),
                None => Err(ContractError::AgentUnregistered),
            }
        }
    }

    /// The status of the agent `account_id` at `block_time`, `active` being
    /// the agents to take for active.
    pub fn get_agent_status(&self, block_time: u64, account_id: &String, active: &[String]) -> (r:
        Result<AgentStatus, ContractError>)
        requires
            self.config.wf(),
            self.agent_nomination_begin_time matches Some(begin) ==> begin <= block_time,
        ensures
            r == self.agent_status(account_id@, active@, block_time),
    {
        if position_of(active, account_id).is_some() {
            return Ok(AgentStatus::Active);
        }
        match position_of(self.agent_pending_queue.as_slice(), account_id) {
            Some(agent_position) => {
                let min_tasks_per_agent: u64 = self.config.min_tasks_per_agent;
                let total_tasks: u64 = self.task_total;
                let num_active_agents: u64 = self.agent_active_queue.len() as u64;
                let num_agents_to_accept: u64 = self.agents_to_let_in(
                    &min_tasks_per_agent,
                    &num_active_agents,
                    &total_tasks,
                );
                match self.agent_nomination_begin_time {
                    Some(begin_time) if num_agents_to_accept > 0 => {
                        let time_difference: u64 = block_time - begin_time;
                        let by_time: u64 = time_difference / (
                        self.config.agent_nomination_duration as u64);
                        let by_slots: u64 = num_agents_to_accept - 1;
                        let max_index: u64 = if by_time >= by_slots {
                            by_time
                        } else {
                            by_slots
                        };
                        if agent_position as u64 <= max_index {
                            Ok(AgentStatus::Nominated)
                        } else {
                            Ok(AgentStatus::Pending)
                        }
                    },
                    _ => Ok(AgentStatus::Pending),
                }
            },
            None => Err(ContractError::AgentUnregistered),
        }
    }

    /// The number of pending agents to let in when `num_active_agents`
    /// agents each cover `max_tasks` of `total_tasks` tasks.
    pub fn agents_to_let_in(&self, max_tasks: &u64, num_active_agents: &u64, total_tasks: &u64) -> (slots:
        u64)
        requires
            *max_tasks > 0,
        ensures
            slots == slots_to_open(
                backlog(*total_tasks as nat, *num_active_agents as nat, *max_tasks as nat),
                *max_tasks as nat,
            ),
    {
        assert(*num_active_agents * *max_tasks <= 0xffff_ffff_ffff_ffff * 0xffff_ffff_ffff_ffff)
            by (nonlinear_arith)
            requires
                *num_active_agents <= 0xffff_ffff_ffff_ffff,
                *max_tasks <= 0xffff_ffff_ffff_ffff,
        ;
        let num_tasks_covered: u128 = (*num_active_agents as u128) * (*max_tasks as u128);
        if (*total_tasks as u128) > num_tasks_covered {
            let total_tasks_needing_agents: u64 = *total_tasks - (num_tasks_covered as u64);
            let remainder: u64 = if total_tasks_needing_agents % *max_tasks == 0 {
                0
            } else {
                1
            };
            proof {
                slots_are_ceiling(total_tasks_needing_agents as nat, *max_tasks as nat);
            }
            total_tasks_needing_agents / *max_tasks + remainder
        } else {
            0
        }
    }
}

/// The status is a function of the account, the agents taken for active,
/// the pending queue, the backlog's inputs, the nomination window and the
/// block time: two states that agree on these give the same answer, and so
/// does asking one state twice.
pub proof fn agent_status_is_determined(
    a: CwCroncat,
    b: CwCroncat,
    account: Seq<char>,
    active: Seq<String>,
    block_time: u64,
)
    requires
        a.agent_pending_queue@ == b.agent_pending_queue@,
        a.agent_active_queue@.len() == b.agent_active_queue@.len(),
        a.task_total == b.task_total,
        a.config.min_tasks_per_agent == b.config.min_tasks_per_agent,
        a.config.agent_nomination_duration == b.config.agent_nomination_duration,
        a.agent_nomination_begin_time == b.agent_nomination_begin_time,
    ensures
        a.agent_status(account, active, block_time) == b.agent_status(account, active, block_time),
{
}

/// Time alone takes no nomination back, and no activity: an agent that is
/// nominated, or active, at one block time is so at every later one, the
/// state being the same.
pub proof fn nominated_stays_nominated(
    state: CwCroncat,
    account: Seq<char>,
    active: Seq<String>,
    earlier: u64,
    later: u64,
)
    requires
        state.config.wf(),
        earlier <= later,
        state.agent_nomination_begin_time matches Some(begin) ==> begin <= earlier,
    ensures
        state.agent_status(account, active, earlier) == Ok::<AgentStatus, ContractError>(
            AgentStatus::Nominated,
        ) ==> state.agent_status(account, active, later) == Ok::<AgentStatus, ContractError>(
            AgentStatus::Nominated,
        ),
        state.agent_status(account, active, earlier) == Ok::<AgentStatus, ContractError>(
            AgentStatus::Active,
        ) ==> state.agent_status(account, active, later) == Ok::<AgentStatus, ContractError>(
            AgentStatus::Active,
        ),
{
    if state.agent_status(account, active, earlier) == Ok::<AgentStatus, ContractError>(
        AgentStatus::Nominated,
    ) {
        let place = queue_place(state.agent_pending_queue@, account)->Some_0;
        nomination_is_monotonic(
            place as nat,
            state.open_slots(),
            state.agent_nomination_begin_time,
            earlier as nat,
            later as nat,
            state.config.agent_nomination_duration as nat,
        );
    }
}

/// The address of a deployed contract, with helpers to address it.
#[derive(Clone, Debug, PartialEq, Eq)]
pub struct CwTemplateContract(pub String);

impl CwTemplateContract {
    /// The contract's address.
    pub fn addr(&self) -> (a: String)
        ensures
            a@ == self.0@,
    {
        self.0.clone()
    }
}

} // verus!
