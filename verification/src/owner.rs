//! What the owner may do: read the configuration and the balances, patch the
//! settings, and move available funds out.

use vstd::prelude::*;
use crate::error::ContractError;
use crate::host::{cw20_transfer_json, encode_cw20_transfer, has_coins};
use crate::helpers::{has_cw_coins, token_transfer_msg};
use crate::ledger::{
    batch_keeps_keys_distinct, debit, debit_all, debit_coins, debit_token, has_at_least, has_each,
    keys_stay_distinct, one_entry_each,
};
use crate::msg::{BalancesResponse, ConfigResponse, UpdateSettings};
use crate::state::{Config, CwCroncat};
use crate::types::{
    coin_entries, duplicate_addresses, duplicate_coins, movement_views, transfer_views, Balance,
    Coin, Entry, GenericBalance, LedgerView, MovementView, TransferMsg, TransferView,
};

verus! {

/// Why a move of balances is refused.
pub enum Refusal {
    /// The caller is not the owner.
    Unauthorized,
    /// The funds would go to an account other than the owner's.
    Destination,
    /// The contract's account or the available balance does not cover a
    /// movement.
    Funds,
    /// A token transfer could not be serialised.
    Encoding,
}

/// The error that reports `refusal`.
pub open spec fn reports(e: ContractError, refusal: Refusal) -> bool {
    match refusal {
        Refusal::Unauthorized => e == ContractError::Unauthorized,
        Refusal::Destination => e matches ContractError::CustomError { val } && val@
            == "Cannot move funds to this account"@,
        Refusal::Funds => e == ContractError::NotEnoughFunds,
        Refusal::Encoding => e is Std,
    }
}

/// `config` with every field that `patch` gives replaced by it.
pub open spec fn patched(config: Config, patch: UpdateSettings) -> Config {
    Config {
        paused: match patch.paused {
            Some(v) => v,
            None => config.paused,
        },
        owner_id: match patch.owner_id {
            Some(v) => v,
            None => config.owner_id,
        },
        min_tasks_per_agent: match patch.min_tasks_per_agent {
            Some(v) => v,
            None => config.min_tasks_per_agent,
        },
        agents_eject_threshold: match patch.agents_eject_threshold {
            Some(v) => v,
            None => config.agents_eject_threshold,
        },
        agent_fee: match patch.agent_fee {
            Some(v) => v,
            None => config.agent_fee,
        },
        gas_price: match patch.gas_price {
            Some(v) => v,
            None => config.gas_price,
        },
        proxy_callback_gas: match patch.proxy_callback_gas {
            Some(v) => v,
            None => config.proxy_callback_gas,
        },
        slot_granularity: match patch.slot_granularity {
            Some(v) => v,
            None => config.slot_granularity,
        },
        ..config
    }
}

/// The ledger and the instruction that one movement to `to` leaves, `chain`
/// being what the contract's account holds on chain: each native coin must be
/// covered on chain, and the whole movement by the ledger.
pub open spec fn settle_one(
    ledger: LedgerView,
    chain: Seq<Entry>,
    movement: MovementView,
    to: Seq<char>,
) -> Result<(LedgerView, TransferView), Refusal> {
    match movement {
        MovementView::Native(coins) => if !has_each(chain, coins) {
            Err(Refusal::Funds)
        } else {
            match debit_all(ledger.native, coins) {
                Some(native) => Ok(
                    (
                        LedgerView { native: native, cw20: ledger.cw20 },
                        TransferView::Send { to: to, amount: coins },
                    ),
                ),
                None => Err(Refusal::Funds),
            }
        },
        MovementView::Token(token) => match debit(ledger.cw20, token) {
            Some(cw20) => match cw20_transfer_json(to, token.amount) {
                Some(bytes) => Ok(
                    (
                        LedgerView { native: ledger.native, cw20: cw20 },
                        TransferView::Execute { contract: token.key, msg: bytes },
                    ),
                ),
                None => Err(Refusal::Encoding),
            },
            None => Err(Refusal::Funds),
        },
    }
}

/// The ledger and the instructions that a batch of movements leaves, each
/// movement settled on the ledger that the ones before it left; the refusal
/// of the first movement that cannot be settled.
pub open spec fn settle(
    ledger: LedgerView,
    chain: Seq<Entry>,
    movements: Seq<MovementView>,
    to: Seq<char>,
) -> Result<(LedgerView, Seq<TransferView>), Refusal>
    decreases movements.len(),
{
    if movements.len() == 0 {
        Ok((ledger, Seq::empty()))
    } else {
        match settle(ledger, chain, movements.drop_last(), to) {
            Ok((reached, transfers)) => match settle_one(reached, chain, movements.last(), to) {
                Ok((left, transfer)) => Ok((left, transfers.push(transfer))),
                Err(refusal) => Err(refusal),
            },
            Err(refusal) => Err(refusal),
        }
    }
}

/// What a move of `movements` to `to` by `sender` comes to.
pub open spec fn move_outcome(
    owner: Seq<char>,
    ledger: LedgerView,
    sender: Seq<char>,
    chain: Seq<Entry>,
    movements: Seq<MovementView>,
    to: Seq<char>,
) -> Result<(LedgerView, Seq<TransferView>), Refusal> {
    if sender != owner {
        Err(Refusal::Unauthorized)
    } else if to != owner {
        Err(Refusal::Destination)
    } else {
        settle(ledger, chain, movements, to)
    }
}

/// A batch fails as a whole: once the first `k` movements are refused, the
/// batch is refused in the same way whatever follows them.
pub proof fn refused_prefix_refuses_batch(
    ledger: LedgerView,
    chain: Seq<Entry>,
    movements: Seq<MovementView>,
    to: Seq<char>,
    k: int,
)
    requires
        0 <= k <= movements.len(),
        settle(ledger, chain, movements.take(k), to) is Err,
    ensures
        settle(ledger, chain, movements, to) == settle(ledger, chain, movements.take(k), to),
    decreases movements.len() - k,
{
    if k == movements.len() {
        assert(movements.take(k) =~= movements);
    } else {
        assert(movements.take(k + 1).drop_last() =~= movements.take(k));
        refused_prefix_refuses_batch(ledger, chain, movements, to, k + 1);
    }
}

/// A batch with a movement that cannot be settled on the ledger that the
/// movements before it left is refused, however many valid movements stand
/// before and after it.
pub proof fn one_invalid_movement_refuses_batch(
    ledger: LedgerView,
    chain: Seq<Entry>,
    movements: Seq<MovementView>,
    to: Seq<char>,
    k: int,
)
    requires
        0 <= k < movements.len(),
        settle(ledger, chain, movements.take(k), to) matches Ok((reached, _)) && settle_one(
            reached,
            chain,
            movements[k],
            to,
        ) is Err,
    ensures
        settle(ledger, chain, movements, to) is Err,
{
    assert(movements.take(k + 1).drop_last() =~= movements.take(k));
    refused_prefix_refuses_batch(ledger, chain, movements, to, k + 1);
}

/// A settlement leaves a ledger with one entry for each denomination and
/// token in that form.
pub proof fn settlement_keeps_one_entry_each(
    ledger: LedgerView,
    chain: Seq<Entry>,
    movements: Seq<MovementView>,
    to: Seq<char>,
)
    requires
        one_entry_each(ledger),
    ensures
        settle(ledger, chain, movements, to) matches Ok((left, _)) ==> one_entry_each(left),
    decreases movements.len(),
{
    if movements.len() > 0 {
        settlement_keeps_one_entry_each(ledger, chain, movements.drop_last(), to);
        if let Ok((reached, _)) = settle(ledger, chain, movements.drop_last(), to) {
            match movements.last() {
                MovementView::Native(coins) => {
                    batch_keeps_keys_distinct(reached.native, coins);
                },
                MovementView::Token(token) => {
                    keys_stay_distinct(reached.cw20, token);
                },
            }
        }
    }
}

/// A patch that gives `paused` alone changes `paused` alone.
pub proof fn pause_patch_changes_only_paused(config: Config, paused: bool)
    ensures
        patched(
            config,
            UpdateSettings {
                owner_id: None,
                slot_granularity: None,
                paused: Some(paused),
                agent_fee: None,
                gas_price: None,
                proxy_callback_gas: None,
                min_tasks_per_agent: None,
                agents_eject_threshold: None,
            },
        ) == (Config { paused: paused, ..config }),
{
}

/// Whether `chain` covers each coin of `coins`.
pub fn covers_each(chain: &Vec<Coin>, coins: &Vec<Coin>) -> (covered: bool)
    ensures
        covered == has_each(coin_entries(chain@), coin_entries(coins@)),
{
    let mut i: usize = 0;
    while i < coins.len()
        invariant
            i <= coins.len(),
            forall|j: int|
                0 <= j < i ==> has_at_least(
                    coin_entries(chain@),
                    #[trigger] coin_entries(coins@)[j],
                ),
        decreases coins.len() - i,
    {
        if !has_coins(chain, &coins[i]) {
            assert(!has_at_least(coin_entries(chain@), coin_entries(coins@)[i as int]));
            return false;
        }
        assert(coin_entries(coins@)[i as int] == coins@[i as int]@);
        i += 1;
    }
    true
}

/// Settles one movement on `draft`. Where it is refused, `draft` is to be
/// thrown away.
fn settle_movement(
    draft: &mut GenericBalance,
    chain: &Vec<Coin>,
    movement: &Balance,
    to: &String,
) -> (r: Result<TransferMsg, ContractError>)
    ensures
        match settle_one(old(draft)@, coin_entries(chain@), movement@, to@) {
            Ok((left, transfer)) => r matches Ok(m) && m@ == transfer && final(draft)@ == left,
            Err(refusal) => r matches Err(e) && reports(e, refusal),
        },
{
    match movement {
        Balance::Native(coins) => {
            if !covers_each(chain, coins) {
                return Err(ContractError::NotEnoughFunds);
            }
            if !debit_coins(&mut draft.native, coins) {
                return Err(ContractError::NotEnoughFunds);
            }
            Ok(TransferMsg::Send { to_address: to.clone(), amount: duplicate_coins(coins) })
        },
        Balance::Cw20(token) => {
            if !has_cw_coins(draft.cw20.as_slice(), token) {
                return Err(ContractError::NotEnoughFunds);
            }
            let msg = token_transfer_msg(
                &token.address,
                encode_cw20_transfer(to, token.amount),
            )?;
            let done = debit_token(&mut draft.cw20, token);
            assert(done);
            Ok(msg)
        },
    }
}

impl CwCroncat {
    /// The configuration as a query shows it.
    pub open spec fn config_response(&self) -> ConfigResponse {
        ConfigResponse {
            paused: self.config.paused,
            owner_id: self.config.owner_id,
            min_tasks_per_agent: self.config.min_tasks_per_agent,
            agent_active_index: self.config.agent_active_index,
            agents_eject_threshold: self.config.agents_eject_threshold,
            agent_fee: self.config.agent_fee,
            gas_price: self.config.gas_price,
            proxy_callback_gas: self.config.proxy_callback_gas,
            slot_granularity: self.config.slot_granularity,
            native_denom: self.config.native_denom,
            agent_nomination_begin_time: self.agent_nomination_begin_time,
        }
    }

    /// The configuration's public fields and the start of the nomination
    /// window.
    pub fn query_config(&self) -> (r: ConfigResponse)
        ensures
            r == self.config_response(),
    {
        ConfigResponse {
            paused: self.config.paused,
            owner_id: self.config.owner_id.clone(),
            min_tasks_per_agent: self.config.min_tasks_per_agent,
            agent_active_index: self.config.agent_active_index,
            agents_eject_threshold: self.config.agents_eject_threshold,
            agent_fee: self.config.agent_fee.duplicate(),
            gas_price: self.config.gas_price,
            proxy_callback_gas: self.config.proxy_callback_gas,
            slot_granularity: self.config.slot_granularity,
            native_denom: self.config.native_denom.clone(),
            agent_nomination_begin_time: self.agent_nomination_begin_time,
        }
    }

    /// The two buckets of funds, entry for entry, with the native
    /// denomination and the token whitelist.
    pub fn query_balances(&self) -> (r: BalancesResponse)
        ensures
            r.native_denom == self.config.native_denom,
            r.available_balance.native@ == self.config.available_balance.native@,
            r.available_balance.cw20@ == self.config.available_balance.cw20@,
            r.staked_balance.native@ == self.config.staked_balance.native@,
            r.staked_balance.cw20@ == self.config.staked_balance.cw20@,
            r.cw20_whitelist@ == self.config.cw20_whitelist@,
    {
        BalancesResponse {
            native_denom: self.config.native_denom.clone(),
            available_balance: self.config.available_balance.duplicate(),
            staked_balance: self.config.staked_balance.duplicate(),
            cw20_whitelist: duplicate_addresses(&self.config.cw20_whitelist),
        }
    }

    /// Patches the configuration with the fields that `payload` gives and
    /// answers with the new configuration. Only the owner may; a patch that
    /// sets the tasks per agent to zero is refused. A refused call changes
    /// nothing.
    pub fn update_settings(&mut self, sender: &String, payload: UpdateSettings) -> (r: Result<
        ConfigResponse,
        ContractError,
    >)
        ensures
            sender@ != old(self).config.owner_id@ ==> r == Err::<ConfigResponse, ContractError>(
                ContractError::Unauthorized,
            ) && *final(self) == *old(self),
            sender@ == old(self).config.owner_id@ && payload.min_tasks_per_agent == Some(0u64)
                ==> r == Err::<ConfigResponse, ContractError>(ContractError::InvalidConfiguration)
                && *final(self) == *old(self),
            sender@ == old(self).config.owner_id@ && payload.min_tasks_per_agent != Some(0u64)
                ==> r == Ok::<ConfigResponse, ContractError>(final(self).config_response())
                && *final(self) == (CwCroncat {
                config: patched(old(self).config, payload),
                ..*old(self)
            }),
            old(self).config.wf() ==> final(self).config.wf(),
    {
        if *sender != self.config.owner_id {
            return Err(ContractError::Unauthorized);
        }
        if let Some(v) = payload.min_tasks_per_agent {
            if v == 0 {
                return Err(ContractError::InvalidConfiguration);
            }
            self.config.min_tasks_per_agent = v;
        }
        if let Some(v) = payload.paused {
            self.config.paused = v;
        }
        if let Some(v) = payload.owner_id {
            self.config.owner_id = v;
        }
        if let Some(v) = payload.agents_eject_threshold {
            self.config.agents_eject_threshold = v;
        }
        if let Some(v) = payload.agent_fee {
            self.config.agent_fee = v;
        }
        if let Some(v) = payload.gas_price {
            self.config.gas_price = v;
        }
        if let Some(v) = payload.proxy_callback_gas {
            self.config.proxy_callback_gas = v;
        }
        if let Some(v) = payload.slot_granularity {
            self.config.slot_granularity = v;
        }
        Ok(self.query_config())
    }

    /// Moves `balances` out of the available balance to `account_id`, which
    /// must be the owner, as must `sender`. `state_balances` is what the
    /// contract's account holds on chain at the time of the call. Each
    /// movement is settled on the ledger that the ones before it left; the
    /// answer holds one instruction for each, in order. Where any check
    /// fails, nothing changes and no instruction is given.
    pub fn move_balances(
        &mut self,
        sender: &String,
        state_balances: &Vec<Coin>,
        balances: &Vec<Balance>,
        account_id: &String,
    ) -> (r: Result<Vec<TransferMsg>, ContractError>)
        ensures
            match move_outcome(
                old(self).config.owner_id@,
                old(self).config.available_balance@,
                sender@,
                coin_entries(state_balances@),
                movement_views(balances@),
                account_id@,
            ) {
                Ok((left, transfers)) => {
                    &&& r matches Ok(msgs) && transfer_views(msgs@) == transfers
                    &&& final(self).config.available_balance@ == left
                    &&& *final(self) == (CwCroncat {
                        config: Config {
                            available_balance: final(self).config.available_balance,
                            ..old(self).config
                        },
                        ..*old(self)
                    })
                },
                Err(refusal) => {
                    &&& r matches Err(e) && reports(e, refusal)
                    &&& *final(self) == *old(self)
                },
            },
            old(self).config.available_balance.wf() ==> final(self).config.available_balance.wf(),
    {
        proof {
            if self.config.available_balance.wf() {
                settlement_keeps_one_entry_each(
                    self.config.available_balance@,
                    coin_entries(state_balances@),
                    movement_views(balances@),
                    account_id@,
                );
            }
        }
        if *sender != self.config.owner_id {
            return Err(ContractError::Unauthorized);
        }
        if self.config.owner_id != *account_id {
            return Err(
                ContractError::CustomError {
                    val: "Cannot move funds to this account".to_string(),
                },
            );
        }
        let mut draft = self.config.available_balance.duplicate();
        let mut messages: Vec<TransferMsg> = Vec::new();
        let ghost movements = movement_views(balances@);
        let ghost chain = coin_entries(state_balances@);
        let ghost ledger = self.config.available_balance@;
        let mut i: usize = 0;
        assert(movements.take(0) =~= Seq::<MovementView>::empty());
        assert(transfer_views(messages@) =~= Seq::<TransferView>::empty());
        assert(draft@ == ledger);
        while i < balances.len()
            invariant
                i <= balances.len(),
                *self == *old(self),
                sender@ == old(self).config.owner_id@,
                account_id@ == old(self).config.owner_id@,
                ledger == old(self).config.available_balance@,
                movements == movement_views(balances@),
                chain == coin_entries(state_balances@),
                settle(ledger, chain, movements.take(i as int), account_id@) == Ok::<
                    (LedgerView, Seq<TransferView>),
                    Refusal,
                >((draft@, transfer_views(messages@))),
            decreases balances.len() - i,
        {
            let ghost before = transfer_views(messages@);
            let ghost reached = draft@;
            assert(movements.take(i + 1).drop_last() =~= movements.take(i as int));
            assert(movements.take(i + 1).last() == balances@[i as int]@);
            match settle_movement(&mut draft, state_balances, &balances[i], account_id) {
                Ok(m) => {
                    messages.push(m);
                    assert(transfer_views(messages@) =~= before.push(m@));
                },
                Err(e) => {
                    proof {
                        assert(settle(ledger, chain, movements.take(i + 1), account_id@)
                            == Err::<(LedgerView, Seq<TransferView>), Refusal>(
                            settle_one(reached, chain, movements[i as int], account_id@)->Err_0,
                        ));
                        refused_prefix_refuses_batch(
                            ledger,
                            chain,
                            movements,
                            account_id@,
                            i + 1,
                        );
                    }
                    return Err(e);
                },
            }
            i += 1;
        }
        assert(movements.take(balances@.len() as int) =~= movements);
        self.config.available_balance = draft;
        Ok(messages)
    }
}

} // verus!
