//! The operations of a balance.

use vstd::prelude::*;
use crate::error::ContractError;
use crate::ledger::{
    batch_keeps_keys_distinct, credit, credit_all, credit_coins, credit_token, debit, debit_all,
    debit_coins, debit_token, keys_stay_distinct,
};
use crate::types::{coin_entries, Coin, Cw20CoinVerified, GenericBalance};

verus! {

/// Additions to and subtractions from a balance. Each either applies in full
/// or fails and changes nothing.
pub trait GenericBalances {
    fn add_tokens(&mut self, balance: &Vec<Coin>) -> Result<(), ContractError>;

    fn add_cw20tokens(&mut self, token: &Cw20CoinVerified) -> Result<(), ContractError>;

    fn minus_tokens(&mut self, balance: &Vec<Coin>) -> Result<(), ContractError>;

    fn minus_cw20tokens(&mut self, token: &Cw20CoinVerified) -> Result<(), ContractError>;
}

impl GenericBalances for GenericBalance {
    /// Adds the coins of `balance` to the native entries, one after the
    /// other. Fails with `Overflow`, changing nothing, where a sum would pass
    /// `u128::MAX`.
    fn add_tokens(&mut self, balance: &Vec<Coin>) -> (r: Result<(), ContractError>)
        ensures
            match credit_all(old(self)@.native, coin_entries(balance@)) {
                Some(t) => r is Ok && final(self)@.native == t && final(self).cw20 == old(self).cw20,
                None => r == Err::<(), ContractError>(ContractError::Overflow) && *final(self)
                    == *old(self),
            },
            old(self).wf() ==> final(self).wf(),
    {
        proof {
            if self.wf() {
                batch_keeps_keys_distinct(self@.native, coin_entries(balance@));
            }
        }
        if credit_coins(&mut self.native, balance) {
            Ok(())
        } else {
            Err(ContractError::Overflow)
        }
    }

    /// Adds `token` to the token entries. Fails with `Overflow`, changing
    /// nothing, where the sum would pass `u128::MAX`.
    fn add_cw20tokens(&mut self, token: &Cw20CoinVerified) -> (r: Result<(), ContractError>)
        ensures
            match credit(old(self)@.cw20, token@) {
                Some(t) => r is Ok && final(self)@.cw20 == t && final(self).native == old(self).native,
                None => r == Err::<(), ContractError>(ContractError::Overflow) && *final(self)
                    == *old(self),
            },
            old(self).wf() ==> final(self).wf(),
    {
        proof {
            if self.wf() {
                keys_stay_distinct(self@.cw20, token@);
            }
        }
        if credit_token(&mut self.cw20, token) {
            Ok(())
        } else {
            Err(ContractError::Overflow)
        }
    }

    /// Takes the coins of `balance` from the native entries, one after the
    /// other. Fails with `NotEnoughFunds`, changing nothing, where an entry
    /// is missing or holds less than is asked of it.
    fn minus_tokens(&mut self, balance: &Vec<Coin>) -> (r: Result<(), ContractError>)
        ensures
            match debit_all(old(self)@.native, coin_entries(balance@)) {
                Some(t) => r is Ok && final(self)@.native == t && final(self).cw20 == old(self).cw20,
                None => r == Err::<(), ContractError>(ContractError::NotEnoughFunds) && *final(self) == *old(self),
            },
            old(self).wf() ==> final(self).wf(),
    {
        proof {
            if self.wf() {
                batch_keeps_keys_distinct(self@.native, coin_entries(balance@));
            }
        }
        if debit_coins(&mut self.native, balance) {
            Ok(())
        } else {
            Err(ContractError::NotEnoughFunds)
        }
    }

    /// Takes `token` from the token entries. Fails with `NotEnoughFunds`,
    /// changing nothing, where the entry is missing or holds less.
    fn minus_cw20tokens(&mut self, token: &Cw20CoinVerified) -> (r: Result<(), ContractError>)
        ensures
            match debit(old(self)@.cw20, token@) {
                Some(t) => r is Ok && final(self)@.cw20 == t && final(self).native == old(self).native,
                None => r == Err::<(), ContractError>(ContractError::NotEnoughFunds) && *final(self) == *old(self),
            },
            old(self).wf() ==> final(self).wf(),
    {
        proof {
            if self.wf() {
                keys_stay_distinct(self@.cw20, token@);
            }
        }
        if debit_token(&mut self.cw20, token) {
            Ok(())
        } else {
            Err(ContractError::NotEnoughFunds)
        }
    }
}

} // verus!
