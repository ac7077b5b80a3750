//! What the library takes from the host's own crates: the balance test of
//! `cosmwasm_std` and the wire form of a token transfer.

use vstd::prelude::*;
use crate::ledger::has_at_least;
use crate::types::{coin_entries, Coin};

verus! {

/// The JSON bytes of the token contract's transfer message that sends
/// `amount` to `recipient`, or `None` where the message cannot be
/// serialised.
pub uninterp spec fn cw20_transfer_json(recipient: Seq<char>, amount: nat) -> Option<Seq<u8>>;

/// `cosmwasm_std::has_coins`: whether the first coin of the required
/// denomination in `coins` holds at least the required amount; `false` where
/// there is no such coin.
#[verifier::external_body]
pub(crate) fn has_coins(coins: &Vec<Coin>, required: &Coin) -> (held: bool)
    ensures
        held == has_at_least(coin_entries(coins@), required@),
{
    let mut listed: Vec<cosmwasm_std::Coin> = Vec::new();
    for c in coins.iter() {
        listed.push(cosmwasm_std::Coin::new(c.amount, c.denom.clone()));
    }
    let wanted = cosmwasm_std::Coin::new(required.amount, required.denom.clone());
    cosmwasm_std::has_coins(&listed, &wanted)
}

/// `cosmwasm_std::to_json_binary` on `cw20::Cw20ExecuteMsg::Transfer`: the
/// serialised message is a function of the recipient and the amount alone,
/// and an error comes exactly where there is no serialised form.
#[verifier::external_body]
pub(crate) fn encode_cw20_transfer(recipient: &String, amount: u128) -> (encoded: Result<
    Vec<u8>,
    cosmwasm_std::StdError,
>)
    ensures
        match encoded {
            Ok(bytes) => cw20_transfer_json(recipient@, amount as nat) == Some(bytes@),
            Err(_) => cw20_transfer_json(recipient@, amount as nat) is None,
        },
{
    let msg = cw20::Cw20ExecuteMsg::Transfer {
        recipient: recipient.clone(),
        amount: cosmwasm_std::Uint128::new(amount),
    };
    match cosmwasm_std::to_json_binary(&msg) {
        Ok(binary) => Ok(binary.0),
        Err(e) => Err(e),
    }
}

} // verus!
