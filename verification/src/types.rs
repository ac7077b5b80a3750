//! The amounts the ledger holds and moves, and their mathematical views.

use vstd::prelude::*;

verus! {

/// One line of a balance as the contracts see it: what is held (a
/// denomination or a token contract) and how much of it.
pub struct Entry {
    pub key: Seq<char>,
    pub amount: nat,
}

/// An amount of a native currency.
#[derive(Clone, Debug, PartialEq, Eq)]
pub struct Coin {
    pub denom: String,
    pub amount: u128,
}

/// An amount of a fungible token, named by the address of its contract.
#[derive(Clone, Debug, PartialEq, Eq)]
pub struct Cw20CoinVerified {
    pub address: String,
    pub amount: u128,
}

/// One requested movement: native coins, or an amount of one token.
#[derive(Clone, Debug, PartialEq, Eq)]
pub enum Balance {
    Native(Vec<Coin>),
    Cw20(Cw20CoinVerified),
}

/// Native and token balances of one bucket. The first entry of a
/// denomination or token is the one that counts.
#[derive(Clone, Debug, PartialEq, Eq)]
pub struct GenericBalance {
    pub native: Vec<Coin>,
    pub cw20: Vec<Cw20CoinVerified>,
}

/// A balance as two lists of entries.
pub struct LedgerView {
    pub native: Seq<Entry>,
    pub cw20: Seq<Entry>,
}

/// A movement as entries.
pub enum MovementView {
    Native(Seq<Entry>),
    Token(Entry),
}

impl View for Coin {
    type V = Entry;

    open spec fn view(&self) -> Entry {
        Entry { key: self.denom@, amount: self.amount as nat }
    }
}

impl View for Cw20CoinVerified {
    type V = Entry;

    open spec fn view(&self) -> Entry {
        Entry { key: self.address@, amount: self.amount as nat }
    }
}

/// The entries of a list of coins, in order.
pub open spec fn coin_entries(coins: Seq<Coin>) -> Seq<Entry> {
    Seq::new(coins.len(), |i: int| coins[i]@)
}

/// The entries of a list of token amounts, in order.
pub open spec fn token_entries(tokens: Seq<Cw20CoinVerified>) -> Seq<Entry> {
    Seq::new(tokens.len(), |i: int| tokens[i]@)
}

impl View for Balance {
    type V = MovementView;

    open spec fn view(&self) -> MovementView {
        match self {
            Balance::Native(coins) => MovementView::Native(coin_entries(coins@)),
            Balance::Cw20(token) => MovementView::Token(token@),
        }
    }
}

/// The views of a list of movements, in order.
pub open spec fn movement_views(balances: Seq<Balance>) -> Seq<MovementView> {
    Seq::new(balances.len(), |i: int| balances[i]@)
}

impl View for GenericBalance {
    type V = LedgerView;

    open spec fn view(&self) -> LedgerView {
        LedgerView { native: coin_entries(self.native@), cw20: token_entries(self.cw20@) }
    }
}

/// A coin of `amount` units of `denom`.
pub fn coin(amount: u128, denom: &str) -> (c: Coin)
    ensures
        c@ == (Entry { key: denom@, amount: amount as nat }),
{
    Coin { denom: denom.to_string(), amount }
}

impl Coin {
    /// A second coin equal to this one.
    pub fn duplicate(&self) -> (c: Coin)
        ensures
            c == *self,
    {
        Coin { denom: self.denom.clone(), amount: self.amount }
    }
}

impl Cw20CoinVerified {
    /// A second token amount equal to this one.
    pub fn duplicate(&self) -> (c: Cw20CoinVerified)
        ensures
            c == *self,
    {
        Cw20CoinVerified { address: self.address.clone(), amount: self.amount }
    }
}

/// A second list equal to `coins`.
pub fn duplicate_coins(coins: &Vec<Coin>) -> (copy: Vec<Coin>)
    ensures
        copy@ == coins@,
{
    let mut copy: Vec<Coin> = Vec::new();
    let mut i: usize = 0;
    while i < coins.len()
        invariant
            i <= coins.len(),
            copy@ == coins@.take(i as int),
        decreases coins.len() - i,
    {
        copy.push(coins[i].duplicate());
        assert(coins@.take(i as int).push(coins@[i as int]) =~= coins@.take(i + 1));
        i += 1;
    }
    assert(coins@.take(coins@.len() as int) =~= coins@);
    copy
}

/// A second list equal to `tokens`.
pub fn duplicate_tokens(tokens: &Vec<Cw20CoinVerified>) -> (copy: Vec<Cw20CoinVerified>)
    ensures
        copy@ == tokens@,
{
    let mut copy: Vec<Cw20CoinVerified> = Vec::new();
    let mut i: usize = 0;
    while i < tokens.len()
        invariant
            i <= tokens.len(),
            copy@ == tokens@.take(i as int),
        decreases tokens.len() - i,
    {
        copy.push(tokens[i].duplicate());
        assert(tokens@.take(i as int).push(tokens@[i as int]) =~= tokens@.take(i + 1));
        i += 1;
    }
    assert(tokens@.take(tokens@.len() as int) =~= tokens@);
    copy
}

/// A second list equal to `addresses`.
pub fn duplicate_addresses(addresses: &Vec<String>) -> (copy: Vec<String>)
    ensures
        copy@ == addresses@,
{
    let mut copy: Vec<String> = Vec::new();
    let mut i: usize = 0;
    while i < addresses.len()
        invariant
            i <= addresses.len(),
            copy@ == addresses@.take(i as int),
        decreases addresses.len() - i,
    {
        copy.push(addresses[i].clone());
        assert(addresses@.take(i as int).push(addresses@[i as int]) =~= addresses@.take(i + 1));
        i += 1;
    }
    assert(addresses@.take(addresses@.len() as int) =~= addresses@);
    copy
}

impl Default for GenericBalance {
    /// A balance with no entry.
    fn default() -> (b: GenericBalance)
        ensures
            b.native@.len() == 0,
            b.cw20@.len() == 0,
            b.wf(),
    {
        GenericBalance { native: Vec::new(), cw20: Vec::new() }
    }
}

impl GenericBalance {
    /// A second balance equal to this one.
    pub fn duplicate(&self) -> (b: GenericBalance)
        ensures
            b.native@ == self.native@,
            b.cw20@ == self.cw20@,
    {
        GenericBalance {
            native: duplicate_coins(&self.native),
            cw20: duplicate_tokens(&self.cw20),
        }
    }
}


/// One outbound instruction for the host: a send of native coins, or a call
/// of a token contract with a serialised message and no funds attached.
#[derive(Clone, Debug, PartialEq, Eq)]
pub enum TransferMsg {
    Send { to_address: String, amount: Vec<Coin> },
    Execute { contract_addr: String, msg: Vec<u8> },
}

/// An instruction as plain values.
pub enum TransferView {
    Send { to: Seq<char>, amount: Seq<Entry> },
    Execute { contract: Seq<char>, msg: Seq<u8> },
}

impl View for TransferMsg {
    type V = TransferView;

    open spec fn view(&self) -> TransferView {
        match self {
            TransferMsg::Send { to_address, amount } => TransferView::Send {
                to: to_address@,
                amount: coin_entries(amount@),
            },
            TransferMsg::Execute { contract_addr, msg } => TransferView::Execute {
                contract: contract_addr@,
                msg: msg@,
            },
        }
    }
}

/// The views of a list of instructions, in order.
pub open spec fn transfer_views(msgs: Seq<TransferMsg>) -> Seq<TransferView> {
    Seq::new(msgs.len(), |i: int| msgs[i]@)
}

} // verus!
