//! The ledger's rules over lists of entries: looking an entry up, adding to
//! it and taking from it, one entry or a whole list at a time.

use vstd::prelude::*;
use crate::types::{
    coin_entries, duplicate_coins, token_entries, Coin, Cw20CoinVerified, Entry, GenericBalance,
    LedgerView,
};

verus! {

/// `i` is the first place in `s` that holds `key`.
pub open spec fn first_at(s: Seq<Entry>, key: Seq<char>, i: int) -> bool {
    &&& 0 <= i < s.len()
    &&& s[i].key == key
    &&& forall|j: int| 0 <= j < i ==> (#[trigger] s[j]).key != key
}

/// The first place in `s` that holds `key`, if any does.
pub open spec fn lookup(s: Seq<Entry>, key: Seq<char>) -> Option<int> {
    if exists|i: int| first_at(s, key, i) {
        Some(choose|i: int| first_at(s, key, i))
    } else {
        None
    }
}

/// The amount held under `key`: that of its first entry, zero without one.
pub open spec fn amount_of(s: Seq<Entry>, key: Seq<char>) -> nat {
    match lookup(s, key) {
        Some(i) => s[i].amount,
        None => 0,
    }
}

/// `s` has an entry for what `e` names, holding at least the amount of `e`.
pub open spec fn has_at_least(s: Seq<Entry>, e: Entry) -> bool {
    match lookup(s, e.key) {
        Some(i) => s[i].amount >= e.amount,
        None => false,
    }
}

/// `s` has, for every entry of `es`, an entry holding at least that amount.
pub open spec fn has_each(s: Seq<Entry>, es: Seq<Entry>) -> bool {
    forall|i: int| 0 <= i < es.len() ==> has_at_least(s, #[trigger] es[i])
}

/// `s` after `e` is added: merged into the entry of the same key, or
/// appended as a new last entry. `None` where the sum is past `u128::MAX`.
pub open spec fn credit(s: Seq<Entry>, e: Entry) -> Option<Seq<Entry>> {
    match lookup(s, e.key) {
        Some(i) => if s[i].amount + e.amount <= u128::MAX {
            Some(s.update(i, Entry { key: e.key, amount: s[i].amount + e.amount }))
        } else {
            None
        },
        None => Some(s.push(e)),
    }
}

/// `s` after `e` is taken from the entry of the same key. `None` where `s`
/// does not hold that much. An entry that reaches zero stays.
pub open spec fn debit(s: Seq<Entry>, e: Entry) -> Option<Seq<Entry>> {
    match lookup(s, e.key) {
        Some(i) => if s[i].amount >= e.amount {
            Some(s.update(i, Entry { key: e.key, amount: (s[i].amount - e.amount) as nat }))
        } else {
            None
        },
        None => None,
    }
}

/// `s` after the entries of `es` are added one after the other; `None` as
/// soon as one of them cannot be.
pub open spec fn credit_all(s: Seq<Entry>, es: Seq<Entry>) -> Option<Seq<Entry>>
    decreases es.len(),
{
    if es.len() == 0 {
        Some(s)
    } else {
        match credit(s, es[0]) {
            Some(t) => credit_all(t, es.drop_first()),
            None => None,
        }
    }
}

/// `s` after the entries of `es` are taken one after the other; `None` as
/// soon as one of them cannot be.
pub open spec fn debit_all(s: Seq<Entry>, es: Seq<Entry>) -> Option<Seq<Entry>>
    decreases es.len(),
{
    if es.len() == 0 {
        Some(s)
    } else {
        match debit(s, es[0]) {
            Some(t) => debit_all(t, es.drop_first()),
            None => None,
        }
    }
}

/// No key occurs twice in `s`.
pub open spec fn distinct_keys(s: Seq<Entry>) -> bool {
    forall|i: int, j: int|
        0 <= i < j < s.len() ==> (#[trigger] s[i]).key != (#[trigger] s[j]).key
}

/// Each denomination and each token has at most one entry.
pub open spec fn one_entry_each(ledger: LedgerView) -> bool {
    distinct_keys(ledger.native) && distinct_keys(ledger.cw20)
}

impl GenericBalance {
    /// Each denomination and each token has at most one entry. Additions,
    /// subtractions and settlements keep a balance so.
    pub open spec fn wf(&self) -> bool {
        one_entry_each(self@)
    }
}

/// The first place that holds a key is the only one `lookup` can give.
pub proof fn lookup_is_first(s: Seq<Entry>, key: Seq<char>, i: int)
    requires
        first_at(s, key, i),
    ensures
        lookup(s, key) == Some(i),
{
    let c = choose|c: int| first_at(s, key, c);
    assert(first_at(s, key, c));
    if c < i {
        assert(s[c].key != key);
    }
    if i < c {
        assert(s[i].key != key);
    }
}

/// A key that no entry holds is not found.
pub proof fn lookup_of_absent(s: Seq<Entry>, key: Seq<char>)
    requires
        forall|j: int| 0 <= j < s.len() ==> (#[trigger] s[j]).key != key,
    ensures
        lookup(s, key) is None,
{
    if exists|i: int| first_at(s, key, i) {
        let c = choose|c: int| first_at(s, key, c);
        assert(s[c].key != key);
    }
}

/// What `lookup` finds is a first place.
pub proof fn lookup_finds_first(s: Seq<Entry>, key: Seq<char>)
    ensures
        lookup(s, key) matches Some(i) ==> first_at(s, key, i),
        lookup(s, key) is None ==> forall|j: int|
            0 <= j < s.len() ==> (#[trigger] s[j]).key != key,
{
    if lookup(s, key) is None {
        assert forall|j: int| 0 <= j < s.len() implies (#[trigger] s[j]).key != key by {
            if s[j].key == key {
                least_holder(s, key, j);
            }
        }
    }
}

/// Where some entry holds the key, a first one does.
proof fn least_holder(s: Seq<Entry>, key: Seq<char>, j: int)
    requires
        0 <= j < s.len(),
        s[j].key == key,
    ensures
        exists|i: int| first_at(s, key, i),
    decreases j,
{
    if forall|k: int| 0 <= k < j ==> (#[trigger] s[k]).key != key {
        assert(first_at(s, key, j));
    } else {
        let k = choose|k: int| 0 <= k < j && (#[trigger] s[k]).key == key;
        least_holder(s, key, k);
    }
}


/// Changing the amount of one entry moves no key: every key is found where
/// it was.
pub proof fn lookup_after_update(s: Seq<Entry>, i: int, amount: nat, key: Seq<char>)
    requires
        0 <= i < s.len(),
    ensures
        lookup(s.update(i, Entry { key: s[i].key, amount: amount }), key) == lookup(s, key),
{
    let t = s.update(i, Entry { key: s[i].key, amount: amount });
    lookup_finds_first(s, key);
    assert forall|j: int| 0 <= j < t.len() implies (#[trigger] t[j]).key == s[j].key by {}
    match lookup(s, key) {
        Some(j) => {
            assert forall|k: int| 0 <= k < j implies (#[trigger] t[k]).key != key by {
                assert(s[k].key != key);
            }
            lookup_is_first(t, key, j);
        },
        None => {
            assert forall|k: int| 0 <= k < t.len() implies (#[trigger] t[k]).key != key by {
                assert(s[k].key != key);
            }
            lookup_of_absent(t, key);
        },
    }
}

/// A subtraction of more than is held is refused.
pub proof fn overdraw_is_refused(s: Seq<Entry>, e: Entry)
    requires
        amount_of(s, e.key) < e.amount,
    ensures
        debit(s, e) is None,
        !has_at_least(s, e),
{
}

/// A subtraction is made exactly where the amount is held.
pub proof fn debit_iff_held(s: Seq<Entry>, e: Entry)
    ensures
        debit(s, e) is Some <==> has_at_least(s, e),
{
}

/// A subtraction lowers the amount under its key by what was taken and
/// leaves every other amount, and the number of entries, as they were.
pub proof fn debit_lowers_one_amount(s: Seq<Entry>, e: Entry, key: Seq<char>)
    requires
        debit(s, e) is Some,
    ensures
        debit(s, e)->Some_0.len() == s.len(),
        amount_of(s, e.key) >= e.amount,
        amount_of(debit(s, e)->Some_0, key) == if key == e.key {
            (amount_of(s, key) - e.amount) as nat
        } else {
            amount_of(s, key)
        },
{
    let i = lookup(s, e.key)->Some_0;
    lookup_finds_first(s, e.key);
    lookup_after_update(s, i, (s[i].amount - e.amount) as nat, key);
}

/// An addition raises the amount under its key by what was added and leaves
/// every other amount as it was.
pub proof fn credit_raises_one_amount(s: Seq<Entry>, e: Entry, key: Seq<char>)
    requires
        credit(s, e) is Some,
    ensures
        amount_of(credit(s, e)->Some_0, key) == if key == e.key {
            amount_of(s, key) + e.amount
        } else {
            amount_of(s, key)
        },
{
    lookup_finds_first(s, e.key);
    match lookup(s, e.key) {
        Some(i) => {
            lookup_after_update(s, i, s[i].amount + e.amount, key);
        },
        None => {
            let t = s.push(e);
            lookup_finds_first(s, key);
            if key == e.key {
                assert forall|k: int| 0 <= k < s.len() implies (#[trigger] t[k]).key != key by {
                    assert(s[k].key != key);
                }
                lookup_is_first(t, key, s.len() as int);
            } else {
                match lookup(s, key) {
                    Some(j) => {
                        assert forall|k: int| 0 <= k < j implies (#[trigger] t[k]).key != key by {
                            assert(s[k].key != key);
                        }
                        lookup_is_first(t, key, j);
                    },
                    None => {
                        assert forall|k: int| 0 <= k < t.len() implies (#[trigger] t[k]).key
                            != key by {
                            if k < s.len() {
                                assert(s[k].key != key);
                            }
                        }
                        lookup_of_absent(t, key);
                    },
                }
            }
        },
    }
}

/// Additions and subtractions keep a ledger with one entry for each key in
/// that form.
pub proof fn keys_stay_distinct(s: Seq<Entry>, e: Entry)
    requires
        distinct_keys(s),
    ensures
        credit(s, e) matches Some(t) ==> distinct_keys(t),
        debit(s, e) matches Some(t) ==> distinct_keys(t),
{
    lookup_finds_first(s, e.key);
    if let Some(t) = credit(s, e) {
        assert forall|i: int, j: int| 0 <= i < j < t.len() implies (#[trigger] t[i]).key != (
        #[trigger] t[j]).key by {
            if j < s.len() {
                assert(s[i].key != s[j].key);
            } else {
                assert(s[i].key != e.key);
            }
        }
    }
    if let Some(t) = debit(s, e) {
        assert forall|i: int, j: int| 0 <= i < j < t.len() implies (#[trigger] t[i]).key != (
        #[trigger] t[j]).key by {
            assert(s[i].key != s[j].key);
        }
    }
}

/// Batches of additions and of subtractions keep a ledger with one entry for
/// each key in that form.
pub proof fn batch_keeps_keys_distinct(s: Seq<Entry>, es: Seq<Entry>)
    requires
        distinct_keys(s),
    ensures
        credit_all(s, es) matches Some(t) ==> distinct_keys(t),
        debit_all(s, es) matches Some(t) ==> distinct_keys(t),
    decreases es.len(),
{
    if es.len() > 0 {
        keys_stay_distinct(s, es[0]);
        if let Some(t) = credit(s, es[0]) {
            batch_keeps_keys_distinct(t, es.drop_first());
        }
        if let Some(t) = debit(s, es[0]) {
            batch_keeps_keys_distinct(t, es.drop_first());
        }
    }
}

/// A batch of subtractions with one that the ledger reached cannot cover is
/// refused as a whole.
pub proof fn overdrawn_batch_is_refused(s: Seq<Entry>, es: Seq<Entry>, k: int)
    requires
        0 <= k < es.len(),
        debit_all(s, es.take(k)) matches Some(t) && !has_at_least(t, es[k]),
    ensures
        debit_all(s, es) is None,
    decreases k,
{
    if k == 0 {
        assert(es.take(0) =~= Seq::<Entry>::empty());
    } else {
        assert(es.take(k)[0] == es[0]);
        assert(es.take(k).drop_first() =~= es.drop_first().take(k - 1));
        assert(es.drop_first()[k - 1] == es[k]);
        overdrawn_batch_is_refused(debit(s, es[0])->Some_0, es.drop_first(), k - 1);
    }
}

/// One operation on a list of entries.
pub enum LedgerOp {
    Add(Entry),
    Subtract(Entry),
}

/// `s` after `op`: what the operation leaves where it is made, `s` itself
/// where it is refused.
pub open spec fn step(s: Seq<Entry>, op: LedgerOp) -> Seq<Entry> {
    match op {
        LedgerOp::Add(e) => match credit(s, e) {
            Some(t) => t,
            None => s,
        },
        LedgerOp::Subtract(e) => match debit(s, e) {
            Some(t) => t,
            None => s,
        },
    }
}

/// `s` after the operations of `ops`, one after the other.
pub open spec fn run(s: Seq<Entry>, ops: Seq<LedgerOp>) -> Seq<Entry>
    decreases ops.len(),
{
    if ops.len() == 0 {
        s
    } else {
        step(run(s, ops.drop_last()), ops.last())
    }
}

/// Every amount of `s` can be held in a `u128`.
pub open spec fn within_limits(s: Seq<Entry>) -> bool {
    forall|i: int| 0 <= i < s.len() ==> (#[trigger] s[i]).amount <= u128::MAX
}

/// The amount that `op` adds or asks for.
pub open spec fn op_amount(op: LedgerOp) -> nat {
    match op {
        LedgerOp::Add(e) => e.amount,
        LedgerOp::Subtract(e) => e.amount,
    }
}

/// Whatever operations are run, in whatever order, every amount stays
/// between zero and `u128::MAX`, and a ledger with one entry for each key
/// stays so. A subtraction of more than is held leaves the ledger as it was.
pub proof fn ledger_stays_sound(s: Seq<Entry>, ops: Seq<LedgerOp>)
    requires
        within_limits(s),
        forall|i: int| 0 <= i < ops.len() ==> op_amount(#[trigger] ops[i]) <= u128::MAX,
    ensures
        within_limits(run(s, ops)),
        forall|i: int| 0 <= i < run(s, ops).len() ==> (#[trigger] run(s, ops)[i]).amount >= 0,
        distinct_keys(s) ==> distinct_keys(run(s, ops)),
        forall|e: Entry| amount_of(s, e.key) < e.amount ==> #[trigger] step(s, LedgerOp::Subtract(e)) == s,
    decreases ops.len(),
{
    if ops.len() > 0 {
        let before = run(s, ops.drop_last());
        ledger_stays_sound(s, ops.drop_last());
        assert(op_amount(ops[ops.len() - 1]) <= u128::MAX);
        match ops.last() {
            LedgerOp::Add(e) => {
                lookup_finds_first(before, e.key);
                if distinct_keys(before) {
                    keys_stay_distinct(before, e);
                }
            },
            LedgerOp::Subtract(e) => {
                lookup_finds_first(before, e.key);
                if distinct_keys(before) {
                    keys_stay_distinct(before, e);
                }
            },
        }
    }
}

/// The place of the first coin of `denom` in `coins`, if there is one.
pub fn find_coin(coins: &[Coin], denom: &String) -> (found: Option<usize>)
    ensures
        match found {
            Some(i) => lookup(coin_entries(coins@), denom@) == Some(i as int),
            None => lookup(coin_entries(coins@), denom@) is None,
        },
{
    let mut i: usize = 0;
    while i < coins.len()
        invariant
            i <= coins.len(),
            forall|j: int| 0 <= j < i ==> (#[trigger] coin_entries(coins@)[j]).key != denom@,
        decreases coins.len() - i,
    {
        if coins[i].denom == *denom {
            proof {
                lookup_is_first(coin_entries(coins@), denom@, i as int);
            }
            return Some(i);
        }
        i += 1;
    }
    proof {
        lookup_of_absent(coin_entries(coins@), denom@);
    }
    None
}

/// Whether `coins` holds at least the amount of `required`, under its first
/// entry of that denom.
pub fn holds_coin(coins: &Vec<Coin>, required: &Coin) -> (held: bool)
    ensures
        held == has_at_least(coin_entries(coins@), required@),
{
    match find_coin(coins.as_slice(), &required.denom) {
        Some(i) => coins[i].amount >= required.amount,
        None => false,
    }
}

/// Adds `added` to `coins`: to the first entry of its denom, or as a new
/// last entry. Where the sum would overflow, nothing changes and the answer
/// is `false`.
pub fn credit_coin(coins: &mut Vec<Coin>, added: &Coin) -> (done: bool)
    ensures
        match credit(coin_entries(old(coins)@), added@) {
            Some(t) => done && coin_entries(final(coins)@) == t,
            None => !done && *final(coins) == *old(coins),
        },
{
    match find_coin(coins.as_slice(), &added.denom) {
        Some(i) => {
            match coins[i].amount.checked_add(added.amount) {
                Some(sum) => {
                    let merged = Coin { denom: coins[i].denom.clone(), amount: sum };
                    proof {
                        lookup_finds_first(coin_entries(coins@), added@.key);
                    }
                    coins.set(i, merged);
                    assert(coin_entries(coins@) =~= credit(coin_entries(old(coins)@), added@)->Some_0);
                    true
                },
                None => false,
            }
        },
        None => {
            coins.push(added.duplicate());
            assert(coin_entries(coins@) =~= coin_entries(old(coins)@).push(added@));
            true
        },
    }
}

/// Takes `taken` from the first entry of its denom in `coins`. Where that
/// entry is missing or holds less, nothing changes and the answer is `false`.
pub fn debit_coin(coins: &mut Vec<Coin>, taken: &Coin) -> (done: bool)
    ensures
        match debit(coin_entries(old(coins)@), taken@) {
            Some(t) => done && coin_entries(final(coins)@) == t,
            None => !done && *final(coins) == *old(coins),
        },
{
    match find_coin(coins.as_slice(), &taken.denom) {
        Some(i) => {
            if coins[i].amount >= taken.amount {
                let left = Coin {
                    denom: coins[i].denom.clone(),
                    amount: coins[i].amount - taken.amount,
                };
                proof {
                    lookup_finds_first(coin_entries(coins@), taken@.key);
                }
                coins.set(i, left);
                assert(coin_entries(coins@) =~= debit(coin_entries(old(coins)@), taken@)->Some_0);
                true
            } else {
                false
            }
        },
        None => false,
    }
}

/// The place of the first amount of the token at `address` in `tokens`, if there is one.
pub fn find_token(tokens: &[Cw20CoinVerified], address: &String) -> (found: Option<usize>)
    ensures
        match found {
            Some(i) => lookup(token_entries(tokens@), address@) == Some(i as int),
            None => lookup(token_entries(tokens@), address@) is None,
        },
{
    let mut i: usize = 0;
    while i < tokens.len()
        invariant
            i <= tokens.len(),
            forall|j: int| 0 <= j < i ==> (#[trigger] token_entries(tokens@)[j]).key != address@,
        decreases tokens.len() - i,
    {
        if tokens[i].address == *address {
            proof {
                lookup_is_first(token_entries(tokens@), address@, i as int);
            }
            return Some(i);
        }
        i += 1;
    }
    proof {
        lookup_of_absent(token_entries(tokens@), address@);
    }
    None
}

/// Adds `added` to `tokens`: to the first entry of its address, or as a new
/// last entry. Where the sum would overflow, nothing changes and the answer
/// is `false`.
pub fn credit_token(tokens: &mut Vec<Cw20CoinVerified>, added: &Cw20CoinVerified) -> (done: bool)
    ensures
        match credit(token_entries(old(tokens)@), added@) {
            Some(t) => done && token_entries(final(tokens)@) == t,
            None => !done && *final(tokens) == *old(tokens),
        },
{
    match find_token(tokens.as_slice(), &added.address) {
        Some(i) => {
            match tokens[i].amount.checked_add(added.amount) {
                Some(sum) => {
                    let merged = Cw20CoinVerified { address: tokens[i].address.clone(), amount: sum };
                    proof {
                        lookup_finds_first(token_entries(tokens@), added@.key);
                    }
                    tokens.set(i, merged);
                    assert(token_entries(tokens@) =~= credit(token_entries(old(tokens)@), added@)->Some_0);
                    true
                },
                None => false,
            }
        },
        None => {
            tokens.push(added.duplicate());
            assert(token_entries(tokens@) =~= token_entries(old(tokens)@).push(added@));
            true
        },
    }
}

/// Takes `taken` from the first entry of its address in `tokens`. Where that
/// entry is missing or holds less, nothing changes and the answer is `false`.
pub fn debit_token(tokens: &mut Vec<Cw20CoinVerified>, taken: &Cw20CoinVerified) -> (done: bool)
    ensures
        match debit(token_entries(old(tokens)@), taken@) {
            Some(t) => done && token_entries(final(tokens)@) == t,
            None => !done && *final(tokens) == *old(tokens),
        },
{
    match find_token(tokens.as_slice(), &taken.address) {
        Some(i) => {
            if tokens[i].amount >= taken.amount {
                let left = Cw20CoinVerified {
                    address: tokens[i].address.clone(),
                    amount: tokens[i].amount - taken.amount,
                };
                proof {
                    lookup_finds_first(token_entries(tokens@), taken@.key);
                }
                tokens.set(i, left);
                assert(token_entries(tokens@) =~= debit(token_entries(old(tokens)@), taken@)->Some_0);
                true
            } else {
                false
            }
        },
        None => false,
    }
}


/// Adds every coin of `batch`, one after the other, or none of them: where
/// one would overflow, `coins` is left as it was and the answer is `false`.
pub fn credit_coins(coins: &mut Vec<Coin>, batch: &Vec<Coin>) -> (done: bool)
    ensures
        match credit_all(coin_entries(old(coins)@), coin_entries(batch@)) {
            Some(t) => done && coin_entries(final(coins)@) == t,
            None => !done && *final(coins) == *old(coins),
        },
{
    let mut draft = duplicate_coins(coins);
    let mut i: usize = 0;
    assert(coin_entries(batch@).skip(0) =~= coin_entries(batch@));
    while i < batch.len()
        invariant
            i <= batch.len(),
            *coins == *old(coins),
            credit_all(coin_entries(old(coins)@), coin_entries(batch@)) == credit_all(
                coin_entries(draft@),
                coin_entries(batch@).skip(i as int),
            ),
        decreases batch.len() - i,
    {
        assert(coin_entries(batch@).skip(i as int)[0] == batch@[i as int]@);
        assert(coin_entries(batch@).skip(i as int).drop_first() =~= coin_entries(batch@).skip(
            i + 1,
        ));
        if !credit_coin(&mut draft, &batch[i]) {
            return false;
        }
        i += 1;
    }
    *coins = draft;
    true
}

/// Takes every coin of `batch`, one after the other, or none of them: where
/// one is not covered, `coins` is left as it was and the answer is `false`.
pub fn debit_coins(coins: &mut Vec<Coin>, batch: &Vec<Coin>) -> (done: bool)
    ensures
        match debit_all(coin_entries(old(coins)@), coin_entries(batch@)) {
            Some(t) => done && coin_entries(final(coins)@) == t,
            None => !done && *final(coins) == *old(coins),
        },
{
    let mut draft = duplicate_coins(coins);
    let mut i: usize = 0;
    assert(coin_entries(batch@).skip(0) =~= coin_entries(batch@));
    while i < batch.len()
        invariant
            i <= batch.len(),
            *coins == *old(coins),
            debit_all(coin_entries(old(coins)@), coin_entries(batch@)) == debit_all(
                coin_entries(draft@),
                coin_entries(batch@).skip(i as int),
            ),
        decreases batch.len() - i,
    {
        assert(coin_entries(batch@).skip(i as int)[0] == batch@[i as int]@);
        assert(coin_entries(batch@).skip(i as int).drop_first() =~= coin_entries(batch@).skip(
            i + 1,
        ));
        if !debit_coin(&mut draft, &batch[i]) {
            return false;
        }
        i += 1;
    }
    *coins = draft;
    true
}

} // verus!
