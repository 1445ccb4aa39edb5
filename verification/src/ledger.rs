//! A snapshot of the ledger reads an audit cycle may need, as plain values.
//!
//! The live ledger is an external collaborator; the audit logic works on a
//! snapshot of its answers. A query whose entry is absent models a read that
//! failed, and every consumer treats such an absence as fatal to the cycle
//! (fail-fast), so a snapshot need only hold the reads that actually
//! succeed.

use vstd::prelude::*;
use crate::types::Addr;

verus! {

/// The answers of the read-only ledger accessor, keyed by address: token
/// metadata, balances, supplies and pool share prices, all as the raw
/// integers and byte strings the ledger returns.
pub struct LedgerSnapshot {
    /// token -> its decimal count
    pub decimals: Vec<(Addr, u32)>,
    /// (token, holder) -> raw balance
    pub balances: Vec<(Addr, Addr, u128)>,
    /// token -> raw total supply
    pub total_supplies: Vec<(Addr, u128)>,
    /// token -> its name, as bytes
    pub names: Vec<(Addr, Vec<u8>)>,
    /// token -> its symbol, as bytes
    pub symbols: Vec<(Addr, Vec<u8>)>,
    /// pool -> raw virtual price, at 18 decimals
    pub virtual_prices: Vec<(Addr, u128)>,
    /// strategy -> its underlying ("want") asset
    pub wants: Vec<(Addr, Addr)>,
    /// strategy -> its claim token ("t-asset")
    pub t_assets: Vec<(Addr, Addr)>,
}

/// The first value stored under `key`, if any.
pub open spec fn lookup_pair<V>(entries: Seq<(Addr, V)>, key: Addr) -> Option<V>
    decreases entries.len(),
{
    if entries.len() == 0 {
        None
    } else if entries[0].0 == key {
        Some(entries[0].1)
    } else {
        lookup_pair(entries.skip(1), key)
    }
}

/// The first balance stored under the token/holder pair, if any.
pub open spec fn lookup_balance(entries: Seq<(Addr, Addr, u128)>, token: Addr, holder: Addr) -> Option<
    u128,
>
    decreases entries.len(),
{
    if entries.len() == 0 {
        None
    } else if entries[0].0 == token && entries[0].1 == holder {
        Some(entries[0].2)
    } else {
        lookup_balance(entries.skip(1), token, holder)
    }
}

pub proof fn lemma_lookup_pair_step<V>(entries: Seq<(Addr, V)>, key: Addr, i: int)
    requires
        0 <= i < entries.len(),
    ensures
        lookup_pair(entries.skip(i), key) == if entries[i].0 == key {
            Some(entries[i].1)
        } else {
            lookup_pair(entries.skip(i + 1), key)
        },
{
    assert(entries.skip(i)[0] == entries[i]);
    assert(entries.skip(i).skip(1) =~= entries.skip(i + 1));
}

pub proof fn lemma_lookup_balance_step(
    entries: Seq<(Addr, Addr, u128)>,
    token: Addr,
    holder: Addr,
    i: int,
)
    requires
        0 <= i < entries.len(),
    ensures
        lookup_balance(entries.skip(i), token, holder) == if entries[i].0 == token && entries[i].1
            == holder {
            Some(entries[i].2)
        } else {
            lookup_balance(entries.skip(i + 1), token, holder)
        },
{
    assert(entries.skip(i)[0] == entries[i]);
    assert(entries.skip(i).skip(1) =~= entries.skip(i + 1));
}

/// Linear search for a copyable value under an address key.
#[verifier::loop_isolation(false)]
pub fn find_pair<V: Copy>(entries: &Vec<(Addr, V)>, key: Addr) -> (r: Option<V>)
    ensures
        r == lookup_pair(entries@, key),
{
    let mut i: usize = 0;
    proof {
        assert(entries@.skip(0) =~= entries@);
    }
    while i < entries.len()
        invariant
            0 <= i <= entries@.len(),
            lookup_pair(entries@, key) == lookup_pair(entries@.skip(i as int), key),
        decreases entries@.len() - i,
    {
        proof {
            lemma_lookup_pair_step(entries@, key, i as int);
        }
        let e = &entries[i];
        if e.0 == key {
            return Some(e.1);
        }
        i = i + 1;
    }
    proof {
        assert(entries@.skip(entries@.len() as int) =~= Seq::<(Addr, V)>::empty());
    }
    None
}

/// Linear search for a byte string under an address key.
#[verifier::loop_isolation(false)]
pub fn find_bytes<'a>(entries: &'a Vec<(Addr, Vec<u8>)>, key: Addr) -> (r: Option<&'a Vec<u8>>)
    ensures
        match r {
            Some(v) => lookup_pair(entries@, key) == Some(*v),
            None => lookup_pair(entries@, key) is None,
        },
{
    let mut i: usize = 0;
    proof {
        assert(entries@.skip(0) =~= entries@);
    }
    while i < entries.len()
        invariant
            0 <= i <= entries@.len(),
            lookup_pair(entries@, key) == lookup_pair(entries@.skip(i as int), key),
        decreases entries@.len() - i,
    {
        proof {
            lemma_lookup_pair_step(entries@, key, i as int);
        }
        let e = &entries[i];
        if e.0 == key {
            return Some(&e.1);
        }
        i = i + 1;
    }
    proof {
        assert(entries@.skip(entries@.len() as int) =~= Seq::<(Addr, Vec<u8>)>::empty());
    }
    None
}

/// Linear search for a raw balance under a token/holder pair.
#[verifier::loop_isolation(false)]
pub fn find_balance(entries: &Vec<(Addr, Addr, u128)>, token: Addr, holder: Addr) -> (r: Option<
    u128,
>)
    ensures
        r == lookup_balance(entries@, token, holder),
{
    let mut i: usize = 0;
    proof {
        assert(entries@.skip(0) =~= entries@);
    }
    while i < entries.len()
        invariant
            0 <= i <= entries@.len(),
            lookup_balance(entries@, token, holder) == lookup_balance(
                entries@.skip(i as int),
                token,
                holder,
            ),
        decreases entries@.len() - i,
    {
        proof {
            lemma_lookup_balance_step(entries@, token, holder, i as int);
        }
        let e = &entries[i];
        if e.0 == token && e.1 == holder {
            return Some(e.2);
        }
        i = i + 1;
    }
    proof {
        assert(entries@.skip(entries@.len() as int) =~= Seq::<(Addr, Addr, u128)>::empty());
    }
    None
}

} // verus!
