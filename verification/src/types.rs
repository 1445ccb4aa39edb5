//! Core value types: ledger addresses, the audit error kinds, and the
//! descriptor of a share-price pool.

use vstd::prelude::*;

verus! {

/// A 160-bit ledger address, split into a 32-bit high word and a 128-bit low
/// word so that every part is a plain machine integer.
#[derive(Clone, Copy, Debug, PartialEq, Eq, Hash, Structural)]
pub struct Addr {
    pub hi: u32,
    pub lo: u128,
}

/// The kinds of failure an audit cycle can end with. Any one of them aborts
/// the whole cycle: a partial report is never produced.
#[derive(Debug)]
pub enum Error {
    /// A ledger read failed, returned malformed data, or returned a value
    /// (such as a zero pool-token supply against a positive reserve) that no
    /// well-formed ledger can produce.
    LedgerReadError,
    /// The static registry is missing an expected field.
    ConfigurationError { expected_field: String },
    /// A decimal rescale or combination overflowed.
    ArithmeticError,
}

/// A share-price pool: the pool contract that quotes the virtual price, the
/// LP-token contract (often the same address), and an optional
/// rewards-holding wrapper whose token is counted at a fixed 18-decimal
/// scale.
#[derive(Clone, Copy, Debug)]
pub struct CurvePool {
    pub pool_address: Addr,
    pub token_address: Addr,
    pub convex_rewards_pool_address: Option<Addr>,
}

impl CurvePool {
    pub fn new(pool_address: Addr, token_address: Addr, convex_rewards_pool_address: Option<
        Addr,
    >) -> (r: CurvePool)
        ensures
            r == (CurvePool { pool_address, token_address, convex_rewards_pool_address }),
    {
        CurvePool { pool_address, token_address, convex_rewards_pool_address }
    }

    pub fn pool_address(&self) -> (r: Addr)
        ensures
            r == self.pool_address,
    {
        self.pool_address
    }

    pub fn token_address(&self) -> (r: Addr)
        ensures
            r == self.token_address,
    {
        self.token_address
    }

    pub fn convex_rewards_pool_address(&self) -> (r: Option<Addr>)
        ensures
            r == self.convex_rewards_pool_address,
    {
        self.convex_rewards_pool_address
    }
}

/// One entry of the asset registry: the tracked asset's symbol and the
/// strategy that manages it.
#[derive(Debug)]
pub struct RegistryEntry {
    pub asset_name: String,
    pub strategy: Addr,
}

} // verus!
