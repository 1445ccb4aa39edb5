//! Asset location: which underlying ("want") asset and which claim token
//! ("t-asset") belong to a strategy. The want always comes from the ledger;
//! the claim token first consults the static override table, and a strategy
//! found there resolves without any ledger read.

use vstd::prelude::*;
use crate::config::Config;
use crate::ledger::{LedgerSnapshot, lookup_pair, find_pair};
use crate::types::{Addr, Error};

verus! {

/// What want-resolution returns: the strategy's underlying asset, or a
/// failed read.
pub open spec fn spec_want(s: LedgerSnapshot, strategy: Addr) -> Result<Addr, Error> {
    match lookup_pair(s.wants@, strategy) {
        Option::None => Err(Error::LedgerReadError),
        Option::Some(a) => Ok(a),
    }
}

/// What claim-token resolution returns: the static override when the
/// strategy has one — the snapshot is not consulted at all in that case —
/// and the ledger's answer otherwise.
pub open spec fn spec_t_asset(s: LedgerSnapshot, cfg: Config, strategy: Addr) -> Result<
    Addr,
    Error,
> {
    match lookup_pair(cfg.claim_token_overrides@, strategy) {
        Option::Some(a) => Ok(a),
        Option::None => match lookup_pair(s.t_assets@, strategy) {
            Option::None => Err(Error::LedgerReadError),
            Option::Some(a) => Ok(a),
        },
    }
}

/// The strategy's underlying asset, read from the ledger.
pub fn get_want(snap: &LedgerSnapshot, strategy: Addr) -> (r: Result<Addr, Error>)
    ensures
        r == spec_want(*snap, strategy),
{
    match find_pair(&snap.wants, strategy) {
        Some(a) => Ok(a),
        None => Err(Error::LedgerReadError),
    }
}

/// The strategy's claim token: the hard-coded override when one exists,
/// otherwise the ledger's answer.
pub fn get_t_asset(snap: &LedgerSnapshot, cfg: &Config, strategy: Addr) -> (r: Result<Addr, Error>)
    ensures
        r == spec_t_asset(*snap, *cfg, strategy),
{
    match find_pair(&cfg.claim_token_overrides, strategy) {
        Some(a) => Ok(a),
        None => match find_pair(&snap.t_assets, strategy) {
            Some(a) => Ok(a),
            None => Err(Error::LedgerReadError),
        },
    }
}

/// An overridden strategy resolves to its fixed claim token on every
/// snapshot alike: no ledger read takes part in the answer.
pub proof fn lemma_override_needs_no_ledger(
    s1: LedgerSnapshot,
    s2: LedgerSnapshot,
    cfg: Config,
    strategy: Addr,
)
    requires
        lookup_pair(cfg.claim_token_overrides@, strategy) is Some,
    ensures
        spec_t_asset(s1, cfg, strategy) == spec_t_asset(s2, cfg, strategy),
        spec_t_asset(s1, cfg, strategy) == Ok::<Addr, Error>(
            lookup_pair(cfg.claim_token_overrides@, strategy)->Some_0,
        ),
{
}

} // verus!
