//! Token balance resolution: raw ledger integers paired with the token's
//! decimal count, brought to the canonical report scale at the boundary,
//! before they are combined with anything else.

use vstd::prelude::*;
use crate::dec::{Dec, rescale_mant};
use crate::ledger::{LedgerSnapshot, lookup_pair, lookup_balance, find_pair, find_balance};
use crate::types::{Addr, Error};

verus! {

/// The scale every report quantity is normalized to.
pub const REPORT_SCALE: u32 = 6;

/// The largest decimal count accepted from token metadata; a larger answer
/// is treated as a malformed read.
pub const MAX_TOKEN_DECIMALS: u32 = 28;

/// A raw ledger amount brought to the report scale: rejected as a bad read
/// when the claimed decimal count is implausible, an arithmetic error when
/// widening a low-decimals amount overflows, and otherwise the exact
/// truncating rescale.
pub open spec fn spec_scaled(raw: u128, decimals: u32) -> Result<Dec, Error> {
    if decimals > MAX_TOKEN_DECIMALS {
        Err(Error::LedgerReadError)
    } else if rescale_mant(raw as int, decimals as nat, REPORT_SCALE as nat) <= u128::MAX as int {
        Ok(
            Dec {
                mantissa: rescale_mant(raw as int, decimals as nat, REPORT_SCALE as nat) as u128,
                scale: REPORT_SCALE,
            },
        )
    } else {
        Err(Error::ArithmeticError)
    }
}

/// What resolving a balance returns: the holder's raw balance of the token,
/// at the report scale; a failed read of either the decimals or the balance
/// fails the resolution.
pub open spec fn spec_balance_of(s: LedgerSnapshot, token: Addr, account: Addr) -> Result<
    Dec,
    Error,
> {
    match lookup_pair(s.decimals@, token) {
        Option::None => Err(Error::LedgerReadError),
        Option::Some(d) => match lookup_balance(s.balances@, token, account) {
            Option::None => Err(Error::LedgerReadError),
            Option::Some(raw) => spec_scaled(raw, d),
        },
    }
}

/// What resolving a total supply returns, in the same form.
pub open spec fn spec_total_supply(s: LedgerSnapshot, token: Addr) -> Result<Dec, Error> {
    match lookup_pair(s.decimals@, token) {
        Option::None => Err(Error::LedgerReadError),
        Option::Some(d) => match lookup_pair(s.total_supplies@, token) {
            Option::None => Err(Error::LedgerReadError),
            Option::Some(raw) => spec_scaled(raw, d),
        },
    }
}

fn scaled(raw: u128, decimals: u32) -> (r: Result<Dec, Error>)
    ensures
        r == spec_scaled(raw, decimals),
{
    if decimals > MAX_TOKEN_DECIMALS {
        return Err(Error::LedgerReadError);
    }
    let d = Dec { mantissa: raw, scale: decimals };
    match d.rescale(REPORT_SCALE) {
        Some(v) => Ok(v),
        None => Err(Error::ArithmeticError),
    }
}

/// The holder's balance of a token, read from the snapshot and normalized
/// to the report scale.
pub fn get_balance_of(snap: &LedgerSnapshot, token: Addr, account: Addr) -> (r: Result<Dec, Error>)
    ensures
        r == spec_balance_of(*snap, token, account),
{
    let decimals = match find_pair(&snap.decimals, token) {
        Some(d) => d,
        None => {
            return Err(Error::LedgerReadError);
        },
    };
    let raw = match find_balance(&snap.balances, token, account) {
        Some(v) => v,
        None => {
            return Err(Error::LedgerReadError);
        },
    };
    scaled(raw, decimals)
}

/// The token's total supply, read from the snapshot and normalized to the
/// report scale.
pub fn get_total_supply(snap: &LedgerSnapshot, token: Addr) -> (r: Result<Dec, Error>)
    ensures
        r == spec_total_supply(*snap, token),
{
    let decimals = match find_pair(&snap.decimals, token) {
        Some(d) => d,
        None => {
            return Err(Error::LedgerReadError);
        },
    };
    let raw = match find_pair(&snap.total_supplies, token) {
        Some(v) => v,
        None => {
            return Err(Error::LedgerReadError);
        },
    };
    scaled(raw, decimals)
}

} // verus!
