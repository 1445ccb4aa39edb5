//! Pool exposure: how much of an underlying asset is attributable to the
//! protocol's holdings inside third-party liquidity pools.
//!
//! Two pool-accounting schemes are covered. In a proportional-share pool a
//! holder owns `reserve * held / total_supply`; in a share-price pool the
//! pool itself quotes a virtual price per LP token, and holdings (plus an
//! optional rewards-wrapper balance, counted at a fixed 18-decimal scale)
//! are multiplied by it. Every contribution is additive, and the first
//! failed read aborts the whole calculation.

use vstd::prelude::*;
use crate::balance::{
    REPORT_SCALE, get_balance_of, get_total_supply, spec_balance_of, spec_total_supply,
};
use crate::dec::{Dec, rescale_mant, spec_add, spec_div, spec_mul};
use crate::ledger::{LedgerSnapshot, lookup_pair, lookup_balance, find_pair, find_bytes,
    find_balance};
use crate::text::{is_substr, contains_subslice};
use crate::types::{Addr, CurvePool, Error};

verus! {

/// The fixed scale at which a pool's virtual price is quoted.
pub const VIRTUAL_PRICE_SCALE: u32 = 18;

/// The fixed scale assumed for a rewards-wrapper balance; deliberately not
/// derived from the rewards token's own metadata.
pub const REWARDS_TOKEN_SCALE: u32 = 18;

/// The final normalization of an accumulated exposure: brought to the
/// report scale, or an arithmetic error if it cannot be represented there.
pub open spec fn spec_to_report(total: Dec) -> Result<Dec, Error> {
    if rescale_mant(total.mantissa as int, total.scale as nat, REPORT_SCALE as nat)
        <= u128::MAX as int {
        Ok(
            Dec {
                mantissa: rescale_mant(
                    total.mantissa as int,
                    total.scale as nat,
                    REPORT_SCALE as nat,
                ) as u128,
                scale: REPORT_SCALE,
            },
        )
    } else {
        Err(Error::ArithmeticError)
    }
}

/// One proportional-share pool's accounts pass: for each account, its share
/// of the pool (held pool tokens over total supply) times the pool's
/// reserve of the underlying asset, accumulated onto `acc`. A zero pool
/// token supply against the positive reserve is a fatal read anomaly, never
/// a division by zero.
pub open spec fn spec_univ2_accounts(
    s: LedgerSnapshot,
    pool: Addr,
    reserve: Dec,
    accounts: Seq<Addr>,
    acc: Dec,
) -> Result<Dec, Error>
    decreases accounts.len(),
{
    if accounts.len() == 0 {
        Ok(acc)
    } else {
        match spec_balance_of(s, pool, accounts[0]) {
            Result::Err(e) => Err(e),
            Result::Ok(owned) => match spec_total_supply(s, pool) {
                Result::Err(e) => Err(e),
                Result::Ok(supply) => if supply.mantissa == 0 {
                    Err(Error::LedgerReadError)
                } else {
                    match spec_div(owned, supply) {
                        Option::None => Err(Error::ArithmeticError),
                        Option::Some(share) => match spec_mul(reserve, share) {
                            Option::None => Err(Error::ArithmeticError),
                            Option::Some(contribution) => match spec_add(acc, contribution) {
                                Option::None => Err(Error::ArithmeticError),
                                Option::Some(acc2) => spec_univ2_accounts(
                                    s,
                                    pool,
                                    reserve,
                                    accounts.skip(1),
                                    acc2,
                                ),
                            },
                        },
                    }
                },
            },
        }
    }
}

/// The proportional-share pools pass: a pool whose reserve of the
/// underlying asset reads as zero is skipped entirely; any other pool runs
/// the accounts pass above.
pub open spec fn spec_univ2_pools(
    s: LedgerSnapshot,
    want: Addr,
    pools: Seq<Addr>,
    accounts: Seq<Addr>,
    acc: Dec,
) -> Result<Dec, Error>
    decreases pools.len(),
{
    if pools.len() == 0 {
        Ok(acc)
    } else {
        match spec_balance_of(s, want, pools[0]) {
            Result::Err(e) => Err(e),
            Result::Ok(reserve) => if reserve.mantissa == 0 {
                spec_univ2_pools(s, want, pools.skip(1), accounts, acc)
            } else {
                match spec_univ2_accounts(s, pools[0], reserve, accounts, acc) {
                    Result::Err(e) => Err(e),
                    Result::Ok(acc2) => spec_univ2_pools(s, want, pools.skip(1), accounts, acc2),
                }
            },
        }
    }
}

/// What the proportional-share calculator returns: the pools pass started
/// from zero, normalized to the report scale.
pub open spec fn spec_get_want_in_univ2_pools(
    s: LedgerSnapshot,
    want: Addr,
    pools: Seq<Addr>,
    accounts: Seq<Addr>,
) -> Result<Dec, Error> {
    match spec_univ2_pools(s, want, pools, accounts, Dec { mantissa: 0, scale: REPORT_SCALE }) {
        Result::Err(e) => Err(e),
        Result::Ok(total) => spec_to_report(total),
    }
}

/// The underlying asset owned through proportional-share pools: for every
/// candidate pool with a nonzero reserve of `want`, each checked account's
/// share of that reserve, summed and normalized to the report scale.
#[verifier::loop_isolation(false)]
pub fn get_want_in_univ2_pools(
    snap: &LedgerSnapshot,
    want: Addr,
    pools: &Vec<Addr>,
    accounts_to_check: &Vec<Addr>,
) -> (r: Result<Dec, Error>)
    ensures
        r == spec_get_want_in_univ2_pools(*snap, want, pools@, accounts_to_check@),
{
    let ghost start = Dec { mantissa: 0u128, scale: REPORT_SCALE };
    let mut total = Dec::zero(REPORT_SCALE);
    let mut i: usize = 0;
    proof {
        assert(pools@.skip(0) =~= pools@);
    }
    while i < pools.len()
        invariant
            0 <= i <= pools@.len(),
            spec_univ2_pools(*snap, want, pools@, accounts_to_check@, start) == spec_univ2_pools(
                *snap,
                want,
                pools@.skip(i as int),
                accounts_to_check@,
                total,
            ),
        decreases pools@.len() - i,
    {
        proof {
            assert(pools@.skip(i as int)[0] == pools@[i as int]);
            assert(pools@.skip(i as int).skip(1) =~= pools@.skip(i as int + 1));
        }
        let pool = pools[i];
        let reserve = match get_balance_of(snap, want, pool) {
            Ok(v) => v,
            Err(e) => {
                return Err(e);
            },
        };
        if !reserve.is_zero() {
            let ghost entry_total = total;
            let mut j: usize = 0;
            proof {
                assert(accounts_to_check@.skip(0) =~= accounts_to_check@);
            }
            while j < accounts_to_check.len()
                invariant
                    0 <= j <= accounts_to_check@.len(),
                    reserve.mantissa != 0,
                    spec_univ2_accounts(*snap, pool, reserve, accounts_to_check@, entry_total)
                        == spec_univ2_accounts(
                        *snap,
                        pool,
                        reserve,
                        accounts_to_check@.skip(j as int),
                        total,
                    ),
                decreases accounts_to_check@.len() - j,
            {
                proof {
                    assert(accounts_to_check@.skip(j as int)[0] == accounts_to_check@[j as int]);
                    assert(accounts_to_check@.skip(j as int).skip(1) =~= accounts_to_check@.skip(
                        j as int + 1,
                    ));
                }
                let account = accounts_to_check[j];
                let owned_lp_tokens = match get_balance_of(snap, pool, account) {
                    Ok(v) => v,
                    Err(e) => {
                        return Err(e);
                    },
                };
                let lp_token_total_supply = match get_total_supply(snap, pool) {
                    Ok(v) => v,
                    Err(e) => {
                        return Err(e);
                    },
                };
                if lp_token_total_supply.is_zero() {
                    // a positive reserve with no outstanding pool tokens is
                    // a read anomaly, not a division by zero
                    return Err(Error::LedgerReadError);
                }
                let share_of_pool = match owned_lp_tokens.div(lp_token_total_supply) {
                    Some(v) => v,
                    None => {
                        return Err(Error::ArithmeticError);
                    },
                };
                let contribution = match reserve.mul(share_of_pool) {
                    Some(v) => v,
                    None => {
                        return Err(Error::ArithmeticError);
                    },
                };
                total = match total.add(contribution) {
                    Some(v) => v,
                    None => {
                        return Err(Error::ArithmeticError);
                    },
                };
                j = j + 1;
            }
            proof {
                assert(accounts_to_check@.skip(accounts_to_check@.len() as int) =~= Seq::<
                    Addr,
                >::empty());
            }
        }
        i = i + 1;
    }
    proof {
        assert(pools@.skip(pools@.len() as int) =~= Seq::<Addr>::empty());
    }
    match total.rescale(REPORT_SCALE) {
        Some(v) => Ok(v),
        None => Err(Error::ArithmeticError),
    }
}

/// One share-price pool's accounts pass: each checked account's LP-token
/// balance, plus — when the pool has a rewards wrapper — the account's raw
/// rewards balance at the fixed rewards scale, accumulated onto `acc`.
pub open spec fn spec_curve_accounts(
    s: LedgerSnapshot,
    pool: CurvePool,
    accounts: Seq<Addr>,
    acc: Dec,
) -> Result<Dec, Error>
    decreases accounts.len(),
{
    if accounts.len() == 0 {
        Ok(acc)
    } else {
        match spec_balance_of(s, pool.token_address, accounts[0]) {
            Result::Err(e) => Err(e),
            Result::Ok(bal) => match spec_add(acc, bal) {
                Option::None => Err(Error::ArithmeticError),
                Option::Some(acc1) => match pool.convex_rewards_pool_address {
                    Option::None => spec_curve_accounts(s, pool, accounts.skip(1), acc1),
                    Option::Some(rewards) => match lookup_balance(
                        s.balances@,
                        rewards,
                        accounts[0],
                    ) {
                        Option::None => Err(Error::LedgerReadError),
                        Option::Some(raw) => match spec_add(
                            acc1,
                            Dec { mantissa: raw, scale: REWARDS_TOKEN_SCALE },
                        ) {
                            Option::None => Err(Error::ArithmeticError),
                            Option::Some(acc2) => spec_curve_accounts(
                                s,
                                pool,
                                accounts.skip(1),
                                acc2,
                            ),
                        },
                    },
                },
            },
        }
    }
}

/// Whether a share-price pool is considered to back the asset: the asset's
/// symbol occurs in the LP token's name or in its symbol.
pub open spec fn spec_curve_pool_relevant(
    name: Seq<u8>,
    symbol: Seq<u8>,
    want_symbol: Seq<u8>,
) -> bool {
    is_substr(name, want_symbol) || is_substr(symbol, want_symbol)
}

/// The share-price pools pass: for each pool whose LP token correlates with
/// the asset, the accumulated LP holdings of the checked accounts times the
/// pool's virtual price, accumulated onto `acc`. The LP token's name and
/// symbol and the asset's symbol are read for every candidate pool, so any
/// of those reads failing is fatal even for a pool the filter would drop.
pub open spec fn spec_curve_pools(
    s: LedgerSnapshot,
    want: Addr,
    pools: Seq<CurvePool>,
    accounts: Seq<Addr>,
    acc: Dec,
) -> Result<Dec, Error>
    decreases pools.len(),
{
    if pools.len() == 0 {
        Ok(acc)
    } else {
        let pool = pools[0];
        match lookup_pair(s.names@, pool.token_address) {
            Option::None => Err(Error::LedgerReadError),
            Option::Some(lp_name) => match lookup_pair(s.symbols@, pool.token_address) {
                Option::None => Err(Error::LedgerReadError),
                Option::Some(lp_symbol) => match lookup_pair(s.symbols@, want) {
                    Option::None => Err(Error::LedgerReadError),
                    Option::Some(want_symbol) => if spec_curve_pool_relevant(
                        lp_name@,
                        lp_symbol@,
                        want_symbol@,
                    ) {
                        match spec_curve_accounts(s, pool, accounts, Dec { mantissa: 0, scale: 0 }) {
                            Result::Err(e) => Err(e),
                            Result::Ok(owned) => match lookup_pair(
                                s.virtual_prices@,
                                pool.pool_address,
                            ) {
                                Option::None => Err(Error::LedgerReadError),
                                Option::Some(raw_price) => match spec_mul(
                                    owned,
                                    Dec { mantissa: raw_price, scale: VIRTUAL_PRICE_SCALE },
                                ) {
                                    Option::None => Err(Error::ArithmeticError),
                                    Option::Some(contribution) => match spec_add(acc, contribution) {
                                        Option::None => Err(Error::ArithmeticError),
                                        Option::Some(acc2) => spec_curve_pools(
                                            s,
                                            want,
                                            pools.skip(1),
                                            accounts,
                                            acc2,
                                        ),
                                    },
                                },
                            },
                        }
                    } else {
                        spec_curve_pools(s, want, pools.skip(1), accounts, acc)
                    },
                },
            },
        }
    }
}

/// What the share-price calculator returns: the pools pass started from
/// zero, normalized to the report scale.
pub open spec fn spec_get_want_in_curve_pools(
    s: LedgerSnapshot,
    want: Addr,
    pools: Seq<CurvePool>,
    accounts: Seq<Addr>,
) -> Result<Dec, Error> {
    match spec_curve_pools(s, want, pools, accounts, Dec { mantissa: 0, scale: REPORT_SCALE }) {
        Result::Err(e) => Err(e),
        Result::Ok(total) => spec_to_report(total),
    }
}

/// The underlying asset owned through share-price pools: for every
/// candidate pool whose LP token correlates with the asset, the checked
/// accounts' LP-token and rewards balances times the pool's virtual price,
/// summed and normalized to the report scale.
#[verifier::loop_isolation(false)]
pub fn get_want_in_curve_pools(
    snap: &LedgerSnapshot,
    want: Addr,
    pools: &Vec<CurvePool>,
    accounts_to_check: &Vec<Addr>,
) -> (r: Result<Dec, Error>)
    ensures
        r == spec_get_want_in_curve_pools(*snap, want, pools@, accounts_to_check@),
{
    let ghost start = Dec { mantissa: 0u128, scale: REPORT_SCALE };
    let mut total = Dec::zero(REPORT_SCALE);
    let mut i: usize = 0;
    proof {
        assert(pools@.skip(0) =~= pools@);
    }
    while i < pools.len()
        invariant
            0 <= i <= pools@.len(),
            spec_curve_pools(*snap, want, pools@, accounts_to_check@, start) == spec_curve_pools(
                *snap,
                want,
                pools@.skip(i as int),
                accounts_to_check@,
                total,
            ),
        decreases pools@.len() - i,
    {
        proof {
            assert(pools@.skip(i as int)[0] == pools@[i as int]);
            assert(pools@.skip(i as int).skip(1) =~= pools@.skip(i as int + 1));
        }
        let curve_pool = pools[i];
        let lp_token_name = match find_bytes(&snap.names, curve_pool.token_address) {
            Some(v) => v,
            None => {
                return Err(Error::LedgerReadError);
            },
        };
        let lp_token_symbol = match find_bytes(&snap.symbols, curve_pool.token_address) {
            Some(v) => v,
            None => {
                return Err(Error::LedgerReadError);
            },
        };
        let want_symbol = match find_bytes(&snap.symbols, want) {
            Some(v) => v,
            None => {
                return Err(Error::LedgerReadError);
            },
        };
        let name_matches = contains_subslice(lp_token_name, want_symbol);
        let symbol_matches = contains_subslice(lp_token_symbol, want_symbol);
        if name_matches || symbol_matches {
            let mut owned_lp_tokens = Dec::zero(0);
            let ghost entry_owned = Dec { mantissa: 0u128, scale: 0u32 };
            let mut j: usize = 0;
            proof {
                assert(accounts_to_check@.skip(0) =~= accounts_to_check@);
            }
            while j < accounts_to_check.len()
                invariant
                    0 <= j <= accounts_to_check@.len(),
                    spec_curve_accounts(*snap, curve_pool, accounts_to_check@, entry_owned)
                        == spec_curve_accounts(
                        *snap,
                        curve_pool,
                        accounts_to_check@.skip(j as int),
                        owned_lp_tokens,
                    ),
                decreases accounts_to_check@.len() - j,
            {
                proof {
                    assert(accounts_to_check@.skip(j as int)[0] == accounts_to_check@[j as int]);
                    assert(accounts_to_check@.skip(j as int).skip(1) =~= accounts_to_check@.skip(
                        j as int + 1,
                    ));
                }
                let account = accounts_to_check[j];
                let bal = match get_balance_of(snap, curve_pool.token_address, account) {
                    Ok(v) => v,
                    Err(e) => {
                        return Err(e);
                    },
                };
                owned_lp_tokens = match owned_lp_tokens.add(bal) {
                    Some(v) => v,
                    None => {
                        return Err(Error::ArithmeticError);
                    },
                };
                match curve_pool.convex_rewards_pool_address {
                    None => {},
                    Some(rewards) => {
                        let raw = match find_balance(&snap.balances, rewards, account) {
                            Some(v) => v,
                            None => {
                                return Err(Error::LedgerReadError);
                            },
                        };
                        owned_lp_tokens = match owned_lp_tokens.add(
                            Dec { mantissa: raw, scale: REWARDS_TOKEN_SCALE },
                        ) {
                            Some(v) => v,
                            None => {
                                return Err(Error::ArithmeticError);
                            },
                        };
                    },
                }
                j = j + 1;
            }
            proof {
                assert(accounts_to_check@.skip(accounts_to_check@.len() as int) =~= Seq::<
                    Addr,
                >::empty());
            }
            let raw_price = match find_pair(&snap.virtual_prices, curve_pool.pool_address) {
                Some(v) => v,
                None => {
                    return Err(Error::LedgerReadError);
                },
            };
            let virtual_price = Dec { mantissa: raw_price, scale: VIRTUAL_PRICE_SCALE };
            let contribution = match owned_lp_tokens.mul(virtual_price) {
                Some(v) => v,
                None => {
                    return Err(Error::ArithmeticError);
                },
            };
            total = match total.add(contribution) {
                Some(v) => v,
                None => {
                    return Err(Error::ArithmeticError);
                },
            };
        }
        i = i + 1;
    }
    proof {
        assert(pools@.skip(pools@.len() as int) =~= Seq::<CurvePool>::empty());
    }
    match total.rescale(REPORT_SCALE) {
        Some(v) => Ok(v),
        None => Err(Error::ArithmeticError),
    }
}

/// A candidate proportional-share pool whose reserve of the underlying
/// asset reads as zero contributes exactly nothing, whatever pool tokens
/// the checked accounts hold: the calculation continues as if the pool were
/// not in the candidate list at all.
pub proof fn lemma_zero_reserve_pool_skipped(
    s: LedgerSnapshot,
    want: Addr,
    pools: Seq<Addr>,
    accounts: Seq<Addr>,
    acc: Dec,
)
    requires
        pools.len() > 0,
        spec_balance_of(s, want, pools[0]) matches Ok(reserve) && reserve.mantissa == 0,
    ensures
        spec_univ2_pools(s, want, pools, accounts, acc) == spec_univ2_pools(
            s,
            want,
            pools.skip(1),
            accounts,
            acc,
        ),
{
}

/// A proportional-share pool whose reserve is positive but whose pool-token
/// total supply reads as zero fails the whole calculation with a ledger
/// read error — the undefined share is never computed.
pub proof fn lemma_zero_supply_is_read_error(
    s: LedgerSnapshot,
    want: Addr,
    pools: Seq<Addr>,
    accounts: Seq<Addr>,
    acc: Dec,
)
    requires
        pools.len() > 0,
        accounts.len() > 0,
        spec_balance_of(s, want, pools[0]) matches Ok(reserve) && reserve.mantissa != 0,
        spec_balance_of(s, pools[0], accounts[0]) is Ok,
        spec_total_supply(s, pools[0]) matches Ok(supply) && supply.mantissa == 0,
    ensures
        spec_univ2_pools(s, want, pools, accounts, acc) == Err::<Dec, Error>(
            Error::LedgerReadError,
        ),
{
}

/// A share-price pool whose LP-token name and symbol both lack the asset's
/// symbol is excluded entirely, however many LP tokens the checked accounts
/// hold: the calculation continues as if the pool were not listed.
pub proof fn lemma_unrelated_curve_pool_excluded(
    s: LedgerSnapshot,
    want: Addr,
    pools: Seq<CurvePool>,
    accounts: Seq<Addr>,
    acc: Dec,
)
    requires
        pools.len() > 0,
        lookup_pair(s.names@, pools[0].token_address) matches Some(lp_name)
            && lookup_pair(s.symbols@, pools[0].token_address) matches Some(lp_symbol)
            && lookup_pair(s.symbols@, want) matches Some(want_symbol)
            && !spec_curve_pool_relevant(lp_name@, lp_symbol@, want_symbol@),
    ensures
        spec_curve_pools(s, want, pools, accounts, acc) == spec_curve_pools(
            s,
            want,
            pools.skip(1),
            accounts,
            acc,
        ),
{
}

} // verus!
