//! The report aggregator: one audit cycle turns the asset registry and a
//! ledger snapshot into one record per tracked asset, or fails as a whole —
//! the first failed read or overflow aborts the cycle and no partial report
//! exists.

use vstd::prelude::*;
use crate::balance::{
    REPORT_SCALE, get_balance_of, get_total_supply, spec_balance_of, spec_total_supply,
};
use crate::config::Config;
use crate::dec::{Dec, rescale_mant, spec_add, spec_div};
use crate::locator::{get_t_asset, get_want, spec_t_asset, spec_want};
use crate::ledger::LedgerSnapshot;
use crate::pools::{
    get_want_in_curve_pools, get_want_in_univ2_pools, spec_get_want_in_curve_pools,
    spec_get_want_in_univ2_pools,
};
use crate::types::{Addr, Error, RegistryEntry};

verus! {

/// The display scale of a health ratio.
pub const HEALTH_RATIO_SCALE: u32 = 3;

/// One tracked asset's audit record. Immutable once constructed; all
/// quantities are at the report scale.
#[derive(Debug)]
pub struct IndividualAssetTokemakReport {
    pub asset_name: String,
    pub t_asset_strategy_balance: Dec,
    pub t_asset_total_supply: Dec,
    pub total_assets: Dec,
    pub free_assets: Dec,
    pub assets_in_lp_tokens_without_impermanent_loss: Dec,
    pub assets_in_lp_tokens_with_impermanent_loss: Dec,
}

impl IndividualAssetTokemakReport {
    pub fn new(
        asset_name: String,
        t_asset_strategy_balance: Dec,
        t_asset_total_supply: Dec,
        total_assets: Dec,
        free_assets: Dec,
        assets_in_lp_tokens_without_impermanent_loss: Dec,
        assets_in_lp_tokens_with_impermanent_loss: Dec,
    ) -> (r: IndividualAssetTokemakReport)
        ensures
            r == (IndividualAssetTokemakReport {
                asset_name,
                t_asset_strategy_balance,
                t_asset_total_supply,
                total_assets,
                free_assets,
                assets_in_lp_tokens_without_impermanent_loss,
                assets_in_lp_tokens_with_impermanent_loss,
            }),
    {
        IndividualAssetTokemakReport {
            asset_name,
            t_asset_strategy_balance,
            t_asset_total_supply,
            total_assets,
            free_assets,
            assets_in_lp_tokens_without_impermanent_loss,
            assets_in_lp_tokens_with_impermanent_loss,
        }
    }

    pub fn asset_name(&self) -> (r: &String)
        ensures
            r == &self.asset_name,
    {
        &self.asset_name
    }

    pub fn t_asset_strategy_balance(&self) -> (r: Dec)
        ensures
            r == self.t_asset_strategy_balance,
    {
        self.t_asset_strategy_balance
    }

    pub fn t_asset_total_supply(&self) -> (r: Dec)
        ensures
            r == self.t_asset_total_supply,
    {
        self.t_asset_total_supply
    }

    pub fn total_assets(&self) -> (r: Dec)
        ensures
            r == self.total_assets,
    {
        self.total_assets
    }

    pub fn free_assets(&self) -> (r: Dec)
        ensures
            r == self.free_assets,
    {
        self.free_assets
    }

    pub fn assets_in_lp_tokens_without_impermanent_loss(&self) -> (r: Dec)
        ensures
            r == self.assets_in_lp_tokens_without_impermanent_loss,
    {
        self.assets_in_lp_tokens_without_impermanent_loss
    }

    pub fn assets_in_lp_tokens_with_impermanent_loss(&self) -> (r: Dec)
        ensures
            r == self.assets_in_lp_tokens_with_impermanent_loss,
    {
        self.assets_in_lp_tokens_with_impermanent_loss
    }
}

/// The extra free-asset accounts configured for an asset, or none.
pub open spec fn spec_extra_accounts(entries: Seq<(String, Vec<Addr>)>, name: Seq<char>) -> Seq<
    Addr,
>
    decreases entries.len(),
{
    if entries.len() == 0 {
        Seq::empty()
    } else if entries[0].0@ == name {
        entries[0].1@
    } else {
        spec_extra_accounts(entries.skip(1), name)
    }
}

/// The accounts whose direct holdings count as the asset's free assets: the
/// claim token's own address, the configured protocol accounts, and any
/// per-asset extras.
pub open spec fn spec_free_asset_accounts(cfg: Config, t_asset: Addr, name: Seq<char>) -> Seq<
    Addr,
> {
    seq![t_asset] + cfg.free_asset_accounts@ + spec_extra_accounts(
        cfg.extra_free_asset_accounts@,
        name,
    )
}

/// The direct holdings of `want` across `accounts`, summed exactly.
pub open spec fn spec_free_assets(
    s: LedgerSnapshot,
    want: Addr,
    accounts: Seq<Addr>,
    acc: Dec,
) -> Result<Dec, Error>
    decreases accounts.len(),
{
    if accounts.len() == 0 {
        Ok(acc)
    } else {
        match spec_balance_of(s, want, accounts[0]) {
            Result::Err(e) => Err(e),
            Result::Ok(bal) => match spec_add(acc, bal) {
                Option::None => Err(Error::ArithmeticError),
                Option::Some(acc2) => spec_free_assets(s, want, accounts.skip(1), acc2),
            },
        }
    }
}

/// One asset's record: locate the want and claim token, read the claim
/// token's supply and the strategy's claim balance, sum the free assets and
/// the two pool exposures, and total them.
pub open spec fn spec_asset_report(s: LedgerSnapshot, cfg: Config, entry: RegistryEntry) -> Result<
    IndividualAssetTokemakReport,
    Error,
> {
    match spec_want(s, entry.strategy) {
        Result::Err(e) => Err(e),
        Result::Ok(want) => match spec_t_asset(s, cfg, entry.strategy) {
            Result::Err(e) => Err(e),
            Result::Ok(t_asset) => match spec_total_supply(s, t_asset) {
                Result::Err(e) => Err(e),
                Result::Ok(t_asset_total_supply) => match spec_balance_of(
                    s,
                    t_asset,
                    entry.strategy,
                ) {
                    Result::Err(e) => Err(e),
                    Result::Ok(t_asset_strategy_balance) => match spec_free_assets(
                        s,
                        want,
                        spec_free_asset_accounts(cfg, t_asset, entry.asset_name@),
                        Dec { mantissa: 0, scale: 0 },
                    ) {
                        Result::Err(e) => Err(e),
                        Result::Ok(free_assets) => match spec_get_want_in_univ2_pools(
                            s,
                            want,
                            cfg.univ2_pool_addresses@,
                            cfg.lp_token_accounts@,
                        ) {
                            Result::Err(e) => Err(e),
                            Result::Ok(univ2) => match spec_get_want_in_curve_pools(
                                s,
                                want,
                                cfg.curve_pools@,
                                cfg.lp_token_accounts@,
                            ) {
                                Result::Err(e) => Err(e),
                                Result::Ok(curve) => match spec_add(free_assets, univ2) {
                                    Option::None => Err(Error::ArithmeticError),
                                    Option::Some(partial) => match spec_add(partial, curve) {
                                        Option::None => Err(Error::ArithmeticError),
                                        Option::Some(total_assets) => Ok(
                                            IndividualAssetTokemakReport {
                                                asset_name: entry.asset_name,
                                                t_asset_strategy_balance,
                                                t_asset_total_supply,
                                                total_assets,
                                                free_assets,
                                                assets_in_lp_tokens_without_impermanent_loss:
                                                    curve,
                                                assets_in_lp_tokens_with_impermanent_loss: univ2,
                                            },
                                        ),
                                    },
                                },
                            },
                        },
                    },
                },
            },
        },
    }
}

/// The whole cycle over the remaining registry entries, records accumulated
/// in registry order; the first failure aborts everything.
pub open spec fn spec_create_report_from(
    s: LedgerSnapshot,
    cfg: Config,
    entries: Seq<RegistryEntry>,
    acc: Seq<IndividualAssetTokemakReport>,
) -> Result<Seq<IndividualAssetTokemakReport>, Error>
    decreases entries.len(),
{
    if entries.len() == 0 {
        Ok(acc)
    } else {
        match spec_asset_report(s, cfg, entries[0]) {
            Result::Err(e) => Err(e),
            Result::Ok(rep) => spec_create_report_from(s, cfg, entries.skip(1), acc.push(rep)),
        }
    }
}

/// What a full audit cycle returns.
pub open spec fn spec_create_report(s: LedgerSnapshot, cfg: Config, registry: Seq<RegistryEntry>) -> Result<
    Seq<IndividualAssetTokemakReport>,
    Error,
> {
    spec_create_report_from(s, cfg, registry, Seq::empty())
}

/// A record's totals balance exactly: the sum of the three exposure kinds,
/// all at the report scale, is the reported total.
pub open spec fn spec_report_sums(rep: IndividualAssetTokemakReport) -> bool {
    &&& rep.total_assets.scale == REPORT_SCALE
    &&& rep.free_assets.scale == REPORT_SCALE
    &&& rep.assets_in_lp_tokens_without_impermanent_loss.scale == REPORT_SCALE
    &&& rep.assets_in_lp_tokens_with_impermanent_loss.scale == REPORT_SCALE
    &&& rep.total_assets.mantissa as int == rep.free_assets.mantissa as int
        + rep.assets_in_lp_tokens_without_impermanent_loss.mantissa as int
        + rep.assets_in_lp_tokens_with_impermanent_loss.mantissa as int
}

/// One audit cycle: for every registry entry, in order, the asset's record;
/// the first failed read or overflow fails the cycle with that error, and
/// in every record the reported total is exactly the sum of the free assets
/// and the two pool exposures.
#[verifier::loop_isolation(false)]
#[verifier::rlimit(80)]
pub fn create_report(snap: &LedgerSnapshot, cfg: &Config, registry: Vec<RegistryEntry>) -> (r:
    Result<Vec<IndividualAssetTokemakReport>, Error>)
    ensures
        r matches Ok(reports) ==> spec_create_report(*snap, *cfg, registry@) == Ok::<
            Seq<IndividualAssetTokemakReport>,
            Error,
        >(reports@),
        r matches Err(e) ==> spec_create_report(*snap, *cfg, registry@) == Err::<
            Seq<IndividualAssetTokemakReport>,
            Error,
        >(e),
        r matches Ok(reports) ==> forall|k: int|
            0 <= k < reports@.len() ==> spec_report_sums(#[trigger] reports@[k]),
{
    let mut reports: Vec<IndividualAssetTokemakReport> = Vec::new();
    let mut i: usize = 0;
    proof {
        assert(registry@.skip(0) =~= registry@);
    }
    let n = registry.len();
    let mut remaining = registry;
    // entries are taken in order; each is consumed by its record
    let ghost all_entries = remaining@;
    while i < n
        invariant
            0 <= i <= n,
            n == all_entries.len(),
            remaining@ =~= all_entries.skip(i as int),
            spec_create_report_from(*snap, *cfg, all_entries, Seq::empty())
                == spec_create_report_from(*snap, *cfg, all_entries.skip(i as int), reports@),
            forall|k: int| 0 <= k < reports@.len() ==> spec_report_sums(#[trigger] reports@[k]),
        decreases n - i,
    {
        proof {
            assert(all_entries.skip(i as int)[0] == all_entries[i as int]);
            assert(all_entries.skip(i as int).skip(1) =~= all_entries.skip(i as int + 1));
        }
        let entry = remaining.remove(0);
        let strategy = entry.strategy;
        let want = match get_want(snap, strategy) {
            Ok(v) => v,
            Err(e) => {
                return Err(e);
            },
        };
        let t_asset = match get_t_asset(snap, cfg, strategy) {
            Ok(v) => v,
            Err(e) => {
                return Err(e);
            },
        };
        let t_asset_total_supply = match get_total_supply(snap, t_asset) {
            Ok(v) => v,
            Err(e) => {
                return Err(e);
            },
        };
        let t_asset_strategy_balance = match get_balance_of(snap, t_asset, strategy) {
            Ok(v) => v,
            Err(e) => {
                return Err(e);
            },
        };

        // the accounts whose direct want-holdings are free assets
        let mut accounts_to_check: Vec<Addr> = Vec::new();
        accounts_to_check.push(t_asset);
        let mut k: usize = 0;
        while k < cfg.free_asset_accounts.len()
            invariant
                0 <= k <= cfg.free_asset_accounts@.len(),
                accounts_to_check@ =~= seq![t_asset] + cfg.free_asset_accounts@.take(k as int),
            decreases cfg.free_asset_accounts@.len() - k,
        {
            accounts_to_check.push(cfg.free_asset_accounts[k]);
            proof {
                assert(accounts_to_check@ =~= seq![t_asset] + cfg.free_asset_accounts@.take(
                    k as int + 1,
                ));
            }
            k = k + 1;
        }
        proof {
            assert(cfg.free_asset_accounts@.take(cfg.free_asset_accounts@.len() as int)
                =~= cfg.free_asset_accounts@);
        }
        let extras = find_extra_accounts(&cfg.extra_free_asset_accounts, &entry.asset_name);
        match extras {
            Some(v) => {
                let mut k2: usize = 0;
                let ghost base = accounts_to_check@;
                while k2 < v.len()
                    invariant
                        0 <= k2 <= v@.len(),
                        accounts_to_check@ =~= base + v@.take(k2 as int),
                    decreases v@.len() - k2,
                {
                    accounts_to_check.push(v[k2]);
                    proof {
                        assert(accounts_to_check@ =~= base + v@.take(k2 as int + 1));
                    }
                    k2 = k2 + 1;
                }
                proof {
                    assert(v@.take(v@.len() as int) =~= v@);
                    assert(accounts_to_check@ =~= spec_free_asset_accounts(
                        *cfg,
                        t_asset,
                        entry.asset_name@,
                    ));
                }
            },
            None => {
                proof {
                    assert(accounts_to_check@ =~= spec_free_asset_accounts(
                        *cfg,
                        t_asset,
                        entry.asset_name@,
                    ));
                }
            },
        }

        // free assets: the direct holdings summed, starting from zero
        let mut free_assets = Dec::zero(0);
        let ghost zero0 = Dec { mantissa: 0u128, scale: 0u32 };
        let mut j: usize = 0;
        proof {
            assert(accounts_to_check@.skip(0) =~= accounts_to_check@);
        }
        while j < accounts_to_check.len()
            invariant
                0 <= j <= accounts_to_check@.len(),
                spec_free_assets(*snap, want, accounts_to_check@, zero0) == spec_free_assets(
                    *snap,
                    want,
                    accounts_to_check@.skip(j as int),
                    free_assets,
                ),
                j == 0 ==> free_assets == zero0,
                j > 0 ==> free_assets.scale == REPORT_SCALE,
            decreases accounts_to_check@.len() - j,
        {
            proof {
                assert(accounts_to_check@.skip(j as int)[0] == accounts_to_check@[j as int]);
                assert(accounts_to_check@.skip(j as int).skip(1) =~= accounts_to_check@.skip(
                    j as int + 1,
                ));
            }
            let account = accounts_to_check[j];
            let bal = match get_balance_of(snap, want, account) {
                Ok(v) => v,
                Err(e) => {
                    return Err(e);
                },
            };
            free_assets = match free_assets.add(bal) {
                Some(v) => v,
                None => {
                    return Err(Error::ArithmeticError);
                },
            };
            j = j + 1;
        }
        proof {
            assert(accounts_to_check@.skip(accounts_to_check@.len() as int) =~= Seq::<
                Addr,
            >::empty());
        }

        let assets_in_lp_tokens_with_impermanent_loss = match get_want_in_univ2_pools(
            snap,
            want,
            &cfg.univ2_pool_addresses,
            &cfg.lp_token_accounts,
        ) {
            Ok(v) => v,
            Err(e) => {
                return Err(e);
            },
        };
        let assets_in_lp_tokens_without_impermanent_loss = match get_want_in_curve_pools(
            snap,
            want,
            &cfg.curve_pools,
            &cfg.lp_token_accounts,
        ) {
            Ok(v) => v,
            Err(e) => {
                return Err(e);
            },
        };
        let partial = match free_assets.add(assets_in_lp_tokens_with_impermanent_loss) {
            Some(v) => v,
            None => {
                return Err(Error::ArithmeticError);
            },
        };
        let total_assets = match partial.add(assets_in_lp_tokens_without_impermanent_loss) {
            Some(v) => v,
            None => {
                return Err(Error::ArithmeticError);
            },
        };
        proof {
            vstd::arithmetic::power::lemma_pow0(10);
        }
        let rep = IndividualAssetTokemakReport {
            asset_name: entry.asset_name,
            t_asset_strategy_balance,
            t_asset_total_supply,
            total_assets,
            free_assets,
            assets_in_lp_tokens_without_impermanent_loss,
            assets_in_lp_tokens_with_impermanent_loss,
        };
        reports.push(rep);
        i = i + 1;
    }
    proof {
        assert(all_entries.skip(all_entries.len() as int) =~= Seq::<RegistryEntry>::empty());
    }
    Ok(reports)
}

/// Linear search of the per-asset extra account table by asset symbol.
#[verifier::loop_isolation(false)]
pub fn find_extra_accounts<'a>(entries: &'a Vec<(String, Vec<Addr>)>, name: &String) -> (r: Option<
    &'a Vec<Addr>,
>)
    ensures
        match r {
            Some(v) => spec_extra_accounts(entries@, name@) == v@,
            None => spec_extra_accounts(entries@, name@) == Seq::<Addr>::empty(),
        },
{
    let mut i: usize = 0;
    proof {
        assert(entries@.skip(0) =~= entries@);
    }
    while i < entries.len()
        invariant
            0 <= i <= entries@.len(),
            spec_extra_accounts(entries@, name@) == spec_extra_accounts(
                entries@.skip(i as int),
                name@,
            ),
        decreases entries@.len() - i,
    {
        proof {
            assert(entries@.skip(i as int)[0] == entries@[i as int]);
            assert(entries@.skip(i as int).skip(1) =~= entries@.skip(i as int + 1));
        }
        let e = &entries[i];
        if e.0.eq(name) {
            return Some(&e.1);
        }
        i = i + 1;
    }
    proof {
        assert(entries@.skip(entries@.len() as int) =~= Seq::<(String, Vec<Addr>)>::empty());
    }
    None
}

/// What the health ratio is: total underlying assets over the claim-token
/// supply, truncated to the display scale.
pub open spec fn spec_health_ratio(rep: IndividualAssetTokemakReport) -> Result<Dec, Error>
    recommends
        rep.t_asset_total_supply.mantissa != 0,
{
    match spec_div(rep.total_assets, rep.t_asset_total_supply) {
        Option::None => Err(Error::ArithmeticError),
        Option::Some(q) => if rescale_mant(
            q.mantissa as int,
            q.scale as nat,
            HEALTH_RATIO_SCALE as nat,
        ) <= u128::MAX as int {
            Ok(
                Dec {
                    mantissa: rescale_mant(
                        q.mantissa as int,
                        q.scale as nat,
                        HEALTH_RATIO_SCALE as nat,
                    ) as u128,
                    scale: HEALTH_RATIO_SCALE,
                },
            )
        } else {
            Err(Error::ArithmeticError)
        },
    }
}

/// The coverage ratio displayed per asset: assets over liabilities at the
/// display scale. The caller must have ruled out a zero claim-token supply.
pub fn health_ratio(report: &IndividualAssetTokemakReport) -> (r: Result<Dec, Error>)
    requires
        report.t_asset_total_supply.mantissa != 0,
    ensures
        r == spec_health_ratio(*report),
{
    let q = match report.total_assets.div(report.t_asset_total_supply) {
        Some(v) => v,
        None => {
            return Err(Error::ArithmeticError);
        },
    };
    match q.rescale(HEALTH_RATIO_SCALE) {
        Some(v) => Ok(v),
        None => Err(Error::ArithmeticError),
    }
}

} // verus!
