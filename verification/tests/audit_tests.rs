use dik_dik::balance::{get_balance_of, get_total_supply};
use dik_dik::config::{default_config, Config};
use dik_dik::dec::Dec;
use dik_dik::ledger::LedgerSnapshot;
use dik_dik::locator::{get_t_asset, get_want};
use dik_dik::pools::{get_want_in_curve_pools, get_want_in_univ2_pools};
use dik_dik::report::{create_report, health_ratio};
use dik_dik::types::{Addr, CurvePool, Error, RegistryEntry};

fn d(mantissa: u128, scale: u32) -> Dec {
    Dec { mantissa, scale }
}

fn empty_snapshot() -> LedgerSnapshot {
    LedgerSnapshot {
        decimals: Vec::new(),
        balances: Vec::new(),
        total_supplies: Vec::new(),
        names: Vec::new(),
        symbols: Vec::new(),
        virtual_prices: Vec::new(),
        wants: Vec::new(),
        t_assets: Vec::new(),
    }
}

const STRATEGY: Addr = Addr { hi: 0, lo: 1 };
const WANT: Addr = Addr { hi: 0, lo: 2 };
const T_ASSET: Addr = Addr { hi: 0, lo: 3 };
const MANAGER: Addr = Addr { hi: 0, lo: 10 };
const COORDINATOR: Addr = Addr { hi: 0, lo: 11 };
const POOL: Addr = Addr { hi: 0, lo: 20 };
const POOL2: Addr = Addr { hi: 0, lo: 21 };
const CURVE: Addr = Addr { hi: 0, lo: 30 };
const REWARDS: Addr = Addr { hi: 0, lo: 31 };

fn test_config(univ2: Vec<Addr>, curve: Vec<CurvePool>) -> Config {
    Config {
        free_asset_accounts: vec![MANAGER, COORDINATOR],
        extra_free_asset_accounts: Vec::new(),
        lp_token_accounts: vec![MANAGER, COORDINATOR],
        claim_token_overrides: Vec::new(),
        univ2_pool_addresses: univ2,
        curve_pools: curve,
    }
}

/// A snapshot where the strategy's want and claim token resolve, the claim
/// token has the given supply and the free accounts hold the given raw
/// want-balances (all tokens at 6 decimals).
fn base_snapshot(supply_raw: u128, t_raw: u128, m_raw: u128, c_raw: u128) -> LedgerSnapshot {
    let mut s = empty_snapshot();
    s.decimals.push((WANT, 6));
    s.decimals.push((T_ASSET, 6));
    s.wants.push((STRATEGY, WANT));
    s.t_assets.push((STRATEGY, T_ASSET));
    s.total_supplies.push((T_ASSET, supply_raw));
    s.balances.push((T_ASSET, STRATEGY, 0));
    s.balances.push((WANT, T_ASSET, t_raw));
    s.balances.push((WANT, MANAGER, m_raw));
    s.balances.push((WANT, COORDINATOR, c_raw));
    s
}

fn registry() -> Vec<RegistryEntry> {
    vec![RegistryEntry { asset_name: String::from("USDC"), strategy: STRATEGY }]
}

#[test]
fn scenario_free_balance_only_health_ratio_is_one() {
    // free balance 1,000.000000, no pool exposure, claim supply 1,000.000000
    let mut snap = base_snapshot(1_000_000_000, 0, 1_000_000_000, 0);
    snap.balances.push((WANT, POOL, 0)); // the one candidate pool holds no reserve
    let cfg = test_config(vec![POOL], Vec::new());
    let reports = create_report(&snap, &cfg, registry()).unwrap();
    assert_eq!(reports.len(), 1);
    let rep = &reports[0];
    assert_eq!(rep.asset_name, "USDC");
    assert_eq!(rep.free_assets, d(1_000_000_000, 6));
    assert_eq!(rep.assets_in_lp_tokens_with_impermanent_loss, d(0, 6));
    assert_eq!(rep.assets_in_lp_tokens_without_impermanent_loss, d(0, 6));
    assert_eq!(rep.total_assets, d(1_000_000_000, 6));
    assert_eq!(rep.t_asset_total_supply, d(1_000_000_000, 6));
    assert_eq!(health_ratio(rep).unwrap(), d(1_000, 3)); // 1.000
}

#[test]
fn scenario_proportional_pool_share_adds_up() {
    // free 500; pool reserve 10,000; checked-account share 0.10
    let mut snap = base_snapshot(1_000_000_000, 0, 500_000_000, 0);
    snap.decimals.push((POOL, 6));
    snap.balances.push((WANT, POOL, 10_000_000_000));
    snap.balances.push((POOL, MANAGER, 100_000_000));
    snap.balances.push((POOL, COORDINATOR, 0));
    snap.total_supplies.push((POOL, 1_000_000_000));
    let cfg = test_config(vec![POOL], Vec::new());
    let reports = create_report(&snap, &cfg, registry()).unwrap();
    let rep = &reports[0];
    assert_eq!(rep.free_assets, d(500_000_000, 6));
    assert_eq!(rep.assets_in_lp_tokens_with_impermanent_loss, d(1_000_000_000, 6));
    assert_eq!(rep.total_assets, d(1_500_000_000, 6));
}

#[test]
fn scenario_all_zero_reserves_give_exact_zero() {
    // zero reserve across all proportional candidates: exactly 0.000000
    let mut snap = base_snapshot(1_000_000_000, 0, 0, 0);
    snap.balances.push((WANT, POOL, 0));
    snap.balances.push((WANT, POOL2, 0));
    // the accounts hold pool tokens, but no pool has relevant reserves
    snap.balances.push((POOL, MANAGER, 123_456));
    snap.balances.push((POOL2, MANAGER, 654_321));
    let cfg = test_config(vec![POOL, POOL2], Vec::new());
    let reports = create_report(&snap, &cfg, registry()).unwrap();
    let rep = &reports[0];
    assert_eq!(rep.assets_in_lp_tokens_with_impermanent_loss, d(0, 6));
    assert_eq!(rep.total_assets, d(0, 6));
}

#[test]
fn scenario_claim_token_override_needs_no_ledger_entry() {
    // the one hard-coded strategy resolves to its fixed claim token even on
    // a snapshot that has no claim-token entry at all
    let cfg = default_config();
    let (strategy, claim) = cfg.claim_token_overrides[0];
    let snap = empty_snapshot();
    assert_eq!(get_t_asset(&snap, &cfg, strategy).unwrap(), claim);
}

#[test]
fn unoverridden_strategy_reads_claim_token_from_ledger() {
    let cfg = default_config();
    let mut snap = empty_snapshot();
    snap.t_assets.push((STRATEGY, T_ASSET));
    assert_eq!(get_t_asset(&snap, &cfg, STRATEGY).unwrap(), T_ASSET);
    assert!(matches!(get_t_asset(&snap, &cfg, POOL), Err(Error::LedgerReadError)));
}

#[test]
fn zero_reserve_pool_is_skipped_without_reading_its_supply() {
    let mut snap = empty_snapshot();
    snap.decimals.push((WANT, 6));
    snap.decimals.push((POOL, 6));
    snap.balances.push((WANT, POOL, 0));
    // large holdings and no total-supply entry: a skipped pool reads nothing
    snap.balances.push((POOL, MANAGER, u128::MAX));
    let accounts = vec![MANAGER];
    let r = get_want_in_univ2_pools(&snap, WANT, &vec![POOL], &accounts).unwrap();
    assert_eq!(r, d(0, 6));
}

#[test]
fn dust_reserve_below_report_scale_counts_as_zero() {
    // one raw unit of an 18-decimals token vanishes at the report scale
    let mut snap = empty_snapshot();
    snap.decimals.push((WANT, 18));
    snap.balances.push((WANT, POOL, 1));
    let accounts = vec![MANAGER];
    let r = get_want_in_univ2_pools(&snap, WANT, &vec![POOL], &accounts).unwrap();
    assert_eq!(r, d(0, 6));
}

#[test]
fn zero_supply_with_positive_reserve_is_a_read_error() {
    let mut snap = empty_snapshot();
    snap.decimals.push((WANT, 6));
    snap.decimals.push((POOL, 6));
    snap.balances.push((WANT, POOL, 5_000_000));
    snap.balances.push((POOL, MANAGER, 1_000_000));
    snap.total_supplies.push((POOL, 0));
    let accounts = vec![MANAGER];
    let r = get_want_in_univ2_pools(&snap, WANT, &vec![POOL], &accounts);
    assert!(matches!(r, Err(Error::LedgerReadError)));
}

fn curve_snapshot(name: &[u8], symbol: &[u8]) -> LedgerSnapshot {
    let mut snap = empty_snapshot();
    snap.decimals.push((WANT, 6));
    snap.decimals.push((CURVE, 6));
    snap.symbols.push((WANT, b"USDC".to_vec()));
    snap.names.push((CURVE, name.to_vec()));
    snap.symbols.push((CURVE, symbol.to_vec()));
    snap.balances.push((CURVE, MANAGER, 2_000_000));
    snap.balances.push((CURVE, COORDINATOR, 0));
    snap.virtual_prices.push((CURVE, 1_500_000_000_000_000_000));
    snap
}

#[test]
fn unrelated_curve_pool_is_excluded_despite_holdings() {
    let snap = curve_snapshot(b"Curve 3Pool", b"3Crv");
    let pools = vec![CurvePool::new(CURVE, CURVE, None)];
    let accounts = vec![MANAGER, COORDINATOR];
    let r = get_want_in_curve_pools(&snap, WANT, &pools, &accounts).unwrap();
    assert_eq!(r, d(0, 6));
}

#[test]
fn curve_exposure_is_balance_times_virtual_price() {
    // 2.0 LP tokens at a virtual price of 1.5 is 3.0 of the underlying
    let snap = curve_snapshot(b"crvUSDC Pool", b"crvUSDC");
    let pools = vec![CurvePool::new(CURVE, CURVE, None)];
    let accounts = vec![MANAGER, COORDINATOR];
    let r = get_want_in_curve_pools(&snap, WANT, &pools, &accounts).unwrap();
    assert_eq!(r, d(3_000_000, 6));
}

#[test]
fn curve_rewards_balance_counts_at_eighteen_decimals() {
    // 2.0 LP tokens plus a rewards balance of 1.0 (raw 10^18), at price 1.5
    let mut snap = curve_snapshot(b"crvUSDC Pool", b"crvUSDC");
    snap.balances.push((REWARDS, MANAGER, 1_000_000_000_000_000_000));
    snap.balances.push((REWARDS, COORDINATOR, 0));
    let pools = vec![CurvePool::new(CURVE, CURVE, Some(REWARDS))];
    let accounts = vec![MANAGER, COORDINATOR];
    let r = get_want_in_curve_pools(&snap, WANT, &pools, &accounts).unwrap();
    assert_eq!(r, d(4_500_000, 6));
}

#[test]
fn curve_symbol_match_alone_is_enough() {
    let snap = curve_snapshot(b"Some Pool", b"USDC-LP");
    let pools = vec![CurvePool::new(CURVE, CURVE, None)];
    let accounts = vec![MANAGER, COORDINATOR];
    let r = get_want_in_curve_pools(&snap, WANT, &pools, &accounts).unwrap();
    assert_eq!(r, d(3_000_000, 6));
}

#[test]
fn missing_read_fails_the_cycle() {
    // the coordinator's want balance is missing: the whole report fails
    let mut snap = base_snapshot(1_000_000_000, 0, 0, 0);
    snap.balances.retain(|e| !(e.0 == WANT && e.1 == COORDINATOR));
    let cfg = test_config(Vec::new(), Vec::new());
    let r = create_report(&snap, &cfg, registry());
    assert!(matches!(r, Err(Error::LedgerReadError)));
}

#[test]
fn balance_reads_normalize_to_report_scale() {
    let mut snap = empty_snapshot();
    snap.decimals.push((WANT, 18));
    snap.balances.push((WANT, MANAGER, 1_500_000_000_000_000_000));
    assert_eq!(get_balance_of(&snap, WANT, MANAGER).unwrap(), d(1_500_000, 6));
    snap.decimals.push((T_ASSET, 2));
    snap.total_supplies.push((T_ASSET, 150));
    assert_eq!(get_total_supply(&snap, T_ASSET).unwrap(), d(1_500_000, 6));
}

#[test]
fn implausible_decimals_are_a_read_error() {
    let mut snap = empty_snapshot();
    snap.decimals.push((WANT, 29));
    snap.balances.push((WANT, MANAGER, 1));
    assert!(matches!(get_balance_of(&snap, WANT, MANAGER), Err(Error::LedgerReadError)));
}

#[test]
fn widening_overflow_is_an_arithmetic_error() {
    // a zero-decimals token balance too large to widen to six decimals
    let mut snap = empty_snapshot();
    snap.decimals.push((WANT, 0));
    snap.balances.push((WANT, MANAGER, u128::MAX));
    assert!(matches!(get_balance_of(&snap, WANT, MANAGER), Err(Error::ArithmeticError)));
}

#[test]
fn configuration_error_names_the_missing_field() {
    let e = Error::ConfigurationError { expected_field: String::from("strategies.tokemak") };
    match e {
        Error::ConfigurationError { expected_field } => {
            assert_eq!(expected_field, "strategies.tokemak");
        }
        _ => unreachable!(),
    }
}

#[test]
fn want_resolution_reads_the_ledger() {
    let mut snap = empty_snapshot();
    snap.wants.push((STRATEGY, WANT));
    assert_eq!(get_want(&snap, STRATEGY).unwrap(), WANT);
    assert!(matches!(get_want(&snap, POOL), Err(Error::LedgerReadError)));
}

#[test]
fn health_ratio_truncates_to_display_scale() {
    let mut snap = base_snapshot(3_000_000_000, 0, 1_000_000_000, 0);
    snap.balances.push((WANT, POOL, 0));
    let cfg = test_config(vec![POOL], Vec::new());
    let reports = create_report(&snap, &cfg, registry()).unwrap();
    // 1000 / 3000 = 0.333...
    assert_eq!(health_ratio(&reports[0]).unwrap(), d(333, 3));
}

#[test]
fn default_config_holds_the_deployed_tables() {
    let cfg = default_config();
    assert_eq!(
        cfg.free_asset_accounts[0],
        Addr { hi: 0xa86e4121, lo: 0x09f77c45a3bc1c5870b880492fb86a14 }
    );
    assert_eq!(
        cfg.free_asset_accounts[1],
        Addr { hi: 0x90b6c61b, lo: 0x102ea260131ab48377e143d6eb3a9d4b }
    );
    assert_eq!(cfg.lp_token_accounts, cfg.free_asset_accounts);
    assert_eq!(cfg.extra_free_asset_accounts.len(), 1);
    assert_eq!(cfg.extra_free_asset_accounts[0].0, "WETH");
    assert_eq!(
        cfg.extra_free_asset_accounts[0].1,
        vec![Addr { hi: 0x8b4334d4, lo: 0x812c530574bd4f2763fcd22de94a969b }]
    );
    assert_eq!(cfg.claim_token_overrides.len(), 1);
    assert_eq!(
        cfg.claim_token_overrides[0],
        (
            Addr { hi: 0x2efb43c8, lo: 0xc9afe71d98b3093c3fd4deb7ce543c6d },
            Addr { hi: 0xd3d13a57, lo: 0x8a53685b4ac36a1bab31912d2b2a2f36 },
        )
    );
    assert_eq!(cfg.univ2_pool_addresses.len(), 7);
    assert_eq!(
        cfg.univ2_pool_addresses[0],
        Addr { hi: 0x61eb53ee, lo: 0x427ab4e007d78a9134aacb3101a2dc23 }
    );
    assert_eq!(cfg.curve_pools.len(), 4);
    assert_eq!(
        cfg.curve_pools[0].pool_address,
        Addr { hi: 0xd632f226, lo: 0x92fac7611d2aa1c0d552930d43caed3b }
    );
    assert_eq!(cfg.curve_pools[0].token_address, cfg.curve_pools[0].pool_address);
    assert_eq!(
        cfg.curve_pools[0].convex_rewards_pool_address,
        Some(Addr { hi: 0xb900ef13, lo: 0x1301b307db5efcbed9dbb50a3e209b2e })
    );
    assert_eq!(cfg.curve_pools[1].convex_rewards_pool_address, None);
    assert_eq!(cfg.curve_pools[2].convex_rewards_pool_address, None);
    assert_eq!(
        cfg.curve_pools[3].convex_rewards_pool_address,
        Some(Addr { hi: 0x2ad92a7a, lo: 0xe036a038ff02b96c88de868ddf3f8190 })
    );
}

#[test]
fn extra_treasury_account_is_counted_for_its_asset() {
    // an asset configured with an extra account counts that account's
    // holdings; the same snapshot under another name does not
    let mut cfg = test_config(Vec::new(), Vec::new());
    let treasury = Addr { hi: 0, lo: 40 };
    cfg.extra_free_asset_accounts
        .push((String::from("WETH"), vec![treasury]));
    let mut snap = base_snapshot(1_000_000_000, 0, 0, 0);
    snap.balances.push((WANT, treasury, 250_000_000));
    let reg = vec![RegistryEntry { asset_name: String::from("WETH"), strategy: STRATEGY }];
    let reports = create_report(&snap, &cfg, reg).unwrap();
    assert_eq!(reports[0].free_assets, d(250_000_000, 6));
    let reports2 = create_report(&snap, &cfg, registry()).unwrap();
    assert_eq!(reports2[0].free_assets, d(0, 6));
}

#[test]
fn report_constructor_and_getters_expose_the_fields() {
    let rep = dik_dik::report::IndividualAssetTokemakReport::new(
        String::from("USDC"),
        d(1, 6),
        d(2, 6),
        d(6, 6),
        d(3, 6),
        d(2, 6),
        d(1, 6),
    );
    assert_eq!(rep.asset_name(), "USDC");
    assert_eq!(rep.t_asset_strategy_balance(), d(1, 6));
    assert_eq!(rep.t_asset_total_supply(), d(2, 6));
    assert_eq!(rep.total_assets(), d(6, 6));
    assert_eq!(rep.free_assets(), d(3, 6));
    assert_eq!(rep.assets_in_lp_tokens_without_impermanent_loss(), d(2, 6));
    assert_eq!(rep.assets_in_lp_tokens_with_impermanent_loss(), d(1, 6));
    let pool = CurvePool::new(CURVE, POOL, Some(REWARDS));
    assert_eq!(pool.pool_address(), CURVE);
    assert_eq!(pool.token_address(), POOL);
    assert_eq!(pool.convex_rewards_pool_address(), Some(REWARDS));
}
