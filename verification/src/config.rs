//! Static configuration of an audit cycle: the protocol accounts whose
//! holdings count as free assets, the per-asset extra accounts, the one
//! hard-coded claim-token override, and the candidate pool lists.
//!
//! All overrides are data in these tables, not conditionals in the logic, so
//! a new override is a new entry rather than a code change.

use vstd::prelude::*;
use vstd::string::StringExecFns;
use crate::types::{Addr, CurvePool};

verus! {

/// The protocol account that routes deposits between strategies.
pub open spec fn spec_manager_address() -> Addr {
    Addr { hi: 0xa86e4121, lo: 0x09f77c45a3bc1c5870b880492fb86a14 }
}

/// The protocol account that coordinates pool positions.
pub open spec fn spec_coordinator_address() -> Addr {
    Addr { hi: 0x90b6c61b, lo: 0x102ea260131ab48377e143d6eb3a9d4b }
}

/// The protocol treasury, counted for one asset only.
pub open spec fn spec_treasury_address() -> Addr {
    Addr { hi: 0x8b4334d4, lo: 0x812c530574bd4f2763fcd22de94a969b }
}

/// The strategy whose on-chain claim-token reference is known to be wrong.
pub open spec fn spec_weth_strategy_address() -> Addr {
    Addr { hi: 0x2efb43c8, lo: 0xc9afe71d98b3093c3fd4deb7ce543c6d }
}

/// The claim token that the overridden strategy resolves to, statically.
pub open spec fn spec_weth_claim_token_address() -> Addr {
    Addr { hi: 0xd3d13a57, lo: 0x8a53685b4ac36a1bab31912d2b2a2f36 }
}

/// The candidate proportional-share pools, in audit order.
pub open spec fn spec_univ2_pool_addresses() -> Seq<Addr> {
    seq![
        Addr { hi: 0x61eb53ee, lo: 0x427ab4e007d78a9134aacb3101a2dc23 },
        Addr { hi: 0x470e8de2, lo: 0xebaef52014a47cb5e6af86884947f08c },
        Addr { hi: 0x43ae2496, lo: 0x0e5534731fc831386c07755a2dc33d47 },
        Addr { hi: 0xecba967d, lo: 0x84fcf0405f6b32bc45f4d36bfdbb2e81 },
        Addr { hi: 0xe55c3e83, lo: 0x852429334a986b265d03b879a3d188ac },
        Addr { hi: 0xdc08159a, lo: 0x6c82611aeb347ba897d82ac1b80d9419 },
        Addr { hi: 0xad5b1a6a, lo: 0xbc1c9598c044cea295488433a3499efc },
    ]
}

/// The candidate share-price pools, in audit order.
pub open spec fn spec_curve_pools() -> Seq<CurvePool> {
    seq![
        CurvePool {
            pool_address: Addr { hi: 0xd632f226, lo: 0x92fac7611d2aa1c0d552930d43caed3b },
            token_address: Addr { hi: 0xd632f226, lo: 0x92fac7611d2aa1c0d552930d43caed3b },
            convex_rewards_pool_address: Some(
                Addr { hi: 0xb900ef13, lo: 0x1301b307db5efcbed9dbb50a3e209b2e },
            ),
        },
        CurvePool {
            pool_address: Addr { hi: 0x0437ac61, lo: 0x09e8a366a1f4816edf312a36952db856 },
            token_address: Addr { hi: 0x0437ac61, lo: 0x09e8a366a1f4816edf312a36952db856 },
            convex_rewards_pool_address: None,
        },
        CurvePool {
            pool_address: Addr { hi: 0x50b0d917, lo: 0x1160d6eb8aa39e090da51e7e078e81c4 },
            token_address: Addr { hi: 0x50b0d917, lo: 0x1160d6eb8aa39e090da51e7e078e81c4 },
            convex_rewards_pool_address: None,
        },
        CurvePool {
            pool_address: Addr { hi: 0xed279fdd, lo: 0x11ca84beef15af5d39bb4d4bee23f0ca },
            token_address: Addr { hi: 0xed279fdd, lo: 0x11ca84beef15af5d39bb4d4bee23f0ca },
            convex_rewards_pool_address: Some(
                Addr { hi: 0x2ad92a7a, lo: 0xe036a038ff02b96c88de868ddf3f8190 },
            ),
        },
    ]
}

/// The static tables of one audit cycle.
pub struct Config {
    /// accounts whose direct holdings of an asset count as free assets,
    /// besides the asset's own claim token address
    pub free_asset_accounts: Vec<Addr>,
    /// per-asset extra free-asset accounts, keyed by asset symbol
    pub extra_free_asset_accounts: Vec<(String, Vec<Addr>)>,
    /// accounts whose pool-token holdings are counted for both pool kinds
    pub lp_token_accounts: Vec<Addr>,
    /// strategy -> claim token, resolved statically instead of on-chain
    pub claim_token_overrides: Vec<(Addr, Addr)>,
    /// candidate proportional-share pools
    pub univ2_pool_addresses: Vec<Addr>,
    /// candidate share-price pools
    pub curve_pools: Vec<CurvePool>,
}

/// The deployed configuration: manager and coordinator accounts, the
/// treasury counted for the one asset that keeps funds there, the single
/// claim-token override, and the two static pool lists.
pub fn default_config() -> (r: Config)
    ensures
        r.free_asset_accounts@ =~= seq![spec_manager_address(), spec_coordinator_address()],
        r.extra_free_asset_accounts@.len() == 1,
        r.extra_free_asset_accounts@[0].0@ == "WETH"@,
        r.extra_free_asset_accounts@[0].1@ =~= seq![spec_treasury_address()],
        r.lp_token_accounts@ =~= seq![spec_manager_address(), spec_coordinator_address()],
        r.claim_token_overrides@ =~= seq![
            (spec_weth_strategy_address(), spec_weth_claim_token_address()),
        ],
        r.univ2_pool_addresses@ =~= spec_univ2_pool_addresses(),
        r.curve_pools@ =~= spec_curve_pools(),
{
    let manager = Addr { hi: 0xa86e4121, lo: 0x09f77c45a3bc1c5870b880492fb86a14 };
    let coordinator = Addr { hi: 0x90b6c61b, lo: 0x102ea260131ab48377e143d6eb3a9d4b };
    let treasury = Addr { hi: 0x8b4334d4, lo: 0x812c530574bd4f2763fcd22de94a969b };

    let mut free_asset_accounts: Vec<Addr> = Vec::new();
    free_asset_accounts.push(manager);
    free_asset_accounts.push(coordinator);

    let mut treasury_only: Vec<Addr> = Vec::new();
    treasury_only.push(treasury);
    let mut extra_free_asset_accounts: Vec<(String, Vec<Addr>)> = Vec::new();
    extra_free_asset_accounts.push((String::from_str("WETH"), treasury_only));

    let mut lp_token_accounts: Vec<Addr> = Vec::new();
    lp_token_accounts.push(manager);
    lp_token_accounts.push(coordinator);

    let mut claim_token_overrides: Vec<(Addr, Addr)> = Vec::new();
    claim_token_overrides.push(
        (
            Addr { hi: 0x2efb43c8, lo: 0xc9afe71d98b3093c3fd4deb7ce543c6d },
            Addr { hi: 0xd3d13a57, lo: 0x8a53685b4ac36a1bab31912d2b2a2f36 },
        ),
    );

    let mut univ2_pool_addresses: Vec<Addr> = Vec::new();
    univ2_pool_addresses.push(Addr { hi: 0x61eb53ee, lo: 0x427ab4e007d78a9134aacb3101a2dc23 });
    univ2_pool_addresses.push(Addr { hi: 0x470e8de2, lo: 0xebaef52014a47cb5e6af86884947f08c });
    univ2_pool_addresses.push(Addr { hi: 0x43ae2496, lo: 0x0e5534731fc831386c07755a2dc33d47 });
    univ2_pool_addresses.push(Addr { hi: 0xecba967d, lo: 0x84fcf0405f6b32bc45f4d36bfdbb2e81 });
    univ2_pool_addresses.push(Addr { hi: 0xe55c3e83, lo: 0x852429334a986b265d03b879a3d188ac });
    univ2_pool_addresses.push(Addr { hi: 0xdc08159a, lo: 0x6c82611aeb347ba897d82ac1b80d9419 });
    univ2_pool_addresses.push(Addr { hi: 0xad5b1a6a, lo: 0xbc1c9598c044cea295488433a3499efc });

    let mut curve_pools: Vec<CurvePool> = Vec::new();
    curve_pools.push(
        CurvePool {
            pool_address: Addr { hi: 0xd632f226, lo: 0x92fac7611d2aa1c0d552930d43caed3b },
            token_address: Addr { hi: 0xd632f226, lo: 0x92fac7611d2aa1c0d552930d43caed3b },
            convex_rewards_pool_address: Some(
                Addr { hi: 0xb900ef13, lo: 0x1301b307db5efcbed9dbb50a3e209b2e },
            ),
        },
    );
    curve_pools.push(
        CurvePool {
            pool_address: Addr { hi: 0x0437ac61, lo: 0x09e8a366a1f4816edf312a36952db856 },
            token_address: Addr { hi: 0x0437ac61, lo: 0x09e8a366a1f4816edf312a36952db856 },
            convex_rewards_pool_address: None,
        },
    );
    curve_pools.push(
        CurvePool {
            pool_address: Addr { hi: 0x50b0d917, lo: 0x1160d6eb8aa39e090da51e7e078e81c4 },
            token_address: Addr { hi: 0x50b0d917, lo: 0x1160d6eb8aa39e090da51e7e078e81c4 },
            convex_rewards_pool_address: None,
        },
    );
    curve_pools.push(
        CurvePool {
            pool_address: Addr { hi: 0xed279fdd, lo: 0x11ca84beef15af5d39bb4d4bee23f0ca },
            token_address: Addr { hi: 0xed279fdd, lo: 0x11ca84beef15af5d39bb4d4bee23f0ca },
            convex_rewards_pool_address: Some(
                Addr { hi: 0x2ad92a7a, lo: 0xe036a038ff02b96c88de868ddf3f8190 },
            ),
        },
    );

    Config {
        free_asset_accounts,
        extra_free_asset_accounts,
        lp_token_accounts,
        claim_token_overrides,
        univ2_pool_addresses,
        curve_pools,
    }
}

} // verus!
