//! Solvency auditor for a vault protocol: per tracked asset, every place its
//! underlying liquidity may reside (direct holdings, proportional-share pool
//! reserves, share-price pool positions) is summed into one total at a fixed
//! report scale and compared against the claim-token supply.

pub mod balance;
pub mod config;
pub mod dec;
pub mod ledger;
pub mod locator;
pub mod notify;
pub mod pools;
pub mod report;
pub mod text;
pub mod types;
