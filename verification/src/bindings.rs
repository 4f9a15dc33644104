use vstd::prelude::*;

use crate::decimal::Decimal;

verus! {

/// A request to the external registry service, one variant per governance
/// action that needs an eligibility check or a lookup. The core only builds
/// these values; the dispatch layer sends them and hands the answer back.
#[derive(Clone, Debug, PartialEq)]
pub enum FuryQuery {
    UpdatePairsVaultQuery { app_id: u64, ext_pair_id: u64 },
    UpdateCollectorLookupTableQuery { app_id: u64, asset_id: u64 },
    RemoveWhitelistAssetLockerQuery { app_id: u64, asset_id: u64 },
    RemoveWhitelistAppIdVaultInterestQuery { app_id: u64 },
    WhitelistAppIdLiquidationQuery { app_id: u64 },
    RemoveWhitelistAppIdLiquidationQuery { app_id: u64 },
    WhitelistAppIdLockerRewards { app_id: u64, asset_id: u64 },
    WhiteListedAssetQuery { app_id: u64, asset_id: u64 },
    CollectorLookupTableQuery { app_id: u64, collector_asset_id: u64, secondary_asset_id: u64 },
    AuctionMappingForAppQuery { app_id: u64 },
    ExtendedPairsVaultRecordsQuery {
        app_id: u64,
        pair_id: u64,
        stability_fee: Decimal,
        closing_fee: Decimal,
        draw_down_fee: Decimal,
        debt_ceiling: u128,
        debt_floor: u128,
        pair_name: String,
    },
    WhitelistAppIdVaultInterest { app_id: u64 },
    AddESMTriggerParamsForAppQuery { app_id: u64 },
    State { address: String, denom: String, height: String, target: String },
    GetApp { app_id: u64 },
    GetAssetData { asset_id: u64 },
    TotalSupply { app_id: u64, asset_id: u64 },
}

/// The registry's answer to a validation query: pass/fail plus a rejection
/// reason when it failed.
#[derive(Clone, Debug, PartialEq)]
pub struct MessageValidateResponse {
    pub found: bool,
    pub err: String,
}

} // verus!
