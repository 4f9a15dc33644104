use vstd::prelude::*;

use crate::bindings::{FuryQuery, MessageValidateResponse};
use crate::decimal::{Decimal, DECIMAL_FRACTIONAL};
use crate::error::ContractError;
use crate::msg::ExtendedPair;

verus! {

/// A configured pass fraction must lie in the 50%..=100% band and a quorum
/// in (0%, 100%].
pub open spec fn valid_threshold_spec(threshold: Decimal, quorum: Decimal) -> bool {
    &&& DECIMAL_FRACTIONAL / 2 <= threshold.atomics <= DECIMAL_FRACTIONAL
    &&& 0 < quorum.atomics <= DECIMAL_FRACTIONAL
}

/// Checks a threshold/quorum pair at configuration time: the pass fraction
/// must lie in 50%..=100% and the quorum in (0%, 100%]; each violation has
/// its dedicated error, checked in this order.
pub fn validate_threshold(threshold: &Decimal, quorum: &Decimal) -> (r: Result<
    (),
    ContractError,
>)
    ensures
        (threshold.atomics > DECIMAL_FRACTIONAL || threshold.atomics < DECIMAL_FRACTIONAL / 2)
            ==> r == Err::<(), ContractError>(ContractError::InvalidThreshold),
        DECIMAL_FRACTIONAL / 2 <= threshold.atomics <= DECIMAL_FRACTIONAL && quorum.atomics == 0
            ==> r == Err::<(), ContractError>(ContractError::ZeroQuorumThreshold),
        DECIMAL_FRACTIONAL / 2 <= threshold.atomics <= DECIMAL_FRACTIONAL && quorum.atomics
            > DECIMAL_FRACTIONAL ==> r == Err::<(), ContractError>(
            ContractError::UnreachableQuorumThreshold,
        ),
        valid_threshold_spec(*threshold, *quorum) ==> r == Ok::<(), ContractError>(()),
{
    let hundred = Decimal::percent(100);
    let fifty = Decimal::percent(50);
    if threshold.atomics > hundred.atomics || threshold.atomics < fifty.atomics {
        Err(ContractError::InvalidThreshold)
    } else if quorum.is_zero() {
        Err(ContractError::ZeroQuorumThreshold)
    } else if quorum.atomics > hundred.atomics {
        Err(ContractError::UnreachableQuorumThreshold)
    } else {
        Ok(())
    }
}

/// Maps the registry's answer to a validation query onto the core's
/// result: success when the mapping was found, otherwise the registry's
/// rejection reason, unchanged.
pub fn resolve_validation(query_result: MessageValidateResponse) -> (r: Result<
    (),
    ContractError,
>)
    ensures
        query_result.found ==> r == Ok::<(), ContractError>(()),
        !query_result.found ==> r == Err::<(), ContractError>(
            ContractError::ProposalError { err: query_result.err },
        ),
{
    if query_result.found {
        Ok(())
    } else {
        Err(ContractError::ProposalError { err: query_result.err })
    }
}

/// Validation for updating a pair vault's stability fee: fails fast with
/// `DifferentAppID` before any query is built when the caller-asserted app
/// id mismatches; otherwise yields the registry query to send.
pub fn update_pairvault_stability(
    app_mapping_id_param: u64,
    ext_pair_id_param: u64,
    app_id: u64,
) -> (r: Result<FuryQuery, ContractError>)
    ensures
        app_mapping_id_param != app_id ==> r == Err::<FuryQuery, ContractError>(
            ContractError::DifferentAppID,
        ),
        app_mapping_id_param == app_id ==> r == Ok::<FuryQuery, ContractError>(
            (FuryQuery::UpdatePairsVaultQuery {
                app_id: app_mapping_id_param,
                ext_pair_id: ext_pair_id_param,
            }),
        ),
{
    if app_mapping_id_param != app_id {
        return Err(ContractError::DifferentAppID);
    }
    Ok(FuryQuery::UpdatePairsVaultQuery {
        app_id: app_mapping_id_param,
        ext_pair_id: ext_pair_id_param,
    })
}

/// Validation for updating a locker's saving rate; same app-id-first
/// discipline, then the collector lookup query to send.
pub fn update_locker_lsr(app_mapping_id_param: u64, asset_id_param: u64, app_id: u64) -> (r:
    Result<FuryQuery, ContractError>)
    ensures
        app_mapping_id_param != app_id ==> r == Err::<FuryQuery, ContractError>(
            ContractError::DifferentAppID,
        ),
        app_mapping_id_param == app_id ==> r == Ok::<FuryQuery, ContractError>(
            (FuryQuery::UpdateCollectorLookupTableQuery {
                app_id: app_mapping_id_param,
                asset_id: asset_id_param,
            }),
        ),
{
    if app_mapping_id_param != app_id {
        return Err(ContractError::DifferentAppID);
    }
    Ok(FuryQuery::UpdateCollectorLookupTableQuery {
        app_id: app_mapping_id_param,
        asset_id: asset_id_param,
    })
}

/// Validation for removing a whitelisted asset from a locker.
pub fn remove_whitelist_asset_locker(
    app_mapping_id_param: u64,
    asset_id_param: u64,
    app_id: u64,
) -> (r: Result<FuryQuery, ContractError>)
    ensures
        app_mapping_id_param != app_id ==> r == Err::<FuryQuery, ContractError>(
            ContractError::DifferentAppID,
        ),
        app_mapping_id_param == app_id ==> r == Ok::<FuryQuery, ContractError>(
            (FuryQuery::RemoveWhitelistAssetLockerQuery {
                app_id: app_mapping_id_param,
                asset_id: asset_id_param,
            }),
        ),
{
    if app_mapping_id_param != app_id {
        return Err(ContractError::DifferentAppID);
    }
    Ok(FuryQuery::RemoveWhitelistAssetLockerQuery {
        app_id: app_mapping_id_param,
        asset_id: asset_id_param,
    })
}

/// Validation for deactivating vault interest for an app.
pub fn remove_whitelist_app_id_vault_interest(app_mapping_id_param: u64, app_id: u64) -> (r:
    Result<FuryQuery, ContractError>)
    ensures
        app_mapping_id_param != app_id ==> r == Err::<FuryQuery, ContractError>(
            ContractError::DifferentAppID,
        ),
        app_mapping_id_param == app_id ==> r == Ok::<FuryQuery, ContractError>(
            (FuryQuery::RemoveWhitelistAppIdVaultInterestQuery { app_id: app_mapping_id_param }),
        ),
{
    if app_mapping_id_param != app_id {
        return Err(ContractError::DifferentAppID);
    }
    Ok(FuryQuery::RemoveWhitelistAppIdVaultInterestQuery { app_id: app_mapping_id_param })
}

/// Validation for whitelisting an app for liquidation.
pub fn whitelist_app_id_liquidation(app_mapping_id_param: u64, app_id: u64) -> (r: Result<
    FuryQuery,
    ContractError,
>)
    ensures
        app_mapping_id_param != app_id ==> r == Err::<FuryQuery, ContractError>(
            ContractError::DifferentAppID,
        ),
        app_mapping_id_param == app_id ==> r == Ok::<FuryQuery, ContractError>(
            (FuryQuery::WhitelistAppIdLiquidationQuery { app_id: app_mapping_id_param }),
        ),
{
    if app_mapping_id_param != app_id {
        return Err(ContractError::DifferentAppID);
    }
    Ok(FuryQuery::WhitelistAppIdLiquidationQuery { app_id: app_mapping_id_param })
}

/// Validation for removing a whitelisted app for liquidation.
pub fn remove_whitelist_app_id_liquidation(app_mapping_id_param: u64, app_id: u64) -> (r: Result<
    FuryQuery,
    ContractError,
>)
    ensures
        app_mapping_id_param != app_id ==> r == Err::<FuryQuery, ContractError>(
            ContractError::DifferentAppID,
        ),
        app_mapping_id_param == app_id ==> r == Ok::<FuryQuery, ContractError>(
            (FuryQuery::RemoveWhitelistAppIdLiquidationQuery { app_id: app_mapping_id_param }),
        ),
{
    if app_mapping_id_param != app_id {
        return Err(ContractError::DifferentAppID);
    }
    Ok(FuryQuery::RemoveWhitelistAppIdLiquidationQuery { app_id: app_mapping_id_param })
}

/// Validation that an asset is available for rewards in a locker.
pub fn whitelist_asset_locker_rewards(
    app_mapping_id_param: u64,
    asset_id_param: u64,
    app_id: u64,
) -> (r: Result<FuryQuery, ContractError>)
    ensures
        app_mapping_id_param != app_id ==> r == Err::<FuryQuery, ContractError>(
            ContractError::DifferentAppID,
        ),
        app_mapping_id_param == app_id ==> r == Ok::<FuryQuery, ContractError>(
            (FuryQuery::WhitelistAppIdLockerRewards {
                app_id: app_mapping_id_param,
                asset_id: asset_id_param,
            }),
        ),
{
    if app_mapping_id_param != app_id {
        return Err(ContractError::DifferentAppID);
    }
    Ok(FuryQuery::WhitelistAppIdLockerRewards {
        app_id: app_mapping_id_param,
        asset_id: asset_id_param,
    })
}

/// Validation that an asset may be whitelisted in a locker.
pub fn whitelist_asset_locker_eligible(
    app_mapping_id_param: u64,
    asset_id_param: u64,
    app_id: u64,
) -> (r: Result<FuryQuery, ContractError>)
    ensures
        app_mapping_id_param != app_id ==> r == Err::<FuryQuery, ContractError>(
            ContractError::DifferentAppID,
        ),
        app_mapping_id_param == app_id ==> r == Ok::<FuryQuery, ContractError>(
            (FuryQuery::WhiteListedAssetQuery {
                app_id: app_mapping_id_param,
                asset_id: asset_id_param,
            }),
        ),
{
    if app_mapping_id_param != app_id {
        return Err(ContractError::DifferentAppID);
    }
    Ok(FuryQuery::WhiteListedAssetQuery {
        app_id: app_mapping_id_param,
        asset_id: asset_id_param,
    })
}

/// Validation that a collector lookup mapping exists for the app and the
/// two assets involved.
pub fn collector_lookup_table(
    app_mapping_id_param: u64,
    collector_asset_id_param: u64,
    secondary_asset_id_param: u64,
    app_id: u64,
) -> (r: Result<FuryQuery, ContractError>)
    ensures
        app_mapping_id_param != app_id ==> r == Err::<FuryQuery, ContractError>(
            ContractError::DifferentAppID,
        ),
        app_mapping_id_param == app_id ==> r == Ok::<FuryQuery, ContractError>(
            (FuryQuery::CollectorLookupTableQuery {
                app_id: app_mapping_id_param,
                collector_asset_id: collector_asset_id_param,
                secondary_asset_id: secondary_asset_id_param,
            }),
        ),
{
    if app_mapping_id_param != app_id {
        return Err(ContractError::DifferentAppID);
    }
    Ok(FuryQuery::CollectorLookupTableQuery {
        app_id: app_mapping_id_param,
        collector_asset_id: collector_asset_id_param,
        secondary_asset_id: secondary_asset_id_param,
    })
}

/// Validation that an auction mapping exists for the app.
pub fn auction_mapping_for_app(app_mapping_id_param: u64, app_id: u64) -> (r: Result<
    FuryQuery,
    ContractError,
>)
    ensures
        app_mapping_id_param != app_id ==> r == Err::<FuryQuery, ContractError>(
            ContractError::DifferentAppID,
        ),
        app_mapping_id_param == app_id ==> r == Ok::<FuryQuery, ContractError>(
            (FuryQuery::AuctionMappingForAppQuery { app_id: app_mapping_id_param }),
        ),
{
    if app_mapping_id_param != app_id {
        return Err(ContractError::DifferentAppID);
    }
    Ok(FuryQuery::AuctionMappingForAppQuery { app_id: app_mapping_id_param })
}

/// Eligibility validation for adding an extended pair vault: the app id
/// embedded in the pair payload must match, then every pair parameter goes
/// into the records query verbatim.
pub fn add_extended_pair_vault(app_id: u64, extended_pair: ExtendedPair) -> (r: Result<
    FuryQuery,
    ContractError,
>)
    ensures
        extended_pair.app_mapping_id_param != app_id ==> r == Err::<FuryQuery, ContractError>(
            ContractError::DifferentAppID,
        ),
        extended_pair.app_mapping_id_param == app_id ==> r == Ok::<FuryQuery, ContractError>(
            (FuryQuery::ExtendedPairsVaultRecordsQuery {
                app_id: extended_pair.app_mapping_id_param,
                pair_id: extended_pair.pair_id_param,
                stability_fee: extended_pair.stability_fee_param,
                closing_fee: extended_pair.closing_fee_param,
                draw_down_fee: extended_pair.draw_down_fee_param,
                debt_ceiling: extended_pair.debt_ceiling_param,
                debt_floor: extended_pair.debt_floor_param,
                pair_name: extended_pair.pair_name_param,
            }),
        ),
{
    if extended_pair.app_mapping_id_param != app_id {
        return Err(ContractError::DifferentAppID);
    }
    Ok(FuryQuery::ExtendedPairsVaultRecordsQuery {
        app_id: extended_pair.app_mapping_id_param,
        pair_id: extended_pair.pair_id_param,
        stability_fee: extended_pair.stability_fee_param,
        closing_fee: extended_pair.closing_fee_param,
        draw_down_fee: extended_pair.draw_down_fee_param,
        debt_ceiling: extended_pair.debt_ceiling_param,
        debt_floor: extended_pair.debt_floor_param,
        pair_name: extended_pair.pair_name_param,
    })
}

/// Validation for activating vault interest for an app.
pub fn whitelist_app_id_vault_interest(app_mapping_id_param: u64, app_id: u64) -> (r: Result<
    FuryQuery,
    ContractError,
>)
    ensures
        app_mapping_id_param != app_id ==> r == Err::<FuryQuery, ContractError>(
            ContractError::DifferentAppID,
        ),
        app_mapping_id_param == app_id ==> r == Ok::<FuryQuery, ContractError>(
            (FuryQuery::WhitelistAppIdVaultInterest { app_id: app_mapping_id_param }),
        ),
{
    if app_mapping_id_param != app_id {
        return Err(ContractError::DifferentAppID);
    }
    Ok(FuryQuery::WhitelistAppIdVaultInterest { app_id: app_mapping_id_param })
}

/// Validation for setting emergency-shutdown trigger parameters for an app.
pub fn set_esm_params(app_mapping_id_param: u64, app_id: u64) -> (r: Result<
    FuryQuery,
    ContractError,
>)
    ensures
        app_mapping_id_param != app_id ==> r == Err::<FuryQuery, ContractError>(
            ContractError::DifferentAppID,
        ),
        app_mapping_id_param == app_id ==> r == Ok::<FuryQuery, ContractError>(
            (FuryQuery::AddESMTriggerParamsForAppQuery { app_id: app_mapping_id_param }),
        ),
{
    if app_mapping_id_param != app_id {
        return Err(ContractError::DifferentAppID);
    }
    Ok(FuryQuery::AddESMTriggerParamsForAppQuery { app_id: app_mapping_id_param })
}

} // verus!
