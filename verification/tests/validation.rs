use governance::bindings::{FuryQuery, MessageValidateResponse};
use governance::decimal::Decimal;
use governance::error::ContractError;
use governance::msg::ExtendedPair;
use governance::validation::{
    add_extended_pair_vault, auction_mapping_for_app, collector_lookup_table,
    remove_whitelist_app_id_liquidation, remove_whitelist_app_id_vault_interest,
    remove_whitelist_asset_locker, resolve_validation, set_esm_params, update_locker_lsr,
    update_pairvault_stability, whitelist_app_id_liquidation, whitelist_app_id_vault_interest,
    whitelist_asset_locker_eligible, whitelist_asset_locker_rewards,
};

fn pair(app_mapping_id_param: u64) -> ExtendedPair {
    ExtendedPair {
        app_mapping_id_param,
        pair_id_param: 7,
        stability_fee_param: Decimal::percent(2),
        closing_fee_param: Decimal::percent(1),
        draw_down_fee_param: Decimal::percent(3),
        debt_ceiling_param: 1_000_000,
        debt_floor_param: 100,
        pair_name_param: "pair".to_string(),
    }
}

#[test]
fn app_id_mismatch_fails_before_any_query() {
    // Every validation entry answers DifferentAppID on a mismatch without
    // producing a query value, so no registry call can have been made.
    assert_eq!(
        update_pairvault_stability(1, 2, 3).unwrap_err(),
        ContractError::DifferentAppID
    );
    assert_eq!(update_locker_lsr(1, 2, 3).unwrap_err(), ContractError::DifferentAppID);
    assert_eq!(
        remove_whitelist_asset_locker(1, 2, 3).unwrap_err(),
        ContractError::DifferentAppID
    );
    assert_eq!(
        remove_whitelist_app_id_vault_interest(1, 3).unwrap_err(),
        ContractError::DifferentAppID
    );
    assert_eq!(
        whitelist_app_id_liquidation(1, 3).unwrap_err(),
        ContractError::DifferentAppID
    );
    assert_eq!(
        remove_whitelist_app_id_liquidation(1, 3).unwrap_err(),
        ContractError::DifferentAppID
    );
    assert_eq!(
        whitelist_asset_locker_rewards(1, 2, 3).unwrap_err(),
        ContractError::DifferentAppID
    );
    assert_eq!(
        whitelist_asset_locker_eligible(1, 2, 3).unwrap_err(),
        ContractError::DifferentAppID
    );
    assert_eq!(
        collector_lookup_table(1, 2, 4, 3).unwrap_err(),
        ContractError::DifferentAppID
    );
    assert_eq!(auction_mapping_for_app(1, 3).unwrap_err(), ContractError::DifferentAppID);
    assert_eq!(
        add_extended_pair_vault(3, pair(1)).unwrap_err(),
        ContractError::DifferentAppID
    );
    assert_eq!(
        whitelist_app_id_vault_interest(1, 3).unwrap_err(),
        ContractError::DifferentAppID
    );
    assert_eq!(set_esm_params(1, 3).unwrap_err(), ContractError::DifferentAppID);
}

#[test]
fn matching_app_id_builds_the_right_query() {
    assert_eq!(
        update_pairvault_stability(5, 9, 5).unwrap(),
        FuryQuery::UpdatePairsVaultQuery { app_id: 5, ext_pair_id: 9 }
    );
    assert_eq!(
        update_locker_lsr(5, 9, 5).unwrap(),
        FuryQuery::UpdateCollectorLookupTableQuery { app_id: 5, asset_id: 9 }
    );
    assert_eq!(
        remove_whitelist_asset_locker(5, 9, 5).unwrap(),
        FuryQuery::RemoveWhitelistAssetLockerQuery { app_id: 5, asset_id: 9 }
    );
    assert_eq!(
        remove_whitelist_app_id_vault_interest(5, 5).unwrap(),
        FuryQuery::RemoveWhitelistAppIdVaultInterestQuery { app_id: 5 }
    );
    assert_eq!(
        whitelist_app_id_liquidation(5, 5).unwrap(),
        FuryQuery::WhitelistAppIdLiquidationQuery { app_id: 5 }
    );
    assert_eq!(
        remove_whitelist_app_id_liquidation(5, 5).unwrap(),
        FuryQuery::RemoveWhitelistAppIdLiquidationQuery { app_id: 5 }
    );
    assert_eq!(
        whitelist_asset_locker_rewards(5, 9, 5).unwrap(),
        FuryQuery::WhitelistAppIdLockerRewards { app_id: 5, asset_id: 9 }
    );
    assert_eq!(
        whitelist_asset_locker_eligible(5, 9, 5).unwrap(),
        FuryQuery::WhiteListedAssetQuery { app_id: 5, asset_id: 9 }
    );
    assert_eq!(
        collector_lookup_table(5, 9, 11, 5).unwrap(),
        FuryQuery::CollectorLookupTableQuery {
            app_id: 5,
            collector_asset_id: 9,
            secondary_asset_id: 11
        }
    );
    assert_eq!(
        auction_mapping_for_app(5, 5).unwrap(),
        FuryQuery::AuctionMappingForAppQuery { app_id: 5 }
    );
    assert_eq!(
        whitelist_app_id_vault_interest(5, 5).unwrap(),
        FuryQuery::WhitelistAppIdVaultInterest { app_id: 5 }
    );
    assert_eq!(
        set_esm_params(5, 5).unwrap(),
        FuryQuery::AddESMTriggerParamsForAppQuery { app_id: 5 }
    );
    let built = add_extended_pair_vault(5, pair(5)).unwrap();
    assert_eq!(
        built,
        FuryQuery::ExtendedPairsVaultRecordsQuery {
            app_id: 5,
            pair_id: 7,
            stability_fee: Decimal::percent(2),
            closing_fee: Decimal::percent(1),
            draw_down_fee: Decimal::percent(3),
            debt_ceiling: 1_000_000,
            debt_floor: 100,
            pair_name: "pair".to_string(),
        }
    );
}

#[test]
fn registry_answer_decides_the_outcome() {
    assert!(resolve_validation(MessageValidateResponse {
        found: true,
        err: String::new(),
    })
    .is_ok());

    let err = resolve_validation(MessageValidateResponse {
        found: false,
        err: "no such mapping".to_string(),
    })
    .unwrap_err();
    assert_eq!(err, ContractError::ProposalError { err: "no such mapping".to_string() });
}
