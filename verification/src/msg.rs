use vstd::prelude::*;

use crate::decimal::Decimal;

verus! {

/// Parameters of an extended pair vault to be checked against the registry
/// before such a vault may be added under an application.
#[derive(Clone, Debug, PartialEq)]
pub struct ExtendedPair {
    pub app_mapping_id_param: u64,
    pub pair_id_param: u64,
    pub stability_fee_param: Decimal,
    pub closing_fee_param: Decimal,
    pub draw_down_fee_param: Decimal,
    pub debt_ceiling_param: u128,
    pub debt_floor_param: u128,
    pub pair_name_param: String,
}

} // verus!
