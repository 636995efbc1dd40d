//! Sample records for exercising the product repositories.

use vstd::prelude::*;
use crate::ids::{is_random_uuid, new_random_id, NIL_ID};
use crate::models::account_gl_mapping::AccountGlMappingModel;
use crate::models::enums::{
    FeeType, InterestCalculationMethod, MaintenanceFeeFrequency, PostingFrequency,
    ProductAccrualFrequency, ProductType,
};
use crate::models::fee_type_gl_mapping::FeeTypeGlMappingModel;
use crate::models::interest_rate_tier::InterestRateTierModel;
use crate::models::product::ProductModel;
use crate::values::{
    date_from_ymd, decimal_from_int, decimal_new, CalendarDate, DecimalValue,
};

verus! {

pub open spec fn dec(mantissa: int, scale: int) -> DecimalValue {
    DecimalValue { mantissa: mantissa as i128, scale: scale as u32 }
}

/// A mapping of the given customer account code, without overdraft code,
/// not yet written.
pub fn create_test_account_gl_mapping(customer_account_code: &str) -> (r: AccountGlMappingModel)
    ensures
        is_random_uuid(r.id),
        r.customer_account_code@ == customer_account_code@,
        r.overdraft_code is None,
        r.antecedent_hash == 0,
        r.antecedent_audit_log_id == NIL_ID,
        r.hash == 0,
        r.audit_log_id is None,
{
    AccountGlMappingModel {
        id: new_random_id(),
        customer_account_code: customer_account_code.to_owned(),
        overdraft_code: None,
        antecedent_hash: 0,
        antecedent_audit_log_id: NIL_ID,
        hash: 0,
        audit_log_id: None,
    }
}

/// A mapping of the given customer account and overdraft codes, not yet
/// written.
pub fn create_test_account_gl_mapping_with_overdraft(
    customer_account_code: &str,
    overdraft_code: &str,
) -> (r: AccountGlMappingModel)
    ensures
        is_random_uuid(r.id),
        r.customer_account_code@ == customer_account_code@,
        r.overdraft_code matches Some(o) && o@ == overdraft_code@,
        r.antecedent_hash == 0,
        r.antecedent_audit_log_id == NIL_ID,
        r.hash == 0,
        r.audit_log_id is None,
{
    AccountGlMappingModel {
        id: new_random_id(),
        customer_account_code: customer_account_code.to_owned(),
        overdraft_code: Some(overdraft_code.to_owned()),
        antecedent_hash: 0,
        antecedent_audit_log_id: NIL_ID,
        hash: 0,
        audit_log_id: None,
    }
}

/// A mapping of `fee_type` to `gl_code`, not yet written.
pub fn create_test_fee_type_gl_mapping(fee_type: FeeType, gl_code: &str) -> (r:
    FeeTypeGlMappingModel)
    ensures
        is_random_uuid(r.id),
        r.fee_type == fee_type,
        r.gl_code@ == gl_code@,
        r.antecedent_hash == 0,
        r.antecedent_audit_log_id == NIL_ID,
        r.hash == 0,
        r.audit_log_id is None,
{
    FeeTypeGlMappingModel {
        id: new_random_id(),
        fee_type,
        gl_code: gl_code.to_owned(),
        antecedent_hash: 0,
        antecedent_audit_log_id: NIL_ID,
        hash: 0,
        audit_log_id: None,
    }
}

/// A tier from 1.00 to 10.00 at a rate of 0.05, not yet written.
pub fn create_test_interest_rate_tier() -> (r: InterestRateTierModel)
    ensures
        is_random_uuid(r.id),
        is_random_uuid(r.name),
        r.minimum_balance == dec(100, 2),
        r.maximum_balance == Some(dec(1000, 2)),
        r.interest_rate == dec(5, 2),
        r.antecedent_hash == 0,
        r.antecedent_audit_log_id == NIL_ID,
        r.hash == 0,
        r.audit_log_id is None,
{
    InterestRateTierModel {
        id: new_random_id(),
        name: new_random_id(),
        minimum_balance: decimal_new(100, 2),
        maximum_balance: Some(decimal_new(1000, 2)),
        interest_rate: decimal_new(5, 2),
        antecedent_hash: 0,
        antecedent_audit_log_id: NIL_ID,
        hash: 0,
        audit_log_id: None,
    }
}

/// An active current/savings product valid from 2024-01-01, with the given
/// name and GL mappings, not yet written.
pub fn create_test_product(name: u128, account_gl_mapping: u128, fee_type_gl_mapping: u128) -> (r:
    ProductModel)
    ensures
        is_random_uuid(r.id),
        r.name == name,
        r.product_type == ProductType::CASA,
        r.minimum_balance == dec(100, 0),
        r.maximum_balance == Some(dec(1000000, 0)),
        !r.overdraft_allowed,
        r.overdraft_limit is None,
        r.interest_calculation_method == InterestCalculationMethod::DailyBalance,
        r.interest_posting_frequency == PostingFrequency::Monthly,
        r.dormancy_threshold_days == 365,
        r.minimum_opening_balance == dec(100, 0),
        r.closure_fee == dec(50, 0),
        r.maintenance_fee == Some(dec(10, 0)),
        r.maintenance_fee_frequency == MaintenanceFeeFrequency::Monthly,
        r.default_dormancy_days == Some(365i32),
        r.default_overdraft_limit is None,
        r.per_transaction_limit == Some(dec(50000, 0)),
        r.daily_transaction_limit == Some(dec(100000, 0)),
        r.weekly_transaction_limit == Some(dec(500000, 0)),
        r.monthly_transaction_limit == Some(dec(2000000, 0)),
        r.overdraft_interest_rate is None,
        r.accrual_frequency == ProductAccrualFrequency::Daily,
        r.interest_rate_tier_1 is None && r.interest_rate_tier_2 is None
            && r.interest_rate_tier_3 is None && r.interest_rate_tier_4 is None
            && r.interest_rate_tier_5 is None,
        r.account_gl_mapping == account_gl_mapping,
        r.fee_type_gl_mapping == fee_type_gl_mapping,
        r.is_active,
        r.valid_from == (CalendarDate { year: 2024, month: 1, day: 1 }),
        r.valid_to is None,
        r.antecedent_hash == 0,
        r.antecedent_audit_log_id == NIL_ID,
        r.hash == 0,
        r.audit_log_id is None,
{
    let valid_from = date_from_ymd(2024, 1, 1).unwrap();
    ProductModel {
        id: new_random_id(),
        name,
        product_type: ProductType::CASA,
        minimum_balance: decimal_from_int(100),
        maximum_balance: Some(decimal_from_int(1000000)),
        overdraft_allowed: false,
        overdraft_limit: None,
        interest_calculation_method: InterestCalculationMethod::DailyBalance,
        interest_posting_frequency: PostingFrequency::Monthly,
        dormancy_threshold_days: 365,
        minimum_opening_balance: decimal_from_int(100),
        closure_fee: decimal_from_int(50),
        maintenance_fee: Some(decimal_from_int(10)),
        maintenance_fee_frequency: MaintenanceFeeFrequency::Monthly,
        default_dormancy_days: Some(365),
        default_overdraft_limit: None,
        per_transaction_limit: Some(decimal_from_int(50000)),
        daily_transaction_limit: Some(decimal_from_int(100000)),
        weekly_transaction_limit: Some(decimal_from_int(500000)),
        monthly_transaction_limit: Some(decimal_from_int(2000000)),
        overdraft_interest_rate: None,
        accrual_frequency: ProductAccrualFrequency::Daily,
        interest_rate_tier_1: None,
        interest_rate_tier_2: None,
        interest_rate_tier_3: None,
        interest_rate_tier_4: None,
        interest_rate_tier_5: None,
        account_gl_mapping,
        fee_type_gl_mapping,
        is_active: true,
        valid_from,
        valid_to: None,
        antecedent_hash: 0,
        antecedent_audit_log_id: NIL_ID,
        hash: 0,
        audit_log_id: None,
    }
}

} // verus!
