//! Products and their index rows.

use vstd::prelude::*;
use crate::audit::AuditedModel;
use crate::cache::{IndexKey, IndexModel, Indexed};
use crate::hashing::{
    enc_bool, enc_i32, enc_i64, enc_opt_i32, enc_opt_i64, enc_opt_text, enc_opt_u128, enc_text,
    enc_u128, enc_u64, hash_text, push_bool, push_i32, push_i64, push_opt_i32, push_opt_i64,
    push_opt_text, push_opt_u128, push_text, push_u128, push_u64, text_hash,
};
use crate::ids::Keyed;
use crate::values::{
    copy_opt_text, enc_date, enc_decimal, enc_opt_date, enc_opt_decimal, enc_timestamp, push_date,
    push_decimal, push_opt_date, push_opt_decimal, push_timestamp, CalendarDate, DecimalValue,
    Timestamp,
};
use crate::models::enums::{
    FeeType, IdentityType, InterestCalculationMethod, LocationType, MaintenanceFeeFrequency,
    PersonStatus, PersonType, PostingFrequency, ProductAccrualFrequency, ProductType,
    RelationshipRole, RiskRating,
};

use crate::hashing::{
    lemma_peel_bool, lemma_peel_i32, lemma_peel_i64, lemma_peel_opt_i32, lemma_peel_opt_i64,
    lemma_peel_opt_text, lemma_peel_opt_u128, lemma_peel_text, lemma_peel_u128, lemma_peel_u64,
    opt_text_fits, opt_text_view, text_fits,
};
use crate::values::{
    lemma_peel_date, lemma_peel_decimal, lemma_peel_opt_date, lemma_peel_opt_decimal,
    lemma_peel_timestamp,
};

verus! {

/// A banking product definition, with its audit fields.
#[derive(Debug, PartialEq, Eq)]
pub struct ProductModel {
    pub id: u128,
    pub name: u128,
    pub product_type: ProductType,
    pub minimum_balance: DecimalValue,
    pub maximum_balance: Option<DecimalValue>,
    pub overdraft_allowed: bool,
    pub overdraft_limit: Option<DecimalValue>,
    pub interest_calculation_method: InterestCalculationMethod,
    pub interest_posting_frequency: PostingFrequency,
    pub dormancy_threshold_days: i32,
    pub minimum_opening_balance: DecimalValue,
    pub closure_fee: DecimalValue,
    pub maintenance_fee: Option<DecimalValue>,
    pub maintenance_fee_frequency: MaintenanceFeeFrequency,
    pub default_dormancy_days: Option<i32>,
    pub default_overdraft_limit: Option<DecimalValue>,
    pub per_transaction_limit: Option<DecimalValue>,
    pub daily_transaction_limit: Option<DecimalValue>,
    pub weekly_transaction_limit: Option<DecimalValue>,
    pub monthly_transaction_limit: Option<DecimalValue>,
    pub overdraft_interest_rate: Option<DecimalValue>,
    pub accrual_frequency: ProductAccrualFrequency,
    pub interest_rate_tier_1: Option<u128>,
    pub interest_rate_tier_2: Option<u128>,
    pub interest_rate_tier_3: Option<u128>,
    pub interest_rate_tier_4: Option<u128>,
    pub interest_rate_tier_5: Option<u128>,
    pub account_gl_mapping: u128,
    pub fee_type_gl_mapping: u128,
    pub is_active: bool,
    pub valid_from: CalendarDate,
    pub valid_to: Option<CalendarDate>,
    pub antecedent_hash: i64,
    pub antecedent_audit_log_id: u128,
    pub hash: i64,
    pub audit_log_id: Option<u128>,
}

impl ProductModel {
    /// The canonical encoding of every field, in declaration order.
    pub open spec fn encoding(&self) -> Seq<u64> {
        enc_u128(self.id)
            + enc_u128(self.name)
            + enc_u64(self.product_type.code_value())
            + enc_decimal(self.minimum_balance)
            + enc_opt_decimal(self.maximum_balance)
            + enc_bool(self.overdraft_allowed)
            + enc_opt_decimal(self.overdraft_limit)
            + enc_u64(self.interest_calculation_method.code_value())
            + enc_u64(self.interest_posting_frequency.code_value())
            + enc_i32(self.dormancy_threshold_days)
            + enc_decimal(self.minimum_opening_balance)
            + enc_decimal(self.closure_fee)
            + enc_opt_decimal(self.maintenance_fee)
            + enc_u64(self.maintenance_fee_frequency.code_value())
            + enc_opt_i32(self.default_dormancy_days)
            + enc_opt_decimal(self.default_overdraft_limit)
            + enc_opt_decimal(self.per_transaction_limit)
            + enc_opt_decimal(self.daily_transaction_limit)
            + enc_opt_decimal(self.weekly_transaction_limit)
            + enc_opt_decimal(self.monthly_transaction_limit)
            + enc_opt_decimal(self.overdraft_interest_rate)
            + enc_u64(self.accrual_frequency.code_value())
            + enc_opt_u128(self.interest_rate_tier_1)
            + enc_opt_u128(self.interest_rate_tier_2)
            + enc_opt_u128(self.interest_rate_tier_3)
            + enc_opt_u128(self.interest_rate_tier_4)
            + enc_opt_u128(self.interest_rate_tier_5)
            + enc_u128(self.account_gl_mapping)
            + enc_u128(self.fee_type_gl_mapping)
            + enc_bool(self.is_active)
            + enc_date(self.valid_from)
            + enc_opt_date(self.valid_to)
            + enc_i64(self.antecedent_hash)
            + enc_u128(self.antecedent_audit_log_id)
            + enc_i64(self.hash)
            + enc_opt_u128(self.audit_log_id)
    }

    /// Computes `self.encoding()`.
    pub fn encode_fields(&self) -> (w: Vec<u64>)
        ensures
            w@ == self.encoding(),
    {
        let mut w: Vec<u64> = Vec::new();
        push_u128(&mut w, self.id);
        push_u128(&mut w, self.name);
        push_u64(&mut w, self.product_type.code());
        push_decimal(&mut w, self.minimum_balance);
        push_opt_decimal(&mut w, self.maximum_balance);
        push_bool(&mut w, self.overdraft_allowed);
        push_opt_decimal(&mut w, self.overdraft_limit);
        push_u64(&mut w, self.interest_calculation_method.code());
        push_u64(&mut w, self.interest_posting_frequency.code());
        push_i32(&mut w, self.dormancy_threshold_days);
        push_decimal(&mut w, self.minimum_opening_balance);
        push_decimal(&mut w, self.closure_fee);
        push_opt_decimal(&mut w, self.maintenance_fee);
        push_u64(&mut w, self.maintenance_fee_frequency.code());
        push_opt_i32(&mut w, self.default_dormancy_days);
        push_opt_decimal(&mut w, self.default_overdraft_limit);
        push_opt_decimal(&mut w, self.per_transaction_limit);
        push_opt_decimal(&mut w, self.daily_transaction_limit);
        push_opt_decimal(&mut w, self.weekly_transaction_limit);
        push_opt_decimal(&mut w, self.monthly_transaction_limit);
        push_opt_decimal(&mut w, self.overdraft_interest_rate);
        push_u64(&mut w, self.accrual_frequency.code());
        push_opt_u128(&mut w, self.interest_rate_tier_1);
        push_opt_u128(&mut w, self.interest_rate_tier_2);
        push_opt_u128(&mut w, self.interest_rate_tier_3);
        push_opt_u128(&mut w, self.interest_rate_tier_4);
        push_opt_u128(&mut w, self.interest_rate_tier_5);
        push_u128(&mut w, self.account_gl_mapping);
        push_u128(&mut w, self.fee_type_gl_mapping);
        push_bool(&mut w, self.is_active);
        push_date(&mut w, self.valid_from);
        push_opt_date(&mut w, self.valid_to);
        push_i64(&mut w, self.antecedent_hash);
        push_u128(&mut w, self.antecedent_audit_log_id);
        push_i64(&mut w, self.hash);
        push_opt_u128(&mut w, self.audit_log_id);
        assert(w@ =~= self.encoding());
        w
    }

    /// A field-by-field copy.
    pub fn copy(&self) -> (r: Self)
        ensures
            r == *self,
    {
        ProductModel {
            id: self.id,
            name: self.name,
            product_type: self.product_type,
            minimum_balance: self.minimum_balance,
            maximum_balance: self.maximum_balance,
            overdraft_allowed: self.overdraft_allowed,
            overdraft_limit: self.overdraft_limit,
            interest_calculation_method: self.interest_calculation_method,
            interest_posting_frequency: self.interest_posting_frequency,
            dormancy_threshold_days: self.dormancy_threshold_days,
            minimum_opening_balance: self.minimum_opening_balance,
            closure_fee: self.closure_fee,
            maintenance_fee: self.maintenance_fee,
            maintenance_fee_frequency: self.maintenance_fee_frequency,
            default_dormancy_days: self.default_dormancy_days,
            default_overdraft_limit: self.default_overdraft_limit,
            per_transaction_limit: self.per_transaction_limit,
            daily_transaction_limit: self.daily_transaction_limit,
            weekly_transaction_limit: self.weekly_transaction_limit,
            monthly_transaction_limit: self.monthly_transaction_limit,
            overdraft_interest_rate: self.overdraft_interest_rate,
            accrual_frequency: self.accrual_frequency,
            interest_rate_tier_1: self.interest_rate_tier_1,
            interest_rate_tier_2: self.interest_rate_tier_2,
            interest_rate_tier_3: self.interest_rate_tier_3,
            interest_rate_tier_4: self.interest_rate_tier_4,
            interest_rate_tier_5: self.interest_rate_tier_5,
            account_gl_mapping: self.account_gl_mapping,
            fee_type_gl_mapping: self.fee_type_gl_mapping,
            is_active: self.is_active,
            valid_from: self.valid_from,
            valid_to: self.valid_to,
            antecedent_hash: self.antecedent_hash,
            antecedent_audit_log_id: self.antecedent_audit_log_id,
            hash: self.hash,
            audit_log_id: self.audit_log_id,
        }
    }
}

impl Keyed for ProductModel {
    open spec fn id_value(&self) -> u128 {
        self.id
    }

    fn id(&self) -> (r: u128) {
        self.id
    }

    fn duplicate(&self) -> (r: Self) {
        self.copy()
    }
}

impl AuditedModel for ProductModel {
    open spec fn hash_value(&self) -> i64 {
        self.hash
    }

    open spec fn audit_log_value(&self) -> Option<u128> {
        self.audit_log_id
    }

    open spec fn antecedent_hash_value(&self) -> i64 {
        self.antecedent_hash
    }

    open spec fn antecedent_audit_log_value(&self) -> u128 {
        self.antecedent_audit_log_id
    }

    open spec fn with_audit(
        self,
        antecedent_hash: i64,
        antecedent_audit_log_id: u128,
        hash: i64,
        audit_log_id: Option<u128>,
    ) -> Self {
        ProductModel { antecedent_hash, antecedent_audit_log_id, hash, audit_log_id, ..self }
    }

    open spec fn words(&self) -> Seq<u64> {
        self.encoding()
    }

    proof fn lemma_with_audit(
        self,
        antecedent_hash: i64,
        antecedent_audit_log_id: u128,
        hash: i64,
        audit_log_id: Option<u128>,
    ) {
    }

    fn hash(&self) -> (r: i64) {
        self.hash
    }

    fn audit_log_id(&self) -> (r: Option<u128>) {
        self.audit_log_id
    }

    fn antecedent_hash(&self) -> (r: i64) {
        self.antecedent_hash
    }

    fn antecedent_audit_log_id(&self) -> (r: u128) {
        self.antecedent_audit_log_id
    }

    fn set_audit(
        &mut self,
        antecedent_hash: i64,
        antecedent_audit_log_id: u128,
        hash: i64,
        audit_log_id: Option<u128>,
    ) {
        self.antecedent_hash = antecedent_hash;
        self.antecedent_audit_log_id = antecedent_audit_log_id;
        self.hash = hash;
        self.audit_log_id = audit_log_id;
    }

    fn encode(&self) -> (w: Vec<u64>) {
        self.encode_fields()
    }
}

/// The index row of a product: every product column but the audit fields.
#[derive(Debug, PartialEq, Eq)]
pub struct ProductIdxModel {
    pub id: u128,
    pub name: u128,
    pub product_type: ProductType,
    pub minimum_balance: DecimalValue,
    pub maximum_balance: Option<DecimalValue>,
    pub overdraft_allowed: bool,
    pub overdraft_limit: Option<DecimalValue>,
    pub interest_calculation_method: InterestCalculationMethod,
    pub interest_posting_frequency: PostingFrequency,
    pub dormancy_threshold_days: i32,
    pub minimum_opening_balance: DecimalValue,
    pub closure_fee: DecimalValue,
    pub maintenance_fee: Option<DecimalValue>,
    pub maintenance_fee_frequency: MaintenanceFeeFrequency,
    pub default_dormancy_days: Option<i32>,
    pub default_overdraft_limit: Option<DecimalValue>,
    pub per_transaction_limit: Option<DecimalValue>,
    pub daily_transaction_limit: Option<DecimalValue>,
    pub weekly_transaction_limit: Option<DecimalValue>,
    pub monthly_transaction_limit: Option<DecimalValue>,
    pub overdraft_interest_rate: Option<DecimalValue>,
    pub accrual_frequency: ProductAccrualFrequency,
    pub interest_rate_tier_1: Option<u128>,
    pub interest_rate_tier_2: Option<u128>,
    pub interest_rate_tier_3: Option<u128>,
    pub interest_rate_tier_4: Option<u128>,
    pub interest_rate_tier_5: Option<u128>,
    pub account_gl_mapping: u128,
    pub fee_type_gl_mapping: u128,
    pub is_active: bool,
    pub valid_from: CalendarDate,
    pub valid_to: Option<CalendarDate>,
}

impl ProductIdxModel {
    /// A field-by-field copy.
    pub fn copy(&self) -> (r: Self)
        ensures
            r == *self,
    {
        ProductIdxModel {
            id: self.id,
            name: self.name,
            product_type: self.product_type,
            minimum_balance: self.minimum_balance,
            maximum_balance: self.maximum_balance,
            overdraft_allowed: self.overdraft_allowed,
            overdraft_limit: self.overdraft_limit,
            interest_calculation_method: self.interest_calculation_method,
            interest_posting_frequency: self.interest_posting_frequency,
            dormancy_threshold_days: self.dormancy_threshold_days,
            minimum_opening_balance: self.minimum_opening_balance,
            closure_fee: self.closure_fee,
            maintenance_fee: self.maintenance_fee,
            maintenance_fee_frequency: self.maintenance_fee_frequency,
            default_dormancy_days: self.default_dormancy_days,
            default_overdraft_limit: self.default_overdraft_limit,
            per_transaction_limit: self.per_transaction_limit,
            daily_transaction_limit: self.daily_transaction_limit,
            weekly_transaction_limit: self.weekly_transaction_limit,
            monthly_transaction_limit: self.monthly_transaction_limit,
            overdraft_interest_rate: self.overdraft_interest_rate,
            accrual_frequency: self.accrual_frequency,
            interest_rate_tier_1: self.interest_rate_tier_1,
            interest_rate_tier_2: self.interest_rate_tier_2,
            interest_rate_tier_3: self.interest_rate_tier_3,
            interest_rate_tier_4: self.interest_rate_tier_4,
            interest_rate_tier_5: self.interest_rate_tier_5,
            account_gl_mapping: self.account_gl_mapping,
            fee_type_gl_mapping: self.fee_type_gl_mapping,
            is_active: self.is_active,
            valid_from: self.valid_from,
            valid_to: self.valid_to,
        }
    }
}

impl Keyed for ProductIdxModel {
    open spec fn id_value(&self) -> u128 {
        self.id
    }

    fn id(&self) -> (r: u128) {
        self.id
    }

    fn duplicate(&self) -> (r: Self) {
        self.copy()
    }
}

impl IndexModel for ProductIdxModel {
    open spec fn uuid_key_value(&self, key: IndexKey) -> Option<u128> {
        None
    }

    open spec fn i64_key_value(&self, key: IndexKey) -> Option<i64> {
        None
    }

    fn uuid_key(&self, key: IndexKey) -> (r: Option<u128>) {
        None
    }

    fn i64_key(&self, key: IndexKey) -> (r: Option<i64>) {
        None
    }
}

impl Indexed for ProductModel {
    type Idx = ProductIdxModel;

    open spec fn index_value(&self) -> ProductIdxModel {
        ProductIdxModel {
            id: self.id,
            name: self.name,
            product_type: self.product_type,
            minimum_balance: self.minimum_balance,
            maximum_balance: self.maximum_balance,
            overdraft_allowed: self.overdraft_allowed,
            overdraft_limit: self.overdraft_limit,
            interest_calculation_method: self.interest_calculation_method,
            interest_posting_frequency: self.interest_posting_frequency,
            dormancy_threshold_days: self.dormancy_threshold_days,
            minimum_opening_balance: self.minimum_opening_balance,
            closure_fee: self.closure_fee,
            maintenance_fee: self.maintenance_fee,
            maintenance_fee_frequency: self.maintenance_fee_frequency,
            default_dormancy_days: self.default_dormancy_days,
            default_overdraft_limit: self.default_overdraft_limit,
            per_transaction_limit: self.per_transaction_limit,
            daily_transaction_limit: self.daily_transaction_limit,
            weekly_transaction_limit: self.weekly_transaction_limit,
            monthly_transaction_limit: self.monthly_transaction_limit,
            overdraft_interest_rate: self.overdraft_interest_rate,
            accrual_frequency: self.accrual_frequency,
            interest_rate_tier_1: self.interest_rate_tier_1,
            interest_rate_tier_2: self.interest_rate_tier_2,
            interest_rate_tier_3: self.interest_rate_tier_3,
            interest_rate_tier_4: self.interest_rate_tier_4,
            interest_rate_tier_5: self.interest_rate_tier_5,
            account_gl_mapping: self.account_gl_mapping,
            fee_type_gl_mapping: self.fee_type_gl_mapping,
            is_active: self.is_active,
            valid_from: self.valid_from,
            valid_to: self.valid_to,
        }
    }

    proof fn lemma_index_id(&self) {
    }

    fn to_index(&self) -> (r: ProductIdxModel) {
        let id = self.id;
        let name = self.name;
        let product_type = self.product_type;
        let minimum_balance = self.minimum_balance;
        let maximum_balance = self.maximum_balance;
        let overdraft_allowed = self.overdraft_allowed;
        let overdraft_limit = self.overdraft_limit;
        let interest_calculation_method = self.interest_calculation_method;
        let interest_posting_frequency = self.interest_posting_frequency;
        let dormancy_threshold_days = self.dormancy_threshold_days;
        let minimum_opening_balance = self.minimum_opening_balance;
        let closure_fee = self.closure_fee;
        let maintenance_fee = self.maintenance_fee;
        let maintenance_fee_frequency = self.maintenance_fee_frequency;
        let default_dormancy_days = self.default_dormancy_days;
        let default_overdraft_limit = self.default_overdraft_limit;
        let per_transaction_limit = self.per_transaction_limit;
        let daily_transaction_limit = self.daily_transaction_limit;
        let weekly_transaction_limit = self.weekly_transaction_limit;
        let monthly_transaction_limit = self.monthly_transaction_limit;
        let overdraft_interest_rate = self.overdraft_interest_rate;
        let accrual_frequency = self.accrual_frequency;
        let interest_rate_tier_1 = self.interest_rate_tier_1;
        let interest_rate_tier_2 = self.interest_rate_tier_2;
        let interest_rate_tier_3 = self.interest_rate_tier_3;
        let interest_rate_tier_4 = self.interest_rate_tier_4;
        let interest_rate_tier_5 = self.interest_rate_tier_5;
        let account_gl_mapping = self.account_gl_mapping;
        let fee_type_gl_mapping = self.fee_type_gl_mapping;
        let is_active = self.is_active;
        let valid_from = self.valid_from;
        let valid_to = self.valid_to;
        ProductIdxModel { id, name, product_type, minimum_balance, maximum_balance, overdraft_allowed, overdraft_limit, interest_calculation_method, interest_posting_frequency, dormancy_threshold_days, minimum_opening_balance, closure_fee, maintenance_fee, maintenance_fee_frequency, default_dormancy_days, default_overdraft_limit, per_transaction_limit, daily_transaction_limit, weekly_transaction_limit, monthly_transaction_limit, overdraft_interest_rate, accrual_frequency, interest_rate_tier_1, interest_rate_tier_2, interest_rate_tier_3, interest_rate_tier_4, interest_rate_tier_5, account_gl_mapping, fee_type_gl_mapping, is_active, valid_from, valid_to }
    }
}

/// The encoding of a product, nested from the right: each field's words
/// followed by the words of the fields after it.
spec fn product_encoding_nested(m: ProductModel) -> Seq<u64> {
    enc_u128(m.id) + (enc_u128(m.name) + (enc_u64(m.product_type.code_value()) + (enc_decimal(m.minimum_balance) + (enc_opt_decimal(m.maximum_balance) + (enc_bool(m.overdraft_allowed) + (enc_opt_decimal(m.overdraft_limit) + (enc_u64(m.interest_calculation_method.code_value()) + (enc_u64(m.interest_posting_frequency.code_value()) + (enc_i32(m.dormancy_threshold_days) + (enc_decimal(m.minimum_opening_balance) + (enc_decimal(m.closure_fee) + (enc_opt_decimal(m.maintenance_fee) + (enc_u64(m.maintenance_fee_frequency.code_value()) + (enc_opt_i32(m.default_dormancy_days) + (enc_opt_decimal(m.default_overdraft_limit) + (enc_opt_decimal(m.per_transaction_limit) + (enc_opt_decimal(m.daily_transaction_limit) + (enc_opt_decimal(m.weekly_transaction_limit) + (enc_opt_decimal(m.monthly_transaction_limit) + (enc_opt_decimal(m.overdraft_interest_rate) + (enc_u64(m.accrual_frequency.code_value()) + (enc_opt_u128(m.interest_rate_tier_1) + (enc_opt_u128(m.interest_rate_tier_2) + (enc_opt_u128(m.interest_rate_tier_3) + (enc_opt_u128(m.interest_rate_tier_4) + (enc_opt_u128(m.interest_rate_tier_5) + (enc_u128(m.account_gl_mapping) + (enc_u128(m.fee_type_gl_mapping) + (enc_bool(m.is_active) + (enc_date(m.valid_from) + (enc_opt_date(m.valid_to) + (enc_i64(m.antecedent_hash) + (enc_u128(m.antecedent_audit_log_id) + (enc_i64(m.hash) + (enc_opt_u128(m.audit_log_id))))))))))))))))))))))))))))))))))))
}

proof fn lemma_product_encoding_nested(m: ProductModel)
    ensures
        m.encoding() == product_encoding_nested(m),
{
    let r36 = Seq::<u64>::empty();
    let r35 = enc_opt_u128(m.audit_log_id) + r36;
    let r34 = enc_i64(m.hash) + r35;
    let r33 = enc_u128(m.antecedent_audit_log_id) + r34;
    let r32 = enc_i64(m.antecedent_hash) + r33;
    let r31 = enc_opt_date(m.valid_to) + r32;
    let r30 = enc_date(m.valid_from) + r31;
    let r29 = enc_bool(m.is_active) + r30;
    let r28 = enc_u128(m.fee_type_gl_mapping) + r29;
    let r27 = enc_u128(m.account_gl_mapping) + r28;
    let r26 = enc_opt_u128(m.interest_rate_tier_5) + r27;
    let r25 = enc_opt_u128(m.interest_rate_tier_4) + r26;
    let r24 = enc_opt_u128(m.interest_rate_tier_3) + r25;
    let r23 = enc_opt_u128(m.interest_rate_tier_2) + r24;
    let r22 = enc_opt_u128(m.interest_rate_tier_1) + r23;
    let r21 = enc_u64(m.accrual_frequency.code_value()) + r22;
    let r20 = enc_opt_decimal(m.overdraft_interest_rate) + r21;
    let r19 = enc_opt_decimal(m.monthly_transaction_limit) + r20;
    let r18 = enc_opt_decimal(m.weekly_transaction_limit) + r19;
    let r17 = enc_opt_decimal(m.daily_transaction_limit) + r18;
    let r16 = enc_opt_decimal(m.per_transaction_limit) + r17;
    let r15 = enc_opt_decimal(m.default_overdraft_limit) + r16;
    let r14 = enc_opt_i32(m.default_dormancy_days) + r15;
    let r13 = enc_u64(m.maintenance_fee_frequency.code_value()) + r14;
    let r12 = enc_opt_decimal(m.maintenance_fee) + r13;
    let r11 = enc_decimal(m.closure_fee) + r12;
    let r10 = enc_decimal(m.minimum_opening_balance) + r11;
    let r9 = enc_i32(m.dormancy_threshold_days) + r10;
    let r8 = enc_u64(m.interest_posting_frequency.code_value()) + r9;
    let r7 = enc_u64(m.interest_calculation_method.code_value()) + r8;
    let r6 = enc_opt_decimal(m.overdraft_limit) + r7;
    let r5 = enc_bool(m.overdraft_allowed) + r6;
    let r4 = enc_opt_decimal(m.maximum_balance) + r5;
    let r3 = enc_decimal(m.minimum_balance) + r4;
    let r2 = enc_u64(m.product_type.code_value()) + r3;
    let r1 = enc_u128(m.name) + r2;
    let r0 = enc_u128(m.id) + r1;
    let l1 = enc_u128(m.id);
    let l2 = l1 + enc_u128(m.name);
    let l3 = l2 + enc_u64(m.product_type.code_value());
    let l4 = l3 + enc_decimal(m.minimum_balance);
    let l5 = l4 + enc_opt_decimal(m.maximum_balance);
    let l6 = l5 + enc_bool(m.overdraft_allowed);
    let l7 = l6 + enc_opt_decimal(m.overdraft_limit);
    let l8 = l7 + enc_u64(m.interest_calculation_method.code_value());
    let l9 = l8 + enc_u64(m.interest_posting_frequency.code_value());
    let l10 = l9 + enc_i32(m.dormancy_threshold_days);
    let l11 = l10 + enc_decimal(m.minimum_opening_balance);
    let l12 = l11 + enc_decimal(m.closure_fee);
    let l13 = l12 + enc_opt_decimal(m.maintenance_fee);
    let l14 = l13 + enc_u64(m.maintenance_fee_frequency.code_value());
    let l15 = l14 + enc_opt_i32(m.default_dormancy_days);
    let l16 = l15 + enc_opt_decimal(m.default_overdraft_limit);
    let l17 = l16 + enc_opt_decimal(m.per_transaction_limit);
    let l18 = l17 + enc_opt_decimal(m.daily_transaction_limit);
    let l19 = l18 + enc_opt_decimal(m.weekly_transaction_limit);
    let l20 = l19 + enc_opt_decimal(m.monthly_transaction_limit);
    let l21 = l20 + enc_opt_decimal(m.overdraft_interest_rate);
    let l22 = l21 + enc_u64(m.accrual_frequency.code_value());
    let l23 = l22 + enc_opt_u128(m.interest_rate_tier_1);
    let l24 = l23 + enc_opt_u128(m.interest_rate_tier_2);
    let l25 = l24 + enc_opt_u128(m.interest_rate_tier_3);
    let l26 = l25 + enc_opt_u128(m.interest_rate_tier_4);
    let l27 = l26 + enc_opt_u128(m.interest_rate_tier_5);
    let l28 = l27 + enc_u128(m.account_gl_mapping);
    let l29 = l28 + enc_u128(m.fee_type_gl_mapping);
    let l30 = l29 + enc_bool(m.is_active);
    let l31 = l30 + enc_date(m.valid_from);
    let l32 = l31 + enc_opt_date(m.valid_to);
    let l33 = l32 + enc_i64(m.antecedent_hash);
    let l34 = l33 + enc_u128(m.antecedent_audit_log_id);
    let l35 = l34 + enc_i64(m.hash);
    let l36 = l35 + enc_opt_u128(m.audit_log_id);
    assert(m.encoding() == l36);
    assert(l36 + r36 =~= l36);
    vstd::seq_lib::lemma_concat_associative(l35, enc_opt_u128(m.audit_log_id), r36);
    vstd::seq_lib::lemma_concat_associative(l34, enc_i64(m.hash), r35);
    vstd::seq_lib::lemma_concat_associative(l33, enc_u128(m.antecedent_audit_log_id), r34);
    vstd::seq_lib::lemma_concat_associative(l32, enc_i64(m.antecedent_hash), r33);
    vstd::seq_lib::lemma_concat_associative(l31, enc_opt_date(m.valid_to), r32);
    vstd::seq_lib::lemma_concat_associative(l30, enc_date(m.valid_from), r31);
    vstd::seq_lib::lemma_concat_associative(l29, enc_bool(m.is_active), r30);
    vstd::seq_lib::lemma_concat_associative(l28, enc_u128(m.fee_type_gl_mapping), r29);
    vstd::seq_lib::lemma_concat_associative(l27, enc_u128(m.account_gl_mapping), r28);
    vstd::seq_lib::lemma_concat_associative(l26, enc_opt_u128(m.interest_rate_tier_5), r27);
    vstd::seq_lib::lemma_concat_associative(l25, enc_opt_u128(m.interest_rate_tier_4), r26);
    vstd::seq_lib::lemma_concat_associative(l24, enc_opt_u128(m.interest_rate_tier_3), r25);
    vstd::seq_lib::lemma_concat_associative(l23, enc_opt_u128(m.interest_rate_tier_2), r24);
    vstd::seq_lib::lemma_concat_associative(l22, enc_opt_u128(m.interest_rate_tier_1), r23);
    vstd::seq_lib::lemma_concat_associative(l21, enc_u64(m.accrual_frequency.code_value()), r22);
    vstd::seq_lib::lemma_concat_associative(l20, enc_opt_decimal(m.overdraft_interest_rate), r21);
    vstd::seq_lib::lemma_concat_associative(l19, enc_opt_decimal(m.monthly_transaction_limit), r20);
    vstd::seq_lib::lemma_concat_associative(l18, enc_opt_decimal(m.weekly_transaction_limit), r19);
    vstd::seq_lib::lemma_concat_associative(l17, enc_opt_decimal(m.daily_transaction_limit), r18);
    vstd::seq_lib::lemma_concat_associative(l16, enc_opt_decimal(m.per_transaction_limit), r17);
    vstd::seq_lib::lemma_concat_associative(l15, enc_opt_decimal(m.default_overdraft_limit), r16);
    vstd::seq_lib::lemma_concat_associative(l14, enc_opt_i32(m.default_dormancy_days), r15);
    vstd::seq_lib::lemma_concat_associative(l13, enc_u64(m.maintenance_fee_frequency.code_value()), r14);
    vstd::seq_lib::lemma_concat_associative(l12, enc_opt_decimal(m.maintenance_fee), r13);
    vstd::seq_lib::lemma_concat_associative(l11, enc_decimal(m.closure_fee), r12);
    vstd::seq_lib::lemma_concat_associative(l10, enc_decimal(m.minimum_opening_balance), r11);
    vstd::seq_lib::lemma_concat_associative(l9, enc_i32(m.dormancy_threshold_days), r10);
    vstd::seq_lib::lemma_concat_associative(l8, enc_u64(m.interest_posting_frequency.code_value()), r9);
    vstd::seq_lib::lemma_concat_associative(l7, enc_u64(m.interest_calculation_method.code_value()), r8);
    vstd::seq_lib::lemma_concat_associative(l6, enc_opt_decimal(m.overdraft_limit), r7);
    vstd::seq_lib::lemma_concat_associative(l5, enc_bool(m.overdraft_allowed), r6);
    vstd::seq_lib::lemma_concat_associative(l4, enc_opt_decimal(m.maximum_balance), r5);
    vstd::seq_lib::lemma_concat_associative(l3, enc_decimal(m.minimum_balance), r4);
    vstd::seq_lib::lemma_concat_associative(l2, enc_u64(m.product_type.code_value()), r3);
    vstd::seq_lib::lemma_concat_associative(l1, enc_u128(m.name), r2);
    assert(r35 == enc_opt_u128(m.audit_log_id) + r36);
    assert(enc_opt_u128(m.audit_log_id) + r36 =~= enc_opt_u128(m.audit_log_id));
}

/// Two product records with the same word encoding agree on every field,
/// so no field is left out of what the content hash is taken over: a
/// product that differs from a sealed one in any field but the audit fields
/// is hashed over different words.
#[verifier::rlimit(50)]
pub proof fn law_product_encoding_determines_fields(a: ProductModel, b: ProductModel)
    requires
        a.encoding() == b.encoding(),
    ensures
        a.id == b.id,
        a.name == b.name,
        a.product_type == b.product_type,
        a.minimum_balance == b.minimum_balance,
        a.maximum_balance == b.maximum_balance,
        a.overdraft_allowed == b.overdraft_allowed,
        a.overdraft_limit == b.overdraft_limit,
        a.interest_calculation_method == b.interest_calculation_method,
        a.interest_posting_frequency == b.interest_posting_frequency,
        a.dormancy_threshold_days == b.dormancy_threshold_days,
        a.minimum_opening_balance == b.minimum_opening_balance,
        a.closure_fee == b.closure_fee,
        a.maintenance_fee == b.maintenance_fee,
        a.maintenance_fee_frequency == b.maintenance_fee_frequency,
        a.default_dormancy_days == b.default_dormancy_days,
        a.default_overdraft_limit == b.default_overdraft_limit,
        a.per_transaction_limit == b.per_transaction_limit,
        a.daily_transaction_limit == b.daily_transaction_limit,
        a.weekly_transaction_limit == b.weekly_transaction_limit,
        a.monthly_transaction_limit == b.monthly_transaction_limit,
        a.overdraft_interest_rate == b.overdraft_interest_rate,
        a.accrual_frequency == b.accrual_frequency,
        a.interest_rate_tier_1 == b.interest_rate_tier_1,
        a.interest_rate_tier_2 == b.interest_rate_tier_2,
        a.interest_rate_tier_3 == b.interest_rate_tier_3,
        a.interest_rate_tier_4 == b.interest_rate_tier_4,
        a.interest_rate_tier_5 == b.interest_rate_tier_5,
        a.account_gl_mapping == b.account_gl_mapping,
        a.fee_type_gl_mapping == b.fee_type_gl_mapping,
        a.is_active == b.is_active,
        a.valid_from == b.valid_from,
        a.valid_to == b.valid_to,
        a.antecedent_hash == b.antecedent_hash,
        a.antecedent_audit_log_id == b.antecedent_audit_log_id,
        a.hash == b.hash,
        a.audit_log_id == b.audit_log_id,
{
    lemma_product_encoding_nested(a);
    lemma_product_encoding_nested(b);
    let ra35 = enc_opt_u128(a.audit_log_id);
    let rb35 = enc_opt_u128(b.audit_log_id);
    let ra34 = enc_i64(a.hash) + ra35;
    let rb34 = enc_i64(b.hash) + rb35;
    let ra33 = enc_u128(a.antecedent_audit_log_id) + ra34;
    let rb33 = enc_u128(b.antecedent_audit_log_id) + rb34;
    let ra32 = enc_i64(a.antecedent_hash) + ra33;
    let rb32 = enc_i64(b.antecedent_hash) + rb33;
    let ra31 = enc_opt_date(a.valid_to) + ra32;
    let rb31 = enc_opt_date(b.valid_to) + rb32;
    let ra30 = enc_date(a.valid_from) + ra31;
    let rb30 = enc_date(b.valid_from) + rb31;
    let ra29 = enc_bool(a.is_active) + ra30;
    let rb29 = enc_bool(b.is_active) + rb30;
    let ra28 = enc_u128(a.fee_type_gl_mapping) + ra29;
    let rb28 = enc_u128(b.fee_type_gl_mapping) + rb29;
    let ra27 = enc_u128(a.account_gl_mapping) + ra28;
    let rb27 = enc_u128(b.account_gl_mapping) + rb28;
    let ra26 = enc_opt_u128(a.interest_rate_tier_5) + ra27;
    let rb26 = enc_opt_u128(b.interest_rate_tier_5) + rb27;
    let ra25 = enc_opt_u128(a.interest_rate_tier_4) + ra26;
    let rb25 = enc_opt_u128(b.interest_rate_tier_4) + rb26;
    let ra24 = enc_opt_u128(a.interest_rate_tier_3) + ra25;
    let rb24 = enc_opt_u128(b.interest_rate_tier_3) + rb25;
    let ra23 = enc_opt_u128(a.interest_rate_tier_2) + ra24;
    let rb23 = enc_opt_u128(b.interest_rate_tier_2) + rb24;
    let ra22 = enc_opt_u128(a.interest_rate_tier_1) + ra23;
    let rb22 = enc_opt_u128(b.interest_rate_tier_1) + rb23;
    let ra21 = enc_u64(a.accrual_frequency.code_value()) + ra22;
    let rb21 = enc_u64(b.accrual_frequency.code_value()) + rb22;
    let ra20 = enc_opt_decimal(a.overdraft_interest_rate) + ra21;
    let rb20 = enc_opt_decimal(b.overdraft_interest_rate) + rb21;
    let ra19 = enc_opt_decimal(a.monthly_transaction_limit) + ra20;
    let rb19 = enc_opt_decimal(b.monthly_transaction_limit) + rb20;
    let ra18 = enc_opt_decimal(a.weekly_transaction_limit) + ra19;
    let rb18 = enc_opt_decimal(b.weekly_transaction_limit) + rb19;
    let ra17 = enc_opt_decimal(a.daily_transaction_limit) + ra18;
    let rb17 = enc_opt_decimal(b.daily_transaction_limit) + rb18;
    let ra16 = enc_opt_decimal(a.per_transaction_limit) + ra17;
    let rb16 = enc_opt_decimal(b.per_transaction_limit) + rb17;
    let ra15 = enc_opt_decimal(a.default_overdraft_limit) + ra16;
    let rb15 = enc_opt_decimal(b.default_overdraft_limit) + rb16;
    let ra14 = enc_opt_i32(a.default_dormancy_days) + ra15;
    let rb14 = enc_opt_i32(b.default_dormancy_days) + rb15;
    let ra13 = enc_u64(a.maintenance_fee_frequency.code_value()) + ra14;
    let rb13 = enc_u64(b.maintenance_fee_frequency.code_value()) + rb14;
    let ra12 = enc_opt_decimal(a.maintenance_fee) + ra13;
    let rb12 = enc_opt_decimal(b.maintenance_fee) + rb13;
    let ra11 = enc_decimal(a.closure_fee) + ra12;
    let rb11 = enc_decimal(b.closure_fee) + rb12;
    let ra10 = enc_decimal(a.minimum_opening_balance) + ra11;
    let rb10 = enc_decimal(b.minimum_opening_balance) + rb11;
    let ra9 = enc_i32(a.dormancy_threshold_days) + ra10;
    let rb9 = enc_i32(b.dormancy_threshold_days) + rb10;
    let ra8 = enc_u64(a.interest_posting_frequency.code_value()) + ra9;
    let rb8 = enc_u64(b.interest_posting_frequency.code_value()) + rb9;
    let ra7 = enc_u64(a.interest_calculation_method.code_value()) + ra8;
    let rb7 = enc_u64(b.interest_calculation_method.code_value()) + rb8;
    let ra6 = enc_opt_decimal(a.overdraft_limit) + ra7;
    let rb6 = enc_opt_decimal(b.overdraft_limit) + rb7;
    let ra5 = enc_bool(a.overdraft_allowed) + ra6;
    let rb5 = enc_bool(b.overdraft_allowed) + rb6;
    let ra4 = enc_opt_decimal(a.maximum_balance) + ra5;
    let rb4 = enc_opt_decimal(b.maximum_balance) + rb5;
    let ra3 = enc_decimal(a.minimum_balance) + ra4;
    let rb3 = enc_decimal(b.minimum_balance) + rb4;
    let ra2 = enc_u64(a.product_type.code_value()) + ra3;
    let rb2 = enc_u64(b.product_type.code_value()) + rb3;
    let ra1 = enc_u128(a.name) + ra2;
    let rb1 = enc_u128(b.name) + rb2;
    let ra0 = enc_u128(a.id) + ra1;
    let rb0 = enc_u128(b.id) + rb1;
    let e = Seq::<u64>::empty();
    assert(ra35 + e =~= ra35);
    assert(rb35 + e =~= rb35);
    lemma_peel_u128(a.id, b.id, ra1, rb1);
    lemma_peel_u128(a.name, b.name, ra2, rb2);
    lemma_peel_u64(a.product_type.code_value(), b.product_type.code_value(), ra3, rb3);
    a.product_type.lemma_code_injective(b.product_type);
    lemma_peel_decimal(a.minimum_balance, b.minimum_balance, ra4, rb4);
    lemma_peel_opt_decimal(a.maximum_balance, b.maximum_balance, ra5, rb5);
    lemma_peel_bool(a.overdraft_allowed, b.overdraft_allowed, ra6, rb6);
    lemma_peel_opt_decimal(a.overdraft_limit, b.overdraft_limit, ra7, rb7);
    lemma_peel_u64(a.interest_calculation_method.code_value(), b.interest_calculation_method.code_value(), ra8, rb8);
    a.interest_calculation_method.lemma_code_injective(b.interest_calculation_method);
    lemma_peel_u64(a.interest_posting_frequency.code_value(), b.interest_posting_frequency.code_value(), ra9, rb9);
    a.interest_posting_frequency.lemma_code_injective(b.interest_posting_frequency);
    lemma_peel_i32(a.dormancy_threshold_days, b.dormancy_threshold_days, ra10, rb10);
    lemma_peel_decimal(a.minimum_opening_balance, b.minimum_opening_balance, ra11, rb11);
    lemma_peel_decimal(a.closure_fee, b.closure_fee, ra12, rb12);
    lemma_peel_opt_decimal(a.maintenance_fee, b.maintenance_fee, ra13, rb13);
    lemma_peel_u64(a.maintenance_fee_frequency.code_value(), b.maintenance_fee_frequency.code_value(), ra14, rb14);
    a.maintenance_fee_frequency.lemma_code_injective(b.maintenance_fee_frequency);
    lemma_peel_opt_i32(a.default_dormancy_days, b.default_dormancy_days, ra15, rb15);
    lemma_peel_opt_decimal(a.default_overdraft_limit, b.default_overdraft_limit, ra16, rb16);
    lemma_peel_opt_decimal(a.per_transaction_limit, b.per_transaction_limit, ra17, rb17);
    lemma_peel_opt_decimal(a.daily_transaction_limit, b.daily_transaction_limit, ra18, rb18);
    lemma_peel_opt_decimal(a.weekly_transaction_limit, b.weekly_transaction_limit, ra19, rb19);
    lemma_peel_opt_decimal(a.monthly_transaction_limit, b.monthly_transaction_limit, ra20, rb20);
    lemma_peel_opt_decimal(a.overdraft_interest_rate, b.overdraft_interest_rate, ra21, rb21);
    lemma_peel_u64(a.accrual_frequency.code_value(), b.accrual_frequency.code_value(), ra22, rb22);
    a.accrual_frequency.lemma_code_injective(b.accrual_frequency);
    lemma_peel_opt_u128(a.interest_rate_tier_1, b.interest_rate_tier_1, ra23, rb23);
    lemma_peel_opt_u128(a.interest_rate_tier_2, b.interest_rate_tier_2, ra24, rb24);
    lemma_peel_opt_u128(a.interest_rate_tier_3, b.interest_rate_tier_3, ra25, rb25);
    lemma_peel_opt_u128(a.interest_rate_tier_4, b.interest_rate_tier_4, ra26, rb26);
    lemma_peel_opt_u128(a.interest_rate_tier_5, b.interest_rate_tier_5, ra27, rb27);
    lemma_peel_u128(a.account_gl_mapping, b.account_gl_mapping, ra28, rb28);
    lemma_peel_u128(a.fee_type_gl_mapping, b.fee_type_gl_mapping, ra29, rb29);
    lemma_peel_bool(a.is_active, b.is_active, ra30, rb30);
    lemma_peel_date(a.valid_from, b.valid_from, ra31, rb31);
    lemma_peel_opt_date(a.valid_to, b.valid_to, ra32, rb32);
    lemma_peel_i64(a.antecedent_hash, b.antecedent_hash, ra33, rb33);
    lemma_peel_u128(a.antecedent_audit_log_id, b.antecedent_audit_log_id, ra34, rb34);
    lemma_peel_i64(a.hash, b.hash, ra35, rb35);
    lemma_peel_opt_u128(a.audit_log_id, b.audit_log_id, e, e);
}

/// The index row of a product carries the product's own values in the
/// columns it keeps, and its id.
pub proof fn law_product_index_row_copies_columns(m: ProductModel)
    ensures
        m.index_value().id == m.id,
        m.index_value().name == m.name,
        m.index_value().product_type == m.product_type,
        m.index_value().minimum_balance == m.minimum_balance,
        m.index_value().maximum_balance == m.maximum_balance,
        m.index_value().overdraft_allowed == m.overdraft_allowed,
        m.index_value().overdraft_limit == m.overdraft_limit,
        m.index_value().interest_calculation_method == m.interest_calculation_method,
        m.index_value().interest_posting_frequency == m.interest_posting_frequency,
        m.index_value().dormancy_threshold_days == m.dormancy_threshold_days,
        m.index_value().minimum_opening_balance == m.minimum_opening_balance,
        m.index_value().closure_fee == m.closure_fee,
        m.index_value().maintenance_fee == m.maintenance_fee,
        m.index_value().maintenance_fee_frequency == m.maintenance_fee_frequency,
        m.index_value().default_dormancy_days == m.default_dormancy_days,
        m.index_value().default_overdraft_limit == m.default_overdraft_limit,
        m.index_value().per_transaction_limit == m.per_transaction_limit,
        m.index_value().daily_transaction_limit == m.daily_transaction_limit,
        m.index_value().weekly_transaction_limit == m.weekly_transaction_limit,
        m.index_value().monthly_transaction_limit == m.monthly_transaction_limit,
        m.index_value().overdraft_interest_rate == m.overdraft_interest_rate,
        m.index_value().accrual_frequency == m.accrual_frequency,
        m.index_value().interest_rate_tier_1 == m.interest_rate_tier_1,
        m.index_value().interest_rate_tier_2 == m.interest_rate_tier_2,
        m.index_value().interest_rate_tier_3 == m.interest_rate_tier_3,
        m.index_value().interest_rate_tier_4 == m.interest_rate_tier_4,
        m.index_value().interest_rate_tier_5 == m.interest_rate_tier_5,
        m.index_value().account_gl_mapping == m.account_gl_mapping,
        m.index_value().fee_type_gl_mapping == m.fee_type_gl_mapping,
        m.index_value().is_active == m.is_active,
        m.index_value().valid_from == m.valid_from,
        m.index_value().valid_to == m.valid_to,
{
}

} // verus!
