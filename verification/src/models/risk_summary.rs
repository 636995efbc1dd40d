//! Risk summaries and their index rows.

use vstd::prelude::*;
use crate::audit::AuditedModel;
use crate::cache::{IndexKey, IndexModel, Indexed};
use crate::hashing::{
    enc_bool, enc_i32, enc_i64, enc_opt_i32, enc_opt_i64, enc_opt_text, enc_opt_u128, enc_text,
    enc_u128, enc_u64, hash_text, push_bool, push_i32, push_i64, push_opt_i32, push_opt_i64,
    push_opt_text, push_opt_u128, push_text, push_u128, push_u64, text_hash,
};
use crate::ids::Keyed;
use crate::values::{
    copy_opt_text, enc_date, enc_decimal, enc_opt_date, enc_opt_decimal, enc_timestamp, push_date,
    push_decimal, push_opt_date, push_opt_decimal, push_timestamp, CalendarDate, DecimalValue,
    Timestamp,
};
use crate::models::enums::{
    FeeType, IdentityType, InterestCalculationMethod, LocationType, MaintenanceFeeFrequency,
    PersonStatus, PersonType, PostingFrequency, ProductAccrualFrequency, ProductType,
    RelationshipRole, RiskRating,
};

verus! {

/// The current risk assessment of a person.
#[derive(Debug, PartialEq, Eq)]
pub struct RiskSummaryModel {
    pub id: u128,
    pub person_id: u128,
    pub current_rating: RiskRating,
    pub last_assessment_date: Timestamp,
    pub flags_01: String,
    pub flags_02: String,
    pub flags_03: String,
    pub flags_04: String,
    pub flags_05: String,
}

impl RiskSummaryModel {
    /// The canonical encoding of every field, in declaration order.
    pub open spec fn encoding(&self) -> Seq<u64> {
        enc_u128(self.id)
            + enc_u128(self.person_id)
            + enc_u64(self.current_rating.code_value())
            + enc_timestamp(self.last_assessment_date)
            + enc_text(self.flags_01@)
            + enc_text(self.flags_02@)
            + enc_text(self.flags_03@)
            + enc_text(self.flags_04@)
            + enc_text(self.flags_05@)
    }

    /// Computes `self.encoding()`.
    pub fn encode_fields(&self) -> (w: Vec<u64>)
        ensures
            w@ == self.encoding(),
    {
        let mut w: Vec<u64> = Vec::new();
        push_u128(&mut w, self.id);
        push_u128(&mut w, self.person_id);
        push_u64(&mut w, self.current_rating.code());
        push_timestamp(&mut w, self.last_assessment_date);
        push_text(&mut w, self.flags_01.as_str());
        push_text(&mut w, self.flags_02.as_str());
        push_text(&mut w, self.flags_03.as_str());
        push_text(&mut w, self.flags_04.as_str());
        push_text(&mut w, self.flags_05.as_str());
        assert(w@ =~= self.encoding());
        w
    }

    /// A field-by-field copy.
    pub fn copy(&self) -> (r: Self)
        ensures
            r == *self,
    {
        RiskSummaryModel {
            id: self.id,
            person_id: self.person_id,
            current_rating: self.current_rating,
            last_assessment_date: self.last_assessment_date,
            flags_01: self.flags_01.clone(),
            flags_02: self.flags_02.clone(),
            flags_03: self.flags_03.clone(),
            flags_04: self.flags_04.clone(),
            flags_05: self.flags_05.clone(),
        }
    }
}

impl Keyed for RiskSummaryModel {
    open spec fn id_value(&self) -> u128 {
        self.id
    }

    fn id(&self) -> (r: u128) {
        self.id
    }

    fn duplicate(&self) -> (r: Self) {
        self.copy()
    }
}

/// The index row of a risk summary.
#[derive(Debug, PartialEq, Eq)]
pub struct RiskSummaryIdxModel {
    pub id: u128,
    pub person_id: u128,
}

impl RiskSummaryIdxModel {
    /// A field-by-field copy.
    pub fn copy(&self) -> (r: Self)
        ensures
            r == *self,
    {
        RiskSummaryIdxModel {
            id: self.id,
            person_id: self.person_id,
        }
    }
}

impl Keyed for RiskSummaryIdxModel {
    open spec fn id_value(&self) -> u128 {
        self.id
    }

    fn id(&self) -> (r: u128) {
        self.id
    }

    fn duplicate(&self) -> (r: Self) {
        self.copy()
    }
}

impl IndexModel for RiskSummaryIdxModel {
    open spec fn uuid_key_value(&self, key: IndexKey) -> Option<u128> {
        match key {
            IndexKey::PersonId => Some(self.person_id),
            _ => None,
        }
    }

    open spec fn i64_key_value(&self, key: IndexKey) -> Option<i64> {
        None
    }

    fn uuid_key(&self, key: IndexKey) -> (r: Option<u128>) {
        match key {
            IndexKey::PersonId => Some(self.person_id),
            _ => None,
        }
    }

    fn i64_key(&self, key: IndexKey) -> (r: Option<i64>) {
        None
    }
}

impl Indexed for RiskSummaryModel {
    type Idx = RiskSummaryIdxModel;

    open spec fn index_value(&self) -> RiskSummaryIdxModel {
        RiskSummaryIdxModel {
            id: self.id,
            person_id: self.person_id,
        }
    }

    proof fn lemma_index_id(&self) {
    }

    fn to_index(&self) -> (r: RiskSummaryIdxModel) {
        let id = self.id;
        let person_id = self.person_id;
        RiskSummaryIdxModel { id, person_id }
    }
}

/// The index row of a risk summary carries the risk summary's own values in the
/// columns it keeps, and its id.
pub proof fn law_risk_summary_index_row_copies_columns(m: RiskSummaryModel)
    ensures
        m.index_value().id == m.id,
        m.index_value().person_id == m.person_id,
{
}

} // verus!
