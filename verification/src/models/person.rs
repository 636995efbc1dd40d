//! Person records and their index rows.

use vstd::prelude::*;
use crate::audit::AuditedModel;
use crate::cache::{IndexKey, IndexModel, Indexed};
use crate::hashing::{
    enc_bool, enc_i32, enc_i64, enc_opt_i32, enc_opt_i64, enc_opt_text, enc_opt_u128, enc_text,
    enc_u128, enc_u64, hash_text, push_bool, push_i32, push_i64, push_opt_i32, push_opt_i64,
    push_opt_text, push_opt_u128, push_text, push_u128, push_u64, text_hash,
};
use crate::ids::Keyed;
use crate::values::{
    copy_opt_text, enc_date, enc_decimal, enc_opt_date, enc_opt_decimal, enc_timestamp, push_date,
    push_decimal, push_opt_date, push_opt_decimal, push_timestamp, CalendarDate, DecimalValue,
    Timestamp,
};
use crate::models::enums::{
    FeeType, IdentityType, InterestCalculationMethod, LocationType, MaintenanceFeeFrequency,
    PersonStatus, PersonType, PostingFrequency, ProductAccrualFrequency, ProductType,
    RelationshipRole, RiskRating,
};

use crate::hashing::{
    lemma_peel_bool, lemma_peel_i32, lemma_peel_i64, lemma_peel_opt_i32, lemma_peel_opt_i64,
    lemma_peel_opt_text, lemma_peel_opt_u128, lemma_peel_text, lemma_peel_u128, lemma_peel_u64,
    opt_text_fits, opt_text_view, text_fits,
};
use crate::values::{
    lemma_peel_date, lemma_peel_decimal, lemma_peel_opt_date, lemma_peel_opt_decimal,
    lemma_peel_timestamp,
};

verus! {

/// A person (natural or legal) with its audit fields.
#[derive(Debug, PartialEq, Eq)]
pub struct PersonModel {
    pub id: u128,
    pub person_type: PersonType,
    pub risk_rating: RiskRating,
    pub status: PersonStatus,
    pub display_name: String,
    pub external_identifier: Option<String>,
    pub id_type: IdentityType,
    pub id_number: String,
    pub entity_reference_count: i32,
    pub organization_person_id: Option<u128>,
    pub messaging_info1: Option<String>,
    pub messaging_info2: Option<String>,
    pub messaging_info3: Option<String>,
    pub messaging_info4: Option<String>,
    pub messaging_info5: Option<String>,
    pub department: Option<String>,
    pub location_id: Option<u128>,
    pub duplicate_of_person_id: Option<u128>,
    pub last_activity_log: Option<u128>,
    pub last_compliance_status: Option<u128>,
    pub last_document: Option<u128>,
    pub last_portfolio: Option<u128>,
    pub antecedent_hash: i64,
    pub antecedent_audit_log_id: u128,
    pub hash: i64,
    pub audit_log_id: Option<u128>,
}

impl PersonModel {
    /// The canonical encoding of every field, in declaration order.
    pub open spec fn encoding(&self) -> Seq<u64> {
        enc_u128(self.id)
            + enc_u64(self.person_type.code_value())
            + enc_u64(self.risk_rating.code_value())
            + enc_u64(self.status.code_value())
            + enc_text(self.display_name@)
            + enc_opt_text(self.external_identifier)
            + enc_u64(self.id_type.code_value())
            + enc_text(self.id_number@)
            + enc_i32(self.entity_reference_count)
            + enc_opt_u128(self.organization_person_id)
            + enc_opt_text(self.messaging_info1)
            + enc_opt_text(self.messaging_info2)
            + enc_opt_text(self.messaging_info3)
            + enc_opt_text(self.messaging_info4)
            + enc_opt_text(self.messaging_info5)
            + enc_opt_text(self.department)
            + enc_opt_u128(self.location_id)
            + enc_opt_u128(self.duplicate_of_person_id)
            + enc_opt_u128(self.last_activity_log)
            + enc_opt_u128(self.last_compliance_status)
            + enc_opt_u128(self.last_document)
            + enc_opt_u128(self.last_portfolio)
            + enc_i64(self.antecedent_hash)
            + enc_u128(self.antecedent_audit_log_id)
            + enc_i64(self.hash)
            + enc_opt_u128(self.audit_log_id)
    }

    /// Computes `self.encoding()`.
    pub fn encode_fields(&self) -> (w: Vec<u64>)
        ensures
            w@ == self.encoding(),
    {
        let mut w: Vec<u64> = Vec::new();
        push_u128(&mut w, self.id);
        push_u64(&mut w, self.person_type.code());
        push_u64(&mut w, self.risk_rating.code());
        push_u64(&mut w, self.status.code());
        push_text(&mut w, self.display_name.as_str());
        push_opt_text(&mut w, &self.external_identifier);
        push_u64(&mut w, self.id_type.code());
        push_text(&mut w, self.id_number.as_str());
        push_i32(&mut w, self.entity_reference_count);
        push_opt_u128(&mut w, self.organization_person_id);
        push_opt_text(&mut w, &self.messaging_info1);
        push_opt_text(&mut w, &self.messaging_info2);
        push_opt_text(&mut w, &self.messaging_info3);
        push_opt_text(&mut w, &self.messaging_info4);
        push_opt_text(&mut w, &self.messaging_info5);
        push_opt_text(&mut w, &self.department);
        push_opt_u128(&mut w, self.location_id);
        push_opt_u128(&mut w, self.duplicate_of_person_id);
        push_opt_u128(&mut w, self.last_activity_log);
        push_opt_u128(&mut w, self.last_compliance_status);
        push_opt_u128(&mut w, self.last_document);
        push_opt_u128(&mut w, self.last_portfolio);
        push_i64(&mut w, self.antecedent_hash);
        push_u128(&mut w, self.antecedent_audit_log_id);
        push_i64(&mut w, self.hash);
        push_opt_u128(&mut w, self.audit_log_id);
        assert(w@ =~= self.encoding());
        w
    }

    /// A field-by-field copy.
    pub fn copy(&self) -> (r: Self)
        ensures
            r == *self,
    {
        PersonModel {
            id: self.id,
            person_type: self.person_type,
            risk_rating: self.risk_rating,
            status: self.status,
            display_name: self.display_name.clone(),
            external_identifier: copy_opt_text(&self.external_identifier),
            id_type: self.id_type,
            id_number: self.id_number.clone(),
            entity_reference_count: self.entity_reference_count,
            organization_person_id: self.organization_person_id,
            messaging_info1: copy_opt_text(&self.messaging_info1),
            messaging_info2: copy_opt_text(&self.messaging_info2),
            messaging_info3: copy_opt_text(&self.messaging_info3),
            messaging_info4: copy_opt_text(&self.messaging_info4),
            messaging_info5: copy_opt_text(&self.messaging_info5),
            department: copy_opt_text(&self.department),
            location_id: self.location_id,
            duplicate_of_person_id: self.duplicate_of_person_id,
            last_activity_log: self.last_activity_log,
            last_compliance_status: self.last_compliance_status,
            last_document: self.last_document,
            last_portfolio: self.last_portfolio,
            antecedent_hash: self.antecedent_hash,
            antecedent_audit_log_id: self.antecedent_audit_log_id,
            hash: self.hash,
            audit_log_id: self.audit_log_id,
        }
    }
}

impl Keyed for PersonModel {
    open spec fn id_value(&self) -> u128 {
        self.id
    }

    fn id(&self) -> (r: u128) {
        self.id
    }

    fn duplicate(&self) -> (r: Self) {
        self.copy()
    }
}

impl AuditedModel for PersonModel {
    open spec fn hash_value(&self) -> i64 {
        self.hash
    }

    open spec fn audit_log_value(&self) -> Option<u128> {
        self.audit_log_id
    }

    open spec fn antecedent_hash_value(&self) -> i64 {
        self.antecedent_hash
    }

    open spec fn antecedent_audit_log_value(&self) -> u128 {
        self.antecedent_audit_log_id
    }

    open spec fn with_audit(
        self,
        antecedent_hash: i64,
        antecedent_audit_log_id: u128,
        hash: i64,
        audit_log_id: Option<u128>,
    ) -> Self {
        PersonModel { antecedent_hash, antecedent_audit_log_id, hash, audit_log_id, ..self }
    }

    open spec fn words(&self) -> Seq<u64> {
        self.encoding()
    }

    proof fn lemma_with_audit(
        self,
        antecedent_hash: i64,
        antecedent_audit_log_id: u128,
        hash: i64,
        audit_log_id: Option<u128>,
    ) {
    }

    fn hash(&self) -> (r: i64) {
        self.hash
    }

    fn audit_log_id(&self) -> (r: Option<u128>) {
        self.audit_log_id
    }

    fn antecedent_hash(&self) -> (r: i64) {
        self.antecedent_hash
    }

    fn antecedent_audit_log_id(&self) -> (r: u128) {
        self.antecedent_audit_log_id
    }

    fn set_audit(
        &mut self,
        antecedent_hash: i64,
        antecedent_audit_log_id: u128,
        hash: i64,
        audit_log_id: Option<u128>,
    ) {
        self.antecedent_hash = antecedent_hash;
        self.antecedent_audit_log_id = antecedent_audit_log_id;
        self.hash = hash;
        self.audit_log_id = audit_log_id;
    }

    fn encode(&self) -> (w: Vec<u64>) {
        self.encode_fields()
    }
}

/// The index row of a person: the columns person lookups go by.
#[derive(Debug, PartialEq, Eq)]
pub struct PersonIdxModel {
    pub id: u128,
    pub external_identifier_hash: Option<i64>,
    pub organization_person_id: Option<u128>,
    pub duplicate_of_person_id: Option<u128>,
    pub id_number_hash: Option<i64>,
}

impl PersonIdxModel {
    /// A field-by-field copy.
    pub fn copy(&self) -> (r: Self)
        ensures
            r == *self,
    {
        PersonIdxModel {
            id: self.id,
            external_identifier_hash: self.external_identifier_hash,
            organization_person_id: self.organization_person_id,
            duplicate_of_person_id: self.duplicate_of_person_id,
            id_number_hash: self.id_number_hash,
        }
    }
}

impl Keyed for PersonIdxModel {
    open spec fn id_value(&self) -> u128 {
        self.id
    }

    fn id(&self) -> (r: u128) {
        self.id
    }

    fn duplicate(&self) -> (r: Self) {
        self.copy()
    }
}

impl IndexModel for PersonIdxModel {
    open spec fn uuid_key_value(&self, key: IndexKey) -> Option<u128> {
        match key {
            IndexKey::OrganizationPersonId => self.organization_person_id,
            IndexKey::DuplicateOfPersonId => self.duplicate_of_person_id,
            _ => None,
        }
    }

    open spec fn i64_key_value(&self, key: IndexKey) -> Option<i64> {
        match key {
            IndexKey::ExternalIdentifierHash => self.external_identifier_hash,
            IndexKey::IdNumberHash => self.id_number_hash,
            _ => None,
        }
    }

    fn uuid_key(&self, key: IndexKey) -> (r: Option<u128>) {
        match key {
            IndexKey::OrganizationPersonId => self.organization_person_id,
            IndexKey::DuplicateOfPersonId => self.duplicate_of_person_id,
            _ => None,
        }
    }

    fn i64_key(&self, key: IndexKey) -> (r: Option<i64>) {
        match key {
            IndexKey::ExternalIdentifierHash => self.external_identifier_hash,
            IndexKey::IdNumberHash => self.id_number_hash,
            _ => None,
        }
    }
}

impl Indexed for PersonModel {
    type Idx = PersonIdxModel;

    open spec fn index_value(&self) -> PersonIdxModel {
        PersonIdxModel {
            id: self.id,
            external_identifier_hash: match self.external_identifier { Some(s) => Some(text_hash(s@)), None => None },
            organization_person_id: self.organization_person_id,
            duplicate_of_person_id: self.duplicate_of_person_id,
            id_number_hash: Some(text_hash(self.id_number@)),
        }
    }

    proof fn lemma_index_id(&self) {
    }

    fn to_index(&self) -> (r: PersonIdxModel) {
        let id = self.id;
        let external_identifier_hash = match &self.external_identifier {
            Some(s) => Some(hash_text(s.as_str())),
            None => None,
        };
        let organization_person_id = self.organization_person_id;
        let duplicate_of_person_id = self.duplicate_of_person_id;
        let id_number_hash = Some(hash_text(self.id_number.as_str()));
        PersonIdxModel { id, external_identifier_hash, organization_person_id, duplicate_of_person_id, id_number_hash }
    }
}

/// The encoding of a person, nested from the right: each field's words
/// followed by the words of the fields after it.
spec fn person_encoding_nested(m: PersonModel) -> Seq<u64> {
    enc_u128(m.id) + (enc_u64(m.person_type.code_value()) + (enc_u64(m.risk_rating.code_value()) + (enc_u64(m.status.code_value()) + (enc_text(m.display_name@) + (enc_opt_text(m.external_identifier) + (enc_u64(m.id_type.code_value()) + (enc_text(m.id_number@) + (enc_i32(m.entity_reference_count) + (enc_opt_u128(m.organization_person_id) + (enc_opt_text(m.messaging_info1) + (enc_opt_text(m.messaging_info2) + (enc_opt_text(m.messaging_info3) + (enc_opt_text(m.messaging_info4) + (enc_opt_text(m.messaging_info5) + (enc_opt_text(m.department) + (enc_opt_u128(m.location_id) + (enc_opt_u128(m.duplicate_of_person_id) + (enc_opt_u128(m.last_activity_log) + (enc_opt_u128(m.last_compliance_status) + (enc_opt_u128(m.last_document) + (enc_opt_u128(m.last_portfolio) + (enc_i64(m.antecedent_hash) + (enc_u128(m.antecedent_audit_log_id) + (enc_i64(m.hash) + (enc_opt_u128(m.audit_log_id))))))))))))))))))))))))))
}

proof fn lemma_person_encoding_nested(m: PersonModel)
    ensures
        m.encoding() == person_encoding_nested(m),
{
    let r26 = Seq::<u64>::empty();
    let r25 = enc_opt_u128(m.audit_log_id) + r26;
    let r24 = enc_i64(m.hash) + r25;
    let r23 = enc_u128(m.antecedent_audit_log_id) + r24;
    let r22 = enc_i64(m.antecedent_hash) + r23;
    let r21 = enc_opt_u128(m.last_portfolio) + r22;
    let r20 = enc_opt_u128(m.last_document) + r21;
    let r19 = enc_opt_u128(m.last_compliance_status) + r20;
    let r18 = enc_opt_u128(m.last_activity_log) + r19;
    let r17 = enc_opt_u128(m.duplicate_of_person_id) + r18;
    let r16 = enc_opt_u128(m.location_id) + r17;
    let r15 = enc_opt_text(m.department) + r16;
    let r14 = enc_opt_text(m.messaging_info5) + r15;
    let r13 = enc_opt_text(m.messaging_info4) + r14;
    let r12 = enc_opt_text(m.messaging_info3) + r13;
    let r11 = enc_opt_text(m.messaging_info2) + r12;
    let r10 = enc_opt_text(m.messaging_info1) + r11;
    let r9 = enc_opt_u128(m.organization_person_id) + r10;
    let r8 = enc_i32(m.entity_reference_count) + r9;
    let r7 = enc_text(m.id_number@) + r8;
    let r6 = enc_u64(m.id_type.code_value()) + r7;
    let r5 = enc_opt_text(m.external_identifier) + r6;
    let r4 = enc_text(m.display_name@) + r5;
    let r3 = enc_u64(m.status.code_value()) + r4;
    let r2 = enc_u64(m.risk_rating.code_value()) + r3;
    let r1 = enc_u64(m.person_type.code_value()) + r2;
    let r0 = enc_u128(m.id) + r1;
    let l1 = enc_u128(m.id);
    let l2 = l1 + enc_u64(m.person_type.code_value());
    let l3 = l2 + enc_u64(m.risk_rating.code_value());
    let l4 = l3 + enc_u64(m.status.code_value());
    let l5 = l4 + enc_text(m.display_name@);
    let l6 = l5 + enc_opt_text(m.external_identifier);
    let l7 = l6 + enc_u64(m.id_type.code_value());
    let l8 = l7 + enc_text(m.id_number@);
    let l9 = l8 + enc_i32(m.entity_reference_count);
    let l10 = l9 + enc_opt_u128(m.organization_person_id);
    let l11 = l10 + enc_opt_text(m.messaging_info1);
    let l12 = l11 + enc_opt_text(m.messaging_info2);
    let l13 = l12 + enc_opt_text(m.messaging_info3);
    let l14 = l13 + enc_opt_text(m.messaging_info4);
    let l15 = l14 + enc_opt_text(m.messaging_info5);
    let l16 = l15 + enc_opt_text(m.department);
    let l17 = l16 + enc_opt_u128(m.location_id);
    let l18 = l17 + enc_opt_u128(m.duplicate_of_person_id);
    let l19 = l18 + enc_opt_u128(m.last_activity_log);
    let l20 = l19 + enc_opt_u128(m.last_compliance_status);
    let l21 = l20 + enc_opt_u128(m.last_document);
    let l22 = l21 + enc_opt_u128(m.last_portfolio);
    let l23 = l22 + enc_i64(m.antecedent_hash);
    let l24 = l23 + enc_u128(m.antecedent_audit_log_id);
    let l25 = l24 + enc_i64(m.hash);
    let l26 = l25 + enc_opt_u128(m.audit_log_id);
    assert(m.encoding() == l26);
    assert(l26 + r26 =~= l26);
    vstd::seq_lib::lemma_concat_associative(l25, enc_opt_u128(m.audit_log_id), r26);
    vstd::seq_lib::lemma_concat_associative(l24, enc_i64(m.hash), r25);
    vstd::seq_lib::lemma_concat_associative(l23, enc_u128(m.antecedent_audit_log_id), r24);
    vstd::seq_lib::lemma_concat_associative(l22, enc_i64(m.antecedent_hash), r23);
    vstd::seq_lib::lemma_concat_associative(l21, enc_opt_u128(m.last_portfolio), r22);
    vstd::seq_lib::lemma_concat_associative(l20, enc_opt_u128(m.last_document), r21);
    vstd::seq_lib::lemma_concat_associative(l19, enc_opt_u128(m.last_compliance_status), r20);
    vstd::seq_lib::lemma_concat_associative(l18, enc_opt_u128(m.last_activity_log), r19);
    vstd::seq_lib::lemma_concat_associative(l17, enc_opt_u128(m.duplicate_of_person_id), r18);
    vstd::seq_lib::lemma_concat_associative(l16, enc_opt_u128(m.location_id), r17);
    vstd::seq_lib::lemma_concat_associative(l15, enc_opt_text(m.department), r16);
    vstd::seq_lib::lemma_concat_associative(l14, enc_opt_text(m.messaging_info5), r15);
    vstd::seq_lib::lemma_concat_associative(l13, enc_opt_text(m.messaging_info4), r14);
    vstd::seq_lib::lemma_concat_associative(l12, enc_opt_text(m.messaging_info3), r13);
    vstd::seq_lib::lemma_concat_associative(l11, enc_opt_text(m.messaging_info2), r12);
    vstd::seq_lib::lemma_concat_associative(l10, enc_opt_text(m.messaging_info1), r11);
    vstd::seq_lib::lemma_concat_associative(l9, enc_opt_u128(m.organization_person_id), r10);
    vstd::seq_lib::lemma_concat_associative(l8, enc_i32(m.entity_reference_count), r9);
    vstd::seq_lib::lemma_concat_associative(l7, enc_text(m.id_number@), r8);
    vstd::seq_lib::lemma_concat_associative(l6, enc_u64(m.id_type.code_value()), r7);
    vstd::seq_lib::lemma_concat_associative(l5, enc_opt_text(m.external_identifier), r6);
    vstd::seq_lib::lemma_concat_associative(l4, enc_text(m.display_name@), r5);
    vstd::seq_lib::lemma_concat_associative(l3, enc_u64(m.status.code_value()), r4);
    vstd::seq_lib::lemma_concat_associative(l2, enc_u64(m.risk_rating.code_value()), r3);
    vstd::seq_lib::lemma_concat_associative(l1, enc_u64(m.person_type.code_value()), r2);
    assert(r25 == enc_opt_u128(m.audit_log_id) + r26);
    assert(enc_opt_u128(m.audit_log_id) + r26 =~= enc_opt_u128(m.audit_log_id));
}

/// Two person records with the same word encoding agree on every field,
/// so no field is left out of what the content hash is taken over: a
/// person that differs from a sealed one in any field but the audit fields
/// is hashed over different words.
#[verifier::rlimit(50)]
pub proof fn law_person_encoding_determines_fields(a: PersonModel, b: PersonModel)
    requires
        text_fits(a.display_name@),
        text_fits(b.display_name@),
        opt_text_fits(a.external_identifier),
        opt_text_fits(b.external_identifier),
        text_fits(a.id_number@),
        text_fits(b.id_number@),
        opt_text_fits(a.messaging_info1),
        opt_text_fits(b.messaging_info1),
        opt_text_fits(a.messaging_info2),
        opt_text_fits(b.messaging_info2),
        opt_text_fits(a.messaging_info3),
        opt_text_fits(b.messaging_info3),
        opt_text_fits(a.messaging_info4),
        opt_text_fits(b.messaging_info4),
        opt_text_fits(a.messaging_info5),
        opt_text_fits(b.messaging_info5),
        opt_text_fits(a.department),
        opt_text_fits(b.department),
        a.encoding() == b.encoding(),
    ensures
        a.id == b.id,
        a.person_type == b.person_type,
        a.risk_rating == b.risk_rating,
        a.status == b.status,
        a.display_name@ == b.display_name@,
        opt_text_view(a.external_identifier) == opt_text_view(b.external_identifier),
        a.id_type == b.id_type,
        a.id_number@ == b.id_number@,
        a.entity_reference_count == b.entity_reference_count,
        a.organization_person_id == b.organization_person_id,
        opt_text_view(a.messaging_info1) == opt_text_view(b.messaging_info1),
        opt_text_view(a.messaging_info2) == opt_text_view(b.messaging_info2),
        opt_text_view(a.messaging_info3) == opt_text_view(b.messaging_info3),
        opt_text_view(a.messaging_info4) == opt_text_view(b.messaging_info4),
        opt_text_view(a.messaging_info5) == opt_text_view(b.messaging_info5),
        opt_text_view(a.department) == opt_text_view(b.department),
        a.location_id == b.location_id,
        a.duplicate_of_person_id == b.duplicate_of_person_id,
        a.last_activity_log == b.last_activity_log,
        a.last_compliance_status == b.last_compliance_status,
        a.last_document == b.last_document,
        a.last_portfolio == b.last_portfolio,
        a.antecedent_hash == b.antecedent_hash,
        a.antecedent_audit_log_id == b.antecedent_audit_log_id,
        a.hash == b.hash,
        a.audit_log_id == b.audit_log_id,
{
    lemma_person_encoding_nested(a);
    lemma_person_encoding_nested(b);
    let ra25 = enc_opt_u128(a.audit_log_id);
    let rb25 = enc_opt_u128(b.audit_log_id);
    let ra24 = enc_i64(a.hash) + ra25;
    let rb24 = enc_i64(b.hash) + rb25;
    let ra23 = enc_u128(a.antecedent_audit_log_id) + ra24;
    let rb23 = enc_u128(b.antecedent_audit_log_id) + rb24;
    let ra22 = enc_i64(a.antecedent_hash) + ra23;
    let rb22 = enc_i64(b.antecedent_hash) + rb23;
    let ra21 = enc_opt_u128(a.last_portfolio) + ra22;
    let rb21 = enc_opt_u128(b.last_portfolio) + rb22;
    let ra20 = enc_opt_u128(a.last_document) + ra21;
    let rb20 = enc_opt_u128(b.last_document) + rb21;
    let ra19 = enc_opt_u128(a.last_compliance_status) + ra20;
    let rb19 = enc_opt_u128(b.last_compliance_status) + rb20;
    let ra18 = enc_opt_u128(a.last_activity_log) + ra19;
    let rb18 = enc_opt_u128(b.last_activity_log) + rb19;
    let ra17 = enc_opt_u128(a.duplicate_of_person_id) + ra18;
    let rb17 = enc_opt_u128(b.duplicate_of_person_id) + rb18;
    let ra16 = enc_opt_u128(a.location_id) + ra17;
    let rb16 = enc_opt_u128(b.location_id) + rb17;
    let ra15 = enc_opt_text(a.department) + ra16;
    let rb15 = enc_opt_text(b.department) + rb16;
    let ra14 = enc_opt_text(a.messaging_info5) + ra15;
    let rb14 = enc_opt_text(b.messaging_info5) + rb15;
    let ra13 = enc_opt_text(a.messaging_info4) + ra14;
    let rb13 = enc_opt_text(b.messaging_info4) + rb14;
    let ra12 = enc_opt_text(a.messaging_info3) + ra13;
    let rb12 = enc_opt_text(b.messaging_info3) + rb13;
    let ra11 = enc_opt_text(a.messaging_info2) + ra12;
    let rb11 = enc_opt_text(b.messaging_info2) + rb12;
    let ra10 = enc_opt_text(a.messaging_info1) + ra11;
    let rb10 = enc_opt_text(b.messaging_info1) + rb11;
    let ra9 = enc_opt_u128(a.organization_person_id) + ra10;
    let rb9 = enc_opt_u128(b.organization_person_id) + rb10;
    let ra8 = enc_i32(a.entity_reference_count) + ra9;
    let rb8 = enc_i32(b.entity_reference_count) + rb9;
    let ra7 = enc_text(a.id_number@) + ra8;
    let rb7 = enc_text(b.id_number@) + rb8;
    let ra6 = enc_u64(a.id_type.code_value()) + ra7;
    let rb6 = enc_u64(b.id_type.code_value()) + rb7;
    let ra5 = enc_opt_text(a.external_identifier) + ra6;
    let rb5 = enc_opt_text(b.external_identifier) + rb6;
    let ra4 = enc_text(a.display_name@) + ra5;
    let rb4 = enc_text(b.display_name@) + rb5;
    let ra3 = enc_u64(a.status.code_value()) + ra4;
    let rb3 = enc_u64(b.status.code_value()) + rb4;
    let ra2 = enc_u64(a.risk_rating.code_value()) + ra3;
    let rb2 = enc_u64(b.risk_rating.code_value()) + rb3;
    let ra1 = enc_u64(a.person_type.code_value()) + ra2;
    let rb1 = enc_u64(b.person_type.code_value()) + rb2;
    let ra0 = enc_u128(a.id) + ra1;
    let rb0 = enc_u128(b.id) + rb1;
    let e = Seq::<u64>::empty();
    assert(ra25 + e =~= ra25);
    assert(rb25 + e =~= rb25);
    lemma_peel_u128(a.id, b.id, ra1, rb1);
    lemma_peel_u64(a.person_type.code_value(), b.person_type.code_value(), ra2, rb2);
    a.person_type.lemma_code_injective(b.person_type);
    lemma_peel_u64(a.risk_rating.code_value(), b.risk_rating.code_value(), ra3, rb3);
    a.risk_rating.lemma_code_injective(b.risk_rating);
    lemma_peel_u64(a.status.code_value(), b.status.code_value(), ra4, rb4);
    a.status.lemma_code_injective(b.status);
    lemma_peel_text(a.display_name@, b.display_name@, ra5, rb5);
    lemma_peel_opt_text(a.external_identifier, b.external_identifier, ra6, rb6);
    lemma_peel_u64(a.id_type.code_value(), b.id_type.code_value(), ra7, rb7);
    a.id_type.lemma_code_injective(b.id_type);
    lemma_peel_text(a.id_number@, b.id_number@, ra8, rb8);
    lemma_peel_i32(a.entity_reference_count, b.entity_reference_count, ra9, rb9);
    lemma_peel_opt_u128(a.organization_person_id, b.organization_person_id, ra10, rb10);
    lemma_peel_opt_text(a.messaging_info1, b.messaging_info1, ra11, rb11);
    lemma_peel_opt_text(a.messaging_info2, b.messaging_info2, ra12, rb12);
    lemma_peel_opt_text(a.messaging_info3, b.messaging_info3, ra13, rb13);
    lemma_peel_opt_text(a.messaging_info4, b.messaging_info4, ra14, rb14);
    lemma_peel_opt_text(a.messaging_info5, b.messaging_info5, ra15, rb15);
    lemma_peel_opt_text(a.department, b.department, ra16, rb16);
    lemma_peel_opt_u128(a.location_id, b.location_id, ra17, rb17);
    lemma_peel_opt_u128(a.duplicate_of_person_id, b.duplicate_of_person_id, ra18, rb18);
    lemma_peel_opt_u128(a.last_activity_log, b.last_activity_log, ra19, rb19);
    lemma_peel_opt_u128(a.last_compliance_status, b.last_compliance_status, ra20, rb20);
    lemma_peel_opt_u128(a.last_document, b.last_document, ra21, rb21);
    lemma_peel_opt_u128(a.last_portfolio, b.last_portfolio, ra22, rb22);
    lemma_peel_i64(a.antecedent_hash, b.antecedent_hash, ra23, rb23);
    lemma_peel_u128(a.antecedent_audit_log_id, b.antecedent_audit_log_id, ra24, rb24);
    lemma_peel_i64(a.hash, b.hash, ra25, rb25);
    lemma_peel_opt_u128(a.audit_log_id, b.audit_log_id, e, e);
}

/// The index row of a person carries the person's own values in the
/// columns it keeps, and its id.
pub proof fn law_person_index_row_copies_columns(m: PersonModel)
    ensures
        m.index_value().id == m.id,
        m.index_value().organization_person_id == m.organization_person_id,
        m.index_value().duplicate_of_person_id == m.duplicate_of_person_id,
        m.external_identifier is None ==> m.index_value().external_identifier_hash is None,
        m.external_identifier matches Some(s) ==> m.index_value().external_identifier_hash == Some(text_hash(s@)),
        m.index_value().id_number_hash == Some(text_hash(m.id_number@)),
{
}

} // verus!
