//! Countries, subdivisions, localities, locations and entity references.

use vstd::prelude::*;
use crate::audit::AuditedModel;
use crate::cache::{IndexKey, IndexModel, Indexed};
use crate::hashing::{
    enc_bool, enc_i32, enc_i64, enc_opt_i32, enc_opt_i64, enc_opt_text, enc_opt_u128, enc_text,
    enc_u128, enc_u64, hash_text, push_bool, push_i32, push_i64, push_opt_i32, push_opt_i64,
    push_opt_text, push_opt_u128, push_text, push_u128, push_u64, text_hash,
};
use crate::ids::Keyed;
use crate::values::{
    copy_opt_text, enc_date, enc_decimal, enc_opt_date, enc_opt_decimal, enc_timestamp, push_date,
    push_decimal, push_opt_date, push_opt_decimal, push_timestamp, CalendarDate, DecimalValue,
    Timestamp,
};
use crate::models::enums::{
    FeeType, IdentityType, InterestCalculationMethod, LocationType, MaintenanceFeeFrequency,
    PersonStatus, PersonType, PostingFrequency, ProductAccrualFrequency, ProductType,
    RelationshipRole, RiskRating,
};

use crate::hashing::{
    lemma_peel_bool, lemma_peel_i32, lemma_peel_i64, lemma_peel_opt_i32, lemma_peel_opt_i64,
    lemma_peel_opt_text, lemma_peel_opt_u128, lemma_peel_text, lemma_peel_u128, lemma_peel_u64,
    opt_text_fits, opt_text_view, text_fits,
};
use crate::values::{
    lemma_peel_date, lemma_peel_decimal, lemma_peel_opt_date, lemma_peel_opt_decimal,
    lemma_peel_timestamp,
};

verus! {

/// A country.
#[derive(Debug, PartialEq, Eq)]
pub struct CountryModel {
    pub id: u128,
    pub iso2: String,
    pub name_l1: String,
    pub name_l2: Option<String>,
    pub name_l3: Option<String>,
}

impl CountryModel {
    /// The canonical encoding of every field, in declaration order.
    pub open spec fn encoding(&self) -> Seq<u64> {
        enc_u128(self.id)
            + enc_text(self.iso2@)
            + enc_text(self.name_l1@)
            + enc_opt_text(self.name_l2)
            + enc_opt_text(self.name_l3)
    }

    /// Computes `self.encoding()`.
    pub fn encode_fields(&self) -> (w: Vec<u64>)
        ensures
            w@ == self.encoding(),
    {
        let mut w: Vec<u64> = Vec::new();
        push_u128(&mut w, self.id);
        push_text(&mut w, self.iso2.as_str());
        push_text(&mut w, self.name_l1.as_str());
        push_opt_text(&mut w, &self.name_l2);
        push_opt_text(&mut w, &self.name_l3);
        assert(w@ =~= self.encoding());
        w
    }

    /// A field-by-field copy.
    pub fn copy(&self) -> (r: Self)
        ensures
            r == *self,
    {
        CountryModel {
            id: self.id,
            iso2: self.iso2.clone(),
            name_l1: self.name_l1.clone(),
            name_l2: copy_opt_text(&self.name_l2),
            name_l3: copy_opt_text(&self.name_l3),
        }
    }
}

impl Keyed for CountryModel {
    open spec fn id_value(&self) -> u128 {
        self.id
    }

    fn id(&self) -> (r: u128) {
        self.id
    }

    fn duplicate(&self) -> (r: Self) {
        self.copy()
    }
}

/// A subdivision of a country.
#[derive(Debug, PartialEq, Eq)]
pub struct CountrySubdivisionModel {
    pub id: u128,
    pub country_id: u128,
    pub code: String,
    pub name_l1: String,
    pub name_l2: Option<String>,
    pub name_l3: Option<String>,
}

impl CountrySubdivisionModel {
    /// The canonical encoding of every field, in declaration order.
    pub open spec fn encoding(&self) -> Seq<u64> {
        enc_u128(self.id)
            + enc_u128(self.country_id)
            + enc_text(self.code@)
            + enc_text(self.name_l1@)
            + enc_opt_text(self.name_l2)
            + enc_opt_text(self.name_l3)
    }

    /// Computes `self.encoding()`.
    pub fn encode_fields(&self) -> (w: Vec<u64>)
        ensures
            w@ == self.encoding(),
    {
        let mut w: Vec<u64> = Vec::new();
        push_u128(&mut w, self.id);
        push_u128(&mut w, self.country_id);
        push_text(&mut w, self.code.as_str());
        push_text(&mut w, self.name_l1.as_str());
        push_opt_text(&mut w, &self.name_l2);
        push_opt_text(&mut w, &self.name_l3);
        assert(w@ =~= self.encoding());
        w
    }

    /// A field-by-field copy.
    pub fn copy(&self) -> (r: Self)
        ensures
            r == *self,
    {
        CountrySubdivisionModel {
            id: self.id,
            country_id: self.country_id,
            code: self.code.clone(),
            name_l1: self.name_l1.clone(),
            name_l2: copy_opt_text(&self.name_l2),
            name_l3: copy_opt_text(&self.name_l3),
        }
    }
}

impl Keyed for CountrySubdivisionModel {
    open spec fn id_value(&self) -> u128 {
        self.id
    }

    fn id(&self) -> (r: u128) {
        self.id
    }

    fn duplicate(&self) -> (r: Self) {
        self.copy()
    }
}

/// A locality within a country subdivision.
#[derive(Debug, PartialEq, Eq)]
pub struct LocalityModel {
    pub id: u128,
    pub country_subdivision_id: u128,
    pub code: String,
    pub name_l1: String,
    pub name_l2: Option<String>,
    pub name_l3: Option<String>,
}

impl LocalityModel {
    /// The canonical encoding of every field, in declaration order.
    pub open spec fn encoding(&self) -> Seq<u64> {
        enc_u128(self.id)
            + enc_u128(self.country_subdivision_id)
            + enc_text(self.code@)
            + enc_text(self.name_l1@)
            + enc_opt_text(self.name_l2)
            + enc_opt_text(self.name_l3)
    }

    /// Computes `self.encoding()`.
    pub fn encode_fields(&self) -> (w: Vec<u64>)
        ensures
            w@ == self.encoding(),
    {
        let mut w: Vec<u64> = Vec::new();
        push_u128(&mut w, self.id);
        push_u128(&mut w, self.country_subdivision_id);
        push_text(&mut w, self.code.as_str());
        push_text(&mut w, self.name_l1.as_str());
        push_opt_text(&mut w, &self.name_l2);
        push_opt_text(&mut w, &self.name_l3);
        assert(w@ =~= self.encoding());
        w
    }

    /// A field-by-field copy.
    pub fn copy(&self) -> (r: Self)
        ensures
            r == *self,
    {
        LocalityModel {
            id: self.id,
            country_subdivision_id: self.country_subdivision_id,
            code: self.code.clone(),
            name_l1: self.name_l1.clone(),
            name_l2: copy_opt_text(&self.name_l2),
            name_l3: copy_opt_text(&self.name_l3),
        }
    }
}

impl Keyed for LocalityModel {
    open spec fn id_value(&self) -> u128 {
        self.id
    }

    fn id(&self) -> (r: u128) {
        self.id
    }

    fn duplicate(&self) -> (r: Self) {
        self.copy()
    }
}

/// A street address, with its audit fields.
#[derive(Debug, PartialEq, Eq)]
pub struct LocationModel {
    pub id: u128,
    pub street_line1: String,
    pub street_line2: Option<String>,
    pub street_line3: Option<String>,
    pub street_line4: Option<String>,
    pub locality_id: u128,
    pub postal_code: Option<String>,
    pub latitude: Option<DecimalValue>,
    pub longitude: Option<DecimalValue>,
    pub accuracy_meters: Option<DecimalValue>,
    pub location_type: LocationType,
    pub antecedent_hash: i64,
    pub antecedent_audit_log_id: u128,
    pub hash: i64,
    pub audit_log_id: Option<u128>,
}

impl LocationModel {
    /// The canonical encoding of every field, in declaration order.
    pub open spec fn encoding(&self) -> Seq<u64> {
        enc_u128(self.id)
            + enc_text(self.street_line1@)
            + enc_opt_text(self.street_line2)
            + enc_opt_text(self.street_line3)
            + enc_opt_text(self.street_line4)
            + enc_u128(self.locality_id)
            + enc_opt_text(self.postal_code)
            + enc_opt_decimal(self.latitude)
            + enc_opt_decimal(self.longitude)
            + enc_opt_decimal(self.accuracy_meters)
            + enc_u64(self.location_type.code_value())
            + enc_i64(self.antecedent_hash)
            + enc_u128(self.antecedent_audit_log_id)
            + enc_i64(self.hash)
            + enc_opt_u128(self.audit_log_id)
    }

    /// Computes `self.encoding()`.
    pub fn encode_fields(&self) -> (w: Vec<u64>)
        ensures
            w@ == self.encoding(),
    {
        let mut w: Vec<u64> = Vec::new();
        push_u128(&mut w, self.id);
        push_text(&mut w, self.street_line1.as_str());
        push_opt_text(&mut w, &self.street_line2);
        push_opt_text(&mut w, &self.street_line3);
        push_opt_text(&mut w, &self.street_line4);
        push_u128(&mut w, self.locality_id);
        push_opt_text(&mut w, &self.postal_code);
        push_opt_decimal(&mut w, self.latitude);
        push_opt_decimal(&mut w, self.longitude);
        push_opt_decimal(&mut w, self.accuracy_meters);
        push_u64(&mut w, self.location_type.code());
        push_i64(&mut w, self.antecedent_hash);
        push_u128(&mut w, self.antecedent_audit_log_id);
        push_i64(&mut w, self.hash);
        push_opt_u128(&mut w, self.audit_log_id);
        assert(w@ =~= self.encoding());
        w
    }

    /// A field-by-field copy.
    pub fn copy(&self) -> (r: Self)
        ensures
            r == *self,
    {
        LocationModel {
            id: self.id,
            street_line1: self.street_line1.clone(),
            street_line2: copy_opt_text(&self.street_line2),
            street_line3: copy_opt_text(&self.street_line3),
            street_line4: copy_opt_text(&self.street_line4),
            locality_id: self.locality_id,
            postal_code: copy_opt_text(&self.postal_code),
            latitude: self.latitude,
            longitude: self.longitude,
            accuracy_meters: self.accuracy_meters,
            location_type: self.location_type,
            antecedent_hash: self.antecedent_hash,
            antecedent_audit_log_id: self.antecedent_audit_log_id,
            hash: self.hash,
            audit_log_id: self.audit_log_id,
        }
    }
}

impl Keyed for LocationModel {
    open spec fn id_value(&self) -> u128 {
        self.id
    }

    fn id(&self) -> (r: u128) {
        self.id
    }

    fn duplicate(&self) -> (r: Self) {
        self.copy()
    }
}

impl AuditedModel for LocationModel {
    open spec fn hash_value(&self) -> i64 {
        self.hash
    }

    open spec fn audit_log_value(&self) -> Option<u128> {
        self.audit_log_id
    }

    open spec fn antecedent_hash_value(&self) -> i64 {
        self.antecedent_hash
    }

    open spec fn antecedent_audit_log_value(&self) -> u128 {
        self.antecedent_audit_log_id
    }

    open spec fn with_audit(
        self,
        antecedent_hash: i64,
        antecedent_audit_log_id: u128,
        hash: i64,
        audit_log_id: Option<u128>,
    ) -> Self {
        LocationModel { antecedent_hash, antecedent_audit_log_id, hash, audit_log_id, ..self }
    }

    open spec fn words(&self) -> Seq<u64> {
        self.encoding()
    }

    proof fn lemma_with_audit(
        self,
        antecedent_hash: i64,
        antecedent_audit_log_id: u128,
        hash: i64,
        audit_log_id: Option<u128>,
    ) {
    }

    fn hash(&self) -> (r: i64) {
        self.hash
    }

    fn audit_log_id(&self) -> (r: Option<u128>) {
        self.audit_log_id
    }

    fn antecedent_hash(&self) -> (r: i64) {
        self.antecedent_hash
    }

    fn antecedent_audit_log_id(&self) -> (r: u128) {
        self.antecedent_audit_log_id
    }

    fn set_audit(
        &mut self,
        antecedent_hash: i64,
        antecedent_audit_log_id: u128,
        hash: i64,
        audit_log_id: Option<u128>,
    ) {
        self.antecedent_hash = antecedent_hash;
        self.antecedent_audit_log_id = antecedent_audit_log_id;
        self.hash = hash;
        self.audit_log_id = audit_log_id;
    }

    fn encode(&self) -> (w: Vec<u64>) {
        self.encode_fields()
    }
}

/// A reference from a person to an external entity, with its audit fields.
#[derive(Debug, PartialEq, Eq)]
pub struct EntityReferenceModel {
    pub id: u128,
    pub person_id: u128,
    pub entity_role: RelationshipRole,
    pub reference_external_id: String,
    pub reference_details_l1: Option<String>,
    pub reference_details_l2: Option<String>,
    pub reference_details_l3: Option<String>,
    pub antecedent_hash: i64,
    pub antecedent_audit_log_id: u128,
    pub hash: i64,
    pub audit_log_id: Option<u128>,
}

impl EntityReferenceModel {
    /// The canonical encoding of every field, in declaration order.
    pub open spec fn encoding(&self) -> Seq<u64> {
        enc_u128(self.id)
            + enc_u128(self.person_id)
            + enc_u64(self.entity_role.code_value())
            + enc_text(self.reference_external_id@)
            + enc_opt_text(self.reference_details_l1)
            + enc_opt_text(self.reference_details_l2)
            + enc_opt_text(self.reference_details_l3)
            + enc_i64(self.antecedent_hash)
            + enc_u128(self.antecedent_audit_log_id)
            + enc_i64(self.hash)
            + enc_opt_u128(self.audit_log_id)
    }

    /// Computes `self.encoding()`.
    pub fn encode_fields(&self) -> (w: Vec<u64>)
        ensures
            w@ == self.encoding(),
    {
        let mut w: Vec<u64> = Vec::new();
        push_u128(&mut w, self.id);
        push_u128(&mut w, self.person_id);
        push_u64(&mut w, self.entity_role.code());
        push_text(&mut w, self.reference_external_id.as_str());
        push_opt_text(&mut w, &self.reference_details_l1);
        push_opt_text(&mut w, &self.reference_details_l2);
        push_opt_text(&mut w, &self.reference_details_l3);
        push_i64(&mut w, self.antecedent_hash);
        push_u128(&mut w, self.antecedent_audit_log_id);
        push_i64(&mut w, self.hash);
        push_opt_u128(&mut w, self.audit_log_id);
        assert(w@ =~= self.encoding());
        w
    }

    /// A field-by-field copy.
    pub fn copy(&self) -> (r: Self)
        ensures
            r == *self,
    {
        EntityReferenceModel {
            id: self.id,
            person_id: self.person_id,
            entity_role: self.entity_role,
            reference_external_id: self.reference_external_id.clone(),
            reference_details_l1: copy_opt_text(&self.reference_details_l1),
            reference_details_l2: copy_opt_text(&self.reference_details_l2),
            reference_details_l3: copy_opt_text(&self.reference_details_l3),
            antecedent_hash: self.antecedent_hash,
            antecedent_audit_log_id: self.antecedent_audit_log_id,
            hash: self.hash,
            audit_log_id: self.audit_log_id,
        }
    }
}

impl Keyed for EntityReferenceModel {
    open spec fn id_value(&self) -> u128 {
        self.id
    }

    fn id(&self) -> (r: u128) {
        self.id
    }

    fn duplicate(&self) -> (r: Self) {
        self.copy()
    }
}

impl AuditedModel for EntityReferenceModel {
    open spec fn hash_value(&self) -> i64 {
        self.hash
    }

    open spec fn audit_log_value(&self) -> Option<u128> {
        self.audit_log_id
    }

    open spec fn antecedent_hash_value(&self) -> i64 {
        self.antecedent_hash
    }

    open spec fn antecedent_audit_log_value(&self) -> u128 {
        self.antecedent_audit_log_id
    }

    open spec fn with_audit(
        self,
        antecedent_hash: i64,
        antecedent_audit_log_id: u128,
        hash: i64,
        audit_log_id: Option<u128>,
    ) -> Self {
        EntityReferenceModel { antecedent_hash, antecedent_audit_log_id, hash, audit_log_id, ..self }
    }

    open spec fn words(&self) -> Seq<u64> {
        self.encoding()
    }

    proof fn lemma_with_audit(
        self,
        antecedent_hash: i64,
        antecedent_audit_log_id: u128,
        hash: i64,
        audit_log_id: Option<u128>,
    ) {
    }

    fn hash(&self) -> (r: i64) {
        self.hash
    }

    fn audit_log_id(&self) -> (r: Option<u128>) {
        self.audit_log_id
    }

    fn antecedent_hash(&self) -> (r: i64) {
        self.antecedent_hash
    }

    fn antecedent_audit_log_id(&self) -> (r: u128) {
        self.antecedent_audit_log_id
    }

    fn set_audit(
        &mut self,
        antecedent_hash: i64,
        antecedent_audit_log_id: u128,
        hash: i64,
        audit_log_id: Option<u128>,
    ) {
        self.antecedent_hash = antecedent_hash;
        self.antecedent_audit_log_id = antecedent_audit_log_id;
        self.hash = hash;
        self.audit_log_id = audit_log_id;
    }

    fn encode(&self) -> (w: Vec<u64>) {
        self.encode_fields()
    }
}

/// The encoding of a location, nested from the right: each field's words
/// followed by the words of the fields after it.
spec fn location_encoding_nested(m: LocationModel) -> Seq<u64> {
    enc_u128(m.id) + (enc_text(m.street_line1@) + (enc_opt_text(m.street_line2) + (enc_opt_text(m.street_line3) + (enc_opt_text(m.street_line4) + (enc_u128(m.locality_id) + (enc_opt_text(m.postal_code) + (enc_opt_decimal(m.latitude) + (enc_opt_decimal(m.longitude) + (enc_opt_decimal(m.accuracy_meters) + (enc_u64(m.location_type.code_value()) + (enc_i64(m.antecedent_hash) + (enc_u128(m.antecedent_audit_log_id) + (enc_i64(m.hash) + (enc_opt_u128(m.audit_log_id)))))))))))))))
}

proof fn lemma_location_encoding_nested(m: LocationModel)
    ensures
        m.encoding() == location_encoding_nested(m),
{
    let r15 = Seq::<u64>::empty();
    let r14 = enc_opt_u128(m.audit_log_id) + r15;
    let r13 = enc_i64(m.hash) + r14;
    let r12 = enc_u128(m.antecedent_audit_log_id) + r13;
    let r11 = enc_i64(m.antecedent_hash) + r12;
    let r10 = enc_u64(m.location_type.code_value()) + r11;
    let r9 = enc_opt_decimal(m.accuracy_meters) + r10;
    let r8 = enc_opt_decimal(m.longitude) + r9;
    let r7 = enc_opt_decimal(m.latitude) + r8;
    let r6 = enc_opt_text(m.postal_code) + r7;
    let r5 = enc_u128(m.locality_id) + r6;
    let r4 = enc_opt_text(m.street_line4) + r5;
    let r3 = enc_opt_text(m.street_line3) + r4;
    let r2 = enc_opt_text(m.street_line2) + r3;
    let r1 = enc_text(m.street_line1@) + r2;
    let r0 = enc_u128(m.id) + r1;
    let l1 = enc_u128(m.id);
    let l2 = l1 + enc_text(m.street_line1@);
    let l3 = l2 + enc_opt_text(m.street_line2);
    let l4 = l3 + enc_opt_text(m.street_line3);
    let l5 = l4 + enc_opt_text(m.street_line4);
    let l6 = l5 + enc_u128(m.locality_id);
    let l7 = l6 + enc_opt_text(m.postal_code);
    let l8 = l7 + enc_opt_decimal(m.latitude);
    let l9 = l8 + enc_opt_decimal(m.longitude);
    let l10 = l9 + enc_opt_decimal(m.accuracy_meters);
    let l11 = l10 + enc_u64(m.location_type.code_value());
    let l12 = l11 + enc_i64(m.antecedent_hash);
    let l13 = l12 + enc_u128(m.antecedent_audit_log_id);
    let l14 = l13 + enc_i64(m.hash);
    let l15 = l14 + enc_opt_u128(m.audit_log_id);
    assert(m.encoding() == l15);
    assert(l15 + r15 =~= l15);
    vstd::seq_lib::lemma_concat_associative(l14, enc_opt_u128(m.audit_log_id), r15);
    vstd::seq_lib::lemma_concat_associative(l13, enc_i64(m.hash), r14);
    vstd::seq_lib::lemma_concat_associative(l12, enc_u128(m.antecedent_audit_log_id), r13);
    vstd::seq_lib::lemma_concat_associative(l11, enc_i64(m.antecedent_hash), r12);
    vstd::seq_lib::lemma_concat_associative(l10, enc_u64(m.location_type.code_value()), r11);
    vstd::seq_lib::lemma_concat_associative(l9, enc_opt_decimal(m.accuracy_meters), r10);
    vstd::seq_lib::lemma_concat_associative(l8, enc_opt_decimal(m.longitude), r9);
    vstd::seq_lib::lemma_concat_associative(l7, enc_opt_decimal(m.latitude), r8);
    vstd::seq_lib::lemma_concat_associative(l6, enc_opt_text(m.postal_code), r7);
    vstd::seq_lib::lemma_concat_associative(l5, enc_u128(m.locality_id), r6);
    vstd::seq_lib::lemma_concat_associative(l4, enc_opt_text(m.street_line4), r5);
    vstd::seq_lib::lemma_concat_associative(l3, enc_opt_text(m.street_line3), r4);
    vstd::seq_lib::lemma_concat_associative(l2, enc_opt_text(m.street_line2), r3);
    vstd::seq_lib::lemma_concat_associative(l1, enc_text(m.street_line1@), r2);
    assert(r14 == enc_opt_u128(m.audit_log_id) + r15);
    assert(enc_opt_u128(m.audit_log_id) + r15 =~= enc_opt_u128(m.audit_log_id));
}

/// Two location records with the same word encoding agree on every field,
/// so no field is left out of what the content hash is taken over: a
/// location that differs from a sealed one in any field but the audit fields
/// is hashed over different words.
#[verifier::rlimit(50)]
pub proof fn law_location_encoding_determines_fields(a: LocationModel, b: LocationModel)
    requires
        text_fits(a.street_line1@),
        text_fits(b.street_line1@),
        opt_text_fits(a.street_line2),
        opt_text_fits(b.street_line2),
        opt_text_fits(a.street_line3),
        opt_text_fits(b.street_line3),
        opt_text_fits(a.street_line4),
        opt_text_fits(b.street_line4),
        opt_text_fits(a.postal_code),
        opt_text_fits(b.postal_code),
        a.encoding() == b.encoding(),
    ensures
        a.id == b.id,
        a.street_line1@ == b.street_line1@,
        opt_text_view(a.street_line2) == opt_text_view(b.street_line2),
        opt_text_view(a.street_line3) == opt_text_view(b.street_line3),
        opt_text_view(a.street_line4) == opt_text_view(b.street_line4),
        a.locality_id == b.locality_id,
        opt_text_view(a.postal_code) == opt_text_view(b.postal_code),
        a.latitude == b.latitude,
        a.longitude == b.longitude,
        a.accuracy_meters == b.accuracy_meters,
        a.location_type == b.location_type,
        a.antecedent_hash == b.antecedent_hash,
        a.antecedent_audit_log_id == b.antecedent_audit_log_id,
        a.hash == b.hash,
        a.audit_log_id == b.audit_log_id,
{
    lemma_location_encoding_nested(a);
    lemma_location_encoding_nested(b);
    let ra14 = enc_opt_u128(a.audit_log_id);
    let rb14 = enc_opt_u128(b.audit_log_id);
    let ra13 = enc_i64(a.hash) + ra14;
    let rb13 = enc_i64(b.hash) + rb14;
    let ra12 = enc_u128(a.antecedent_audit_log_id) + ra13;
    let rb12 = enc_u128(b.antecedent_audit_log_id) + rb13;
    let ra11 = enc_i64(a.antecedent_hash) + ra12;
    let rb11 = enc_i64(b.antecedent_hash) + rb12;
    let ra10 = enc_u64(a.location_type.code_value()) + ra11;
    let rb10 = enc_u64(b.location_type.code_value()) + rb11;
    let ra9 = enc_opt_decimal(a.accuracy_meters) + ra10;
    let rb9 = enc_opt_decimal(b.accuracy_meters) + rb10;
    let ra8 = enc_opt_decimal(a.longitude) + ra9;
    let rb8 = enc_opt_decimal(b.longitude) + rb9;
    let ra7 = enc_opt_decimal(a.latitude) + ra8;
    let rb7 = enc_opt_decimal(b.latitude) + rb8;
    let ra6 = enc_opt_text(a.postal_code) + ra7;
    let rb6 = enc_opt_text(b.postal_code) + rb7;
    let ra5 = enc_u128(a.locality_id) + ra6;
    let rb5 = enc_u128(b.locality_id) + rb6;
    let ra4 = enc_opt_text(a.street_line4) + ra5;
    let rb4 = enc_opt_text(b.street_line4) + rb5;
    let ra3 = enc_opt_text(a.street_line3) + ra4;
    let rb3 = enc_opt_text(b.street_line3) + rb4;
    let ra2 = enc_opt_text(a.street_line2) + ra3;
    let rb2 = enc_opt_text(b.street_line2) + rb3;
    let ra1 = enc_text(a.street_line1@) + ra2;
    let rb1 = enc_text(b.street_line1@) + rb2;
    let ra0 = enc_u128(a.id) + ra1;
    let rb0 = enc_u128(b.id) + rb1;
    let e = Seq::<u64>::empty();
    assert(ra14 + e =~= ra14);
    assert(rb14 + e =~= rb14);
    lemma_peel_u128(a.id, b.id, ra1, rb1);
    lemma_peel_text(a.street_line1@, b.street_line1@, ra2, rb2);
    lemma_peel_opt_text(a.street_line2, b.street_line2, ra3, rb3);
    lemma_peel_opt_text(a.street_line3, b.street_line3, ra4, rb4);
    lemma_peel_opt_text(a.street_line4, b.street_line4, ra5, rb5);
    lemma_peel_u128(a.locality_id, b.locality_id, ra6, rb6);
    lemma_peel_opt_text(a.postal_code, b.postal_code, ra7, rb7);
    lemma_peel_opt_decimal(a.latitude, b.latitude, ra8, rb8);
    lemma_peel_opt_decimal(a.longitude, b.longitude, ra9, rb9);
    lemma_peel_opt_decimal(a.accuracy_meters, b.accuracy_meters, ra10, rb10);
    lemma_peel_u64(a.location_type.code_value(), b.location_type.code_value(), ra11, rb11);
    a.location_type.lemma_code_injective(b.location_type);
    lemma_peel_i64(a.antecedent_hash, b.antecedent_hash, ra12, rb12);
    lemma_peel_u128(a.antecedent_audit_log_id, b.antecedent_audit_log_id, ra13, rb13);
    lemma_peel_i64(a.hash, b.hash, ra14, rb14);
    lemma_peel_opt_u128(a.audit_log_id, b.audit_log_id, e, e);
}

/// The encoding of a entity reference, nested from the right: each field's words
/// followed by the words of the fields after it.
spec fn entity_reference_encoding_nested(m: EntityReferenceModel) -> Seq<u64> {
    enc_u128(m.id) + (enc_u128(m.person_id) + (enc_u64(m.entity_role.code_value()) + (enc_text(m.reference_external_id@) + (enc_opt_text(m.reference_details_l1) + (enc_opt_text(m.reference_details_l2) + (enc_opt_text(m.reference_details_l3) + (enc_i64(m.antecedent_hash) + (enc_u128(m.antecedent_audit_log_id) + (enc_i64(m.hash) + (enc_opt_u128(m.audit_log_id)))))))))))
}

proof fn lemma_entity_reference_encoding_nested(m: EntityReferenceModel)
    ensures
        m.encoding() == entity_reference_encoding_nested(m),
{
    let r11 = Seq::<u64>::empty();
    let r10 = enc_opt_u128(m.audit_log_id) + r11;
    let r9 = enc_i64(m.hash) + r10;
    let r8 = enc_u128(m.antecedent_audit_log_id) + r9;
    let r7 = enc_i64(m.antecedent_hash) + r8;
    let r6 = enc_opt_text(m.reference_details_l3) + r7;
    let r5 = enc_opt_text(m.reference_details_l2) + r6;
    let r4 = enc_opt_text(m.reference_details_l1) + r5;
    let r3 = enc_text(m.reference_external_id@) + r4;
    let r2 = enc_u64(m.entity_role.code_value()) + r3;
    let r1 = enc_u128(m.person_id) + r2;
    let r0 = enc_u128(m.id) + r1;
    let l1 = enc_u128(m.id);
    let l2 = l1 + enc_u128(m.person_id);
    let l3 = l2 + enc_u64(m.entity_role.code_value());
    let l4 = l3 + enc_text(m.reference_external_id@);
    let l5 = l4 + enc_opt_text(m.reference_details_l1);
    let l6 = l5 + enc_opt_text(m.reference_details_l2);
    let l7 = l6 + enc_opt_text(m.reference_details_l3);
    let l8 = l7 + enc_i64(m.antecedent_hash);
    let l9 = l8 + enc_u128(m.antecedent_audit_log_id);
    let l10 = l9 + enc_i64(m.hash);
    let l11 = l10 + enc_opt_u128(m.audit_log_id);
    assert(m.encoding() == l11);
    assert(l11 + r11 =~= l11);
    vstd::seq_lib::lemma_concat_associative(l10, enc_opt_u128(m.audit_log_id), r11);
    vstd::seq_lib::lemma_concat_associative(l9, enc_i64(m.hash), r10);
    vstd::seq_lib::lemma_concat_associative(l8, enc_u128(m.antecedent_audit_log_id), r9);
    vstd::seq_lib::lemma_concat_associative(l7, enc_i64(m.antecedent_hash), r8);
    vstd::seq_lib::lemma_concat_associative(l6, enc_opt_text(m.reference_details_l3), r7);
    vstd::seq_lib::lemma_concat_associative(l5, enc_opt_text(m.reference_details_l2), r6);
    vstd::seq_lib::lemma_concat_associative(l4, enc_opt_text(m.reference_details_l1), r5);
    vstd::seq_lib::lemma_concat_associative(l3, enc_text(m.reference_external_id@), r4);
    vstd::seq_lib::lemma_concat_associative(l2, enc_u64(m.entity_role.code_value()), r3);
    vstd::seq_lib::lemma_concat_associative(l1, enc_u128(m.person_id), r2);
    assert(r10 == enc_opt_u128(m.audit_log_id) + r11);
    assert(enc_opt_u128(m.audit_log_id) + r11 =~= enc_opt_u128(m.audit_log_id));
}

/// Two entity reference records with the same word encoding agree on every field,
/// so no field is left out of what the content hash is taken over: a
/// entity reference that differs from a sealed one in any field but the audit fields
/// is hashed over different words.
#[verifier::rlimit(50)]
pub proof fn law_entity_reference_encoding_determines_fields(a: EntityReferenceModel, b: EntityReferenceModel)
    requires
        text_fits(a.reference_external_id@),
        text_fits(b.reference_external_id@),
        opt_text_fits(a.reference_details_l1),
        opt_text_fits(b.reference_details_l1),
        opt_text_fits(a.reference_details_l2),
        opt_text_fits(b.reference_details_l2),
        opt_text_fits(a.reference_details_l3),
        opt_text_fits(b.reference_details_l3),
        a.encoding() == b.encoding(),
    ensures
        a.id == b.id,
        a.person_id == b.person_id,
        a.entity_role == b.entity_role,
        a.reference_external_id@ == b.reference_external_id@,
        opt_text_view(a.reference_details_l1) == opt_text_view(b.reference_details_l1),
        opt_text_view(a.reference_details_l2) == opt_text_view(b.reference_details_l2),
        opt_text_view(a.reference_details_l3) == opt_text_view(b.reference_details_l3),
        a.antecedent_hash == b.antecedent_hash,
        a.antecedent_audit_log_id == b.antecedent_audit_log_id,
        a.hash == b.hash,
        a.audit_log_id == b.audit_log_id,
{
    lemma_entity_reference_encoding_nested(a);
    lemma_entity_reference_encoding_nested(b);
    let ra10 = enc_opt_u128(a.audit_log_id);
    let rb10 = enc_opt_u128(b.audit_log_id);
    let ra9 = enc_i64(a.hash) + ra10;
    let rb9 = enc_i64(b.hash) + rb10;
    let ra8 = enc_u128(a.antecedent_audit_log_id) + ra9;
    let rb8 = enc_u128(b.antecedent_audit_log_id) + rb9;
    let ra7 = enc_i64(a.antecedent_hash) + ra8;
    let rb7 = enc_i64(b.antecedent_hash) + rb8;
    let ra6 = enc_opt_text(a.reference_details_l3) + ra7;
    let rb6 = enc_opt_text(b.reference_details_l3) + rb7;
    let ra5 = enc_opt_text(a.reference_details_l2) + ra6;
    let rb5 = enc_opt_text(b.reference_details_l2) + rb6;
    let ra4 = enc_opt_text(a.reference_details_l1) + ra5;
    let rb4 = enc_opt_text(b.reference_details_l1) + rb5;
    let ra3 = enc_text(a.reference_external_id@) + ra4;
    let rb3 = enc_text(b.reference_external_id@) + rb4;
    let ra2 = enc_u64(a.entity_role.code_value()) + ra3;
    let rb2 = enc_u64(b.entity_role.code_value()) + rb3;
    let ra1 = enc_u128(a.person_id) + ra2;
    let rb1 = enc_u128(b.person_id) + rb2;
    let ra0 = enc_u128(a.id) + ra1;
    let rb0 = enc_u128(b.id) + rb1;
    let e = Seq::<u64>::empty();
    assert(ra10 + e =~= ra10);
    assert(rb10 + e =~= rb10);
    lemma_peel_u128(a.id, b.id, ra1, rb1);
    lemma_peel_u128(a.person_id, b.person_id, ra2, rb2);
    lemma_peel_u64(a.entity_role.code_value(), b.entity_role.code_value(), ra3, rb3);
    a.entity_role.lemma_code_injective(b.entity_role);
    lemma_peel_text(a.reference_external_id@, b.reference_external_id@, ra4, rb4);
    lemma_peel_opt_text(a.reference_details_l1, b.reference_details_l1, ra5, rb5);
    lemma_peel_opt_text(a.reference_details_l2, b.reference_details_l2, ra6, rb6);
    lemma_peel_opt_text(a.reference_details_l3, b.reference_details_l3, ra7, rb7);
    lemma_peel_i64(a.antecedent_hash, b.antecedent_hash, ra8, rb8);
    lemma_peel_u128(a.antecedent_audit_log_id, b.antecedent_audit_log_id, ra9, rb9);
    lemma_peel_i64(a.hash, b.hash, ra10, rb10);
    lemma_peel_opt_u128(a.audit_log_id, b.audit_log_id, e, e);
}

} // verus!
