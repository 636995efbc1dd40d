//! Fee-type general-ledger mappings and their index rows.

use vstd::prelude::*;
use crate::audit::AuditedModel;
use crate::cache::{IndexKey, IndexModel, Indexed};
use crate::hashing::{
    enc_bool, enc_i32, enc_i64, enc_opt_i32, enc_opt_i64, enc_opt_text, enc_opt_u128, enc_text,
    enc_u128, enc_u64, hash_text, push_bool, push_i32, push_i64, push_opt_i32, push_opt_i64,
    push_opt_text, push_opt_u128, push_text, push_u128, push_u64, text_hash,
};
use crate::ids::Keyed;
use crate::values::{
    copy_opt_text, enc_date, enc_decimal, enc_opt_date, enc_opt_decimal, enc_timestamp, push_date,
    push_decimal, push_opt_date, push_opt_decimal, push_timestamp, CalendarDate, DecimalValue,
    Timestamp,
};
use crate::models::enums::FeeType;

use crate::hashing::{
    lemma_peel_bool, lemma_peel_i32, lemma_peel_i64, lemma_peel_opt_i32, lemma_peel_opt_i64,
    lemma_peel_opt_text, lemma_peel_opt_u128, lemma_peel_text, lemma_peel_u128, lemma_peel_u64,
    opt_text_fits, opt_text_view, text_fits,
};
use crate::values::{
    lemma_peel_date, lemma_peel_decimal, lemma_peel_opt_date, lemma_peel_opt_decimal,
    lemma_peel_timestamp,
};

verus! {

/// The general-ledger code a fee type is booked to, with its audit fields.
#[derive(Debug, PartialEq, Eq)]
pub struct FeeTypeGlMappingModel {
    pub id: u128,
    pub fee_type: FeeType,
    pub gl_code: String,
    pub antecedent_hash: i64,
    pub antecedent_audit_log_id: u128,
    pub hash: i64,
    pub audit_log_id: Option<u128>,
}

impl FeeTypeGlMappingModel {
    /// The canonical encoding of every field, in declaration order.
    pub open spec fn encoding(&self) -> Seq<u64> {
        enc_u128(self.id)
            + enc_u64(self.fee_type.code_value())
            + enc_text(self.gl_code@)
            + enc_i64(self.antecedent_hash)
            + enc_u128(self.antecedent_audit_log_id)
            + enc_i64(self.hash)
            + enc_opt_u128(self.audit_log_id)
    }

    /// Computes `self.encoding()`.
    pub fn encode_fields(&self) -> (w: Vec<u64>)
        ensures
            w@ == self.encoding(),
    {
        let mut w: Vec<u64> = Vec::new();
        push_u128(&mut w, self.id);
        push_u64(&mut w, self.fee_type.code());
        push_text(&mut w, self.gl_code.as_str());
        push_i64(&mut w, self.antecedent_hash);
        push_u128(&mut w, self.antecedent_audit_log_id);
        push_i64(&mut w, self.hash);
        push_opt_u128(&mut w, self.audit_log_id);
        assert(w@ =~= self.encoding());
        w
    }

    /// A field-by-field copy.
    pub fn copy(&self) -> (r: Self)
        ensures
            r == *self,
    {
        FeeTypeGlMappingModel {
            id: self.id,
            fee_type: self.fee_type,
            gl_code: self.gl_code.clone(),
            antecedent_hash: self.antecedent_hash,
            antecedent_audit_log_id: self.antecedent_audit_log_id,
            hash: self.hash,
            audit_log_id: self.audit_log_id,
        }
    }
}

impl Keyed for FeeTypeGlMappingModel {
    open spec fn id_value(&self) -> u128 {
        self.id
    }

    fn id(&self) -> (r: u128) {
        self.id
    }

    fn duplicate(&self) -> (r: Self) {
        self.copy()
    }
}

impl AuditedModel for FeeTypeGlMappingModel {
    open spec fn hash_value(&self) -> i64 {
        self.hash
    }

    open spec fn audit_log_value(&self) -> Option<u128> {
        self.audit_log_id
    }

    open spec fn antecedent_hash_value(&self) -> i64 {
        self.antecedent_hash
    }

    open spec fn antecedent_audit_log_value(&self) -> u128 {
        self.antecedent_audit_log_id
    }

    open spec fn with_audit(
        self,
        antecedent_hash: i64,
        antecedent_audit_log_id: u128,
        hash: i64,
        audit_log_id: Option<u128>,
    ) -> Self {
        FeeTypeGlMappingModel { antecedent_hash, antecedent_audit_log_id, hash, audit_log_id, ..self }
    }

    open spec fn words(&self) -> Seq<u64> {
        self.encoding()
    }

    proof fn lemma_with_audit(
        self,
        antecedent_hash: i64,
        antecedent_audit_log_id: u128,
        hash: i64,
        audit_log_id: Option<u128>,
    ) {
    }

    fn hash(&self) -> (r: i64) {
        self.hash
    }

    fn audit_log_id(&self) -> (r: Option<u128>) {
        self.audit_log_id
    }

    fn antecedent_hash(&self) -> (r: i64) {
        self.antecedent_hash
    }

    fn antecedent_audit_log_id(&self) -> (r: u128) {
        self.antecedent_audit_log_id
    }

    fn set_audit(
        &mut self,
        antecedent_hash: i64,
        antecedent_audit_log_id: u128,
        hash: i64,
        audit_log_id: Option<u128>,
    ) {
        self.antecedent_hash = antecedent_hash;
        self.antecedent_audit_log_id = antecedent_audit_log_id;
        self.hash = hash;
        self.audit_log_id = audit_log_id;
    }

    fn encode(&self) -> (w: Vec<u64>) {
        self.encode_fields()
    }
}

/// The index row of a fee-type GL mapping.
#[derive(Debug, PartialEq, Eq)]
pub struct FeeTypeGlMappingIdxModel {
    pub id: u128,
    pub fee_type: FeeType,
    pub gl_code: String,
}

impl FeeTypeGlMappingIdxModel {
    /// A field-by-field copy.
    pub fn copy(&self) -> (r: Self)
        ensures
            r == *self,
    {
        FeeTypeGlMappingIdxModel {
            id: self.id,
            fee_type: self.fee_type,
            gl_code: self.gl_code.clone(),
        }
    }
}

impl Keyed for FeeTypeGlMappingIdxModel {
    open spec fn id_value(&self) -> u128 {
        self.id
    }

    fn id(&self) -> (r: u128) {
        self.id
    }

    fn duplicate(&self) -> (r: Self) {
        self.copy()
    }
}

impl IndexModel for FeeTypeGlMappingIdxModel {
    open spec fn uuid_key_value(&self, key: IndexKey) -> Option<u128> {
        None
    }

    open spec fn i64_key_value(&self, key: IndexKey) -> Option<i64> {
        None
    }

    fn uuid_key(&self, key: IndexKey) -> (r: Option<u128>) {
        None
    }

    fn i64_key(&self, key: IndexKey) -> (r: Option<i64>) {
        None
    }
}

impl Indexed for FeeTypeGlMappingModel {
    type Idx = FeeTypeGlMappingIdxModel;

    open spec fn index_value(&self) -> FeeTypeGlMappingIdxModel {
        FeeTypeGlMappingIdxModel {
            id: self.id,
            fee_type: self.fee_type,
            gl_code: self.gl_code,
        }
    }

    proof fn lemma_index_id(&self) {
    }

    fn to_index(&self) -> (r: FeeTypeGlMappingIdxModel) {
        let id = self.id;
        let fee_type = self.fee_type;
        let gl_code = self.gl_code.clone();
        FeeTypeGlMappingIdxModel { id, fee_type, gl_code }
    }
}

/// The encoding of a fee-type GL mapping, nested from the right: each field's words
/// followed by the words of the fields after it.
spec fn fee_type_gl_mapping_encoding_nested(m: FeeTypeGlMappingModel) -> Seq<u64> {
    enc_u128(m.id) + (enc_u64(m.fee_type.code_value()) + (enc_text(m.gl_code@) + (enc_i64(m.antecedent_hash) + (enc_u128(m.antecedent_audit_log_id) + (enc_i64(m.hash) + (enc_opt_u128(m.audit_log_id)))))))
}

proof fn lemma_fee_type_gl_mapping_encoding_nested(m: FeeTypeGlMappingModel)
    ensures
        m.encoding() == fee_type_gl_mapping_encoding_nested(m),
{
    let r7 = Seq::<u64>::empty();
    let r6 = enc_opt_u128(m.audit_log_id) + r7;
    let r5 = enc_i64(m.hash) + r6;
    let r4 = enc_u128(m.antecedent_audit_log_id) + r5;
    let r3 = enc_i64(m.antecedent_hash) + r4;
    let r2 = enc_text(m.gl_code@) + r3;
    let r1 = enc_u64(m.fee_type.code_value()) + r2;
    let r0 = enc_u128(m.id) + r1;
    let l1 = enc_u128(m.id);
    let l2 = l1 + enc_u64(m.fee_type.code_value());
    let l3 = l2 + enc_text(m.gl_code@);
    let l4 = l3 + enc_i64(m.antecedent_hash);
    let l5 = l4 + enc_u128(m.antecedent_audit_log_id);
    let l6 = l5 + enc_i64(m.hash);
    let l7 = l6 + enc_opt_u128(m.audit_log_id);
    assert(m.encoding() == l7);
    assert(l7 + r7 =~= l7);
    vstd::seq_lib::lemma_concat_associative(l6, enc_opt_u128(m.audit_log_id), r7);
    vstd::seq_lib::lemma_concat_associative(l5, enc_i64(m.hash), r6);
    vstd::seq_lib::lemma_concat_associative(l4, enc_u128(m.antecedent_audit_log_id), r5);
    vstd::seq_lib::lemma_concat_associative(l3, enc_i64(m.antecedent_hash), r4);
    vstd::seq_lib::lemma_concat_associative(l2, enc_text(m.gl_code@), r3);
    vstd::seq_lib::lemma_concat_associative(l1, enc_u64(m.fee_type.code_value()), r2);
    assert(r6 == enc_opt_u128(m.audit_log_id) + r7);
    assert(enc_opt_u128(m.audit_log_id) + r7 =~= enc_opt_u128(m.audit_log_id));
}

/// Two fee-type GL mapping records with the same word encoding agree on every field,
/// so no field is left out of what the content hash is taken over: a
/// fee-type GL mapping that differs from a sealed one in any field but the audit fields
/// is hashed over different words.
#[verifier::rlimit(50)]
pub proof fn law_fee_type_gl_mapping_encoding_determines_fields(a: FeeTypeGlMappingModel, b: FeeTypeGlMappingModel)
    requires
        text_fits(a.gl_code@),
        text_fits(b.gl_code@),
        a.encoding() == b.encoding(),
    ensures
        a.id == b.id,
        a.fee_type == b.fee_type,
        a.gl_code@ == b.gl_code@,
        a.antecedent_hash == b.antecedent_hash,
        a.antecedent_audit_log_id == b.antecedent_audit_log_id,
        a.hash == b.hash,
        a.audit_log_id == b.audit_log_id,
{
    lemma_fee_type_gl_mapping_encoding_nested(a);
    lemma_fee_type_gl_mapping_encoding_nested(b);
    let ra6 = enc_opt_u128(a.audit_log_id);
    let rb6 = enc_opt_u128(b.audit_log_id);
    let ra5 = enc_i64(a.hash) + ra6;
    let rb5 = enc_i64(b.hash) + rb6;
    let ra4 = enc_u128(a.antecedent_audit_log_id) + ra5;
    let rb4 = enc_u128(b.antecedent_audit_log_id) + rb5;
    let ra3 = enc_i64(a.antecedent_hash) + ra4;
    let rb3 = enc_i64(b.antecedent_hash) + rb4;
    let ra2 = enc_text(a.gl_code@) + ra3;
    let rb2 = enc_text(b.gl_code@) + rb3;
    let ra1 = enc_u64(a.fee_type.code_value()) + ra2;
    let rb1 = enc_u64(b.fee_type.code_value()) + rb2;
    let ra0 = enc_u128(a.id) + ra1;
    let rb0 = enc_u128(b.id) + rb1;
    let e = Seq::<u64>::empty();
    assert(ra6 + e =~= ra6);
    assert(rb6 + e =~= rb6);
    lemma_peel_u128(a.id, b.id, ra1, rb1);
    lemma_peel_u64(a.fee_type.code_value(), b.fee_type.code_value(), ra2, rb2);
    a.fee_type.lemma_code_injective(b.fee_type);
    lemma_peel_text(a.gl_code@, b.gl_code@, ra3, rb3);
    lemma_peel_i64(a.antecedent_hash, b.antecedent_hash, ra4, rb4);
    lemma_peel_u128(a.antecedent_audit_log_id, b.antecedent_audit_log_id, ra5, rb5);
    lemma_peel_i64(a.hash, b.hash, ra6, rb6);
    lemma_peel_opt_u128(a.audit_log_id, b.audit_log_id, e, e);
}

/// The index row of a fee-type GL mapping carries the fee-type GL mapping's own values in the
/// columns it keeps, and its id.
pub proof fn law_fee_type_gl_mapping_index_row_copies_columns(m: FeeTypeGlMappingModel)
    ensures
        m.index_value().id == m.id,
        m.index_value().fee_type == m.fee_type,
        m.index_value().gl_code@ == m.gl_code@,
{
}

} // verus!
