//! Interest rate tiers and their index rows.

use vstd::prelude::*;
use crate::audit::AuditedModel;
use crate::cache::{IndexKey, IndexModel, Indexed};
use crate::hashing::{
    enc_bool, enc_i32, enc_i64, enc_opt_i32, enc_opt_i64, enc_opt_text, enc_opt_u128, enc_text,
    enc_u128, enc_u64, hash_text, push_bool, push_i32, push_i64, push_opt_i32, push_opt_i64,
    push_opt_text, push_opt_u128, push_text, push_u128, push_u64, text_hash,
};
use crate::ids::Keyed;
use crate::values::{
    copy_opt_text, enc_date, enc_decimal, enc_opt_date, enc_opt_decimal, enc_timestamp, push_date,
    push_decimal, push_opt_date, push_opt_decimal, push_timestamp, CalendarDate, DecimalValue,
    Timestamp,
};

use crate::hashing::{
    lemma_peel_bool, lemma_peel_i32, lemma_peel_i64, lemma_peel_opt_i32, lemma_peel_opt_i64,
    lemma_peel_opt_text, lemma_peel_opt_u128, lemma_peel_text, lemma_peel_u128, lemma_peel_u64,
    opt_text_fits, opt_text_view, text_fits,
};
use crate::values::{
    lemma_peel_date, lemma_peel_decimal, lemma_peel_opt_date, lemma_peel_opt_decimal,
    lemma_peel_timestamp,
};

verus! {

/// A balance band and the interest rate that applies in it, with its audit fields.
#[derive(Debug, PartialEq, Eq)]
pub struct InterestRateTierModel {
    pub id: u128,
    pub name: u128,
    pub minimum_balance: DecimalValue,
    pub maximum_balance: Option<DecimalValue>,
    pub interest_rate: DecimalValue,
    pub antecedent_hash: i64,
    pub antecedent_audit_log_id: u128,
    pub hash: i64,
    pub audit_log_id: Option<u128>,
}

impl InterestRateTierModel {
    /// The canonical encoding of every field, in declaration order.
    pub open spec fn encoding(&self) -> Seq<u64> {
        enc_u128(self.id)
            + enc_u128(self.name)
            + enc_decimal(self.minimum_balance)
            + enc_opt_decimal(self.maximum_balance)
            + enc_decimal(self.interest_rate)
            + enc_i64(self.antecedent_hash)
            + enc_u128(self.antecedent_audit_log_id)
            + enc_i64(self.hash)
            + enc_opt_u128(self.audit_log_id)
    }

    /// Computes `self.encoding()`.
    pub fn encode_fields(&self) -> (w: Vec<u64>)
        ensures
            w@ == self.encoding(),
    {
        let mut w: Vec<u64> = Vec::new();
        push_u128(&mut w, self.id);
        push_u128(&mut w, self.name);
        push_decimal(&mut w, self.minimum_balance);
        push_opt_decimal(&mut w, self.maximum_balance);
        push_decimal(&mut w, self.interest_rate);
        push_i64(&mut w, self.antecedent_hash);
        push_u128(&mut w, self.antecedent_audit_log_id);
        push_i64(&mut w, self.hash);
        push_opt_u128(&mut w, self.audit_log_id);
        assert(w@ =~= self.encoding());
        w
    }

    /// A field-by-field copy.
    pub fn copy(&self) -> (r: Self)
        ensures
            r == *self,
    {
        InterestRateTierModel {
            id: self.id,
            name: self.name,
            minimum_balance: self.minimum_balance,
            maximum_balance: self.maximum_balance,
            interest_rate: self.interest_rate,
            antecedent_hash: self.antecedent_hash,
            antecedent_audit_log_id: self.antecedent_audit_log_id,
            hash: self.hash,
            audit_log_id: self.audit_log_id,
        }
    }
}

impl Keyed for InterestRateTierModel {
    open spec fn id_value(&self) -> u128 {
        self.id
    }

    fn id(&self) -> (r: u128) {
        self.id
    }

    fn duplicate(&self) -> (r: Self) {
        self.copy()
    }
}

impl AuditedModel for InterestRateTierModel {
    open spec fn hash_value(&self) -> i64 {
        self.hash
    }

    open spec fn audit_log_value(&self) -> Option<u128> {
        self.audit_log_id
    }

    open spec fn antecedent_hash_value(&self) -> i64 {
        self.antecedent_hash
    }

    open spec fn antecedent_audit_log_value(&self) -> u128 {
        self.antecedent_audit_log_id
    }

    open spec fn with_audit(
        self,
        antecedent_hash: i64,
        antecedent_audit_log_id: u128,
        hash: i64,
        audit_log_id: Option<u128>,
    ) -> Self {
        InterestRateTierModel { antecedent_hash, antecedent_audit_log_id, hash, audit_log_id, ..self }
    }

    open spec fn words(&self) -> Seq<u64> {
        self.encoding()
    }

    proof fn lemma_with_audit(
        self,
        antecedent_hash: i64,
        antecedent_audit_log_id: u128,
        hash: i64,
        audit_log_id: Option<u128>,
    ) {
    }

    fn hash(&self) -> (r: i64) {
        self.hash
    }

    fn audit_log_id(&self) -> (r: Option<u128>) {
        self.audit_log_id
    }

    fn antecedent_hash(&self) -> (r: i64) {
        self.antecedent_hash
    }

    fn antecedent_audit_log_id(&self) -> (r: u128) {
        self.antecedent_audit_log_id
    }

    fn set_audit(
        &mut self,
        antecedent_hash: i64,
        antecedent_audit_log_id: u128,
        hash: i64,
        audit_log_id: Option<u128>,
    ) {
        self.antecedent_hash = antecedent_hash;
        self.antecedent_audit_log_id = antecedent_audit_log_id;
        self.hash = hash;
        self.audit_log_id = audit_log_id;
    }

    fn encode(&self) -> (w: Vec<u64>) {
        self.encode_fields()
    }
}

/// The index row of an interest rate tier.
#[derive(Debug, PartialEq, Eq)]
pub struct InterestRateTierIdxModel {
    pub id: u128,
    pub name: u128,
    pub minimum_balance: DecimalValue,
    pub maximum_balance: Option<DecimalValue>,
    pub interest_rate: DecimalValue,
}

impl InterestRateTierIdxModel {
    /// A field-by-field copy.
    pub fn copy(&self) -> (r: Self)
        ensures
            r == *self,
    {
        InterestRateTierIdxModel {
            id: self.id,
            name: self.name,
            minimum_balance: self.minimum_balance,
            maximum_balance: self.maximum_balance,
            interest_rate: self.interest_rate,
        }
    }
}

impl Keyed for InterestRateTierIdxModel {
    open spec fn id_value(&self) -> u128 {
        self.id
    }

    fn id(&self) -> (r: u128) {
        self.id
    }

    fn duplicate(&self) -> (r: Self) {
        self.copy()
    }
}

impl IndexModel for InterestRateTierIdxModel {
    open spec fn uuid_key_value(&self, key: IndexKey) -> Option<u128> {
        None
    }

    open spec fn i64_key_value(&self, key: IndexKey) -> Option<i64> {
        None
    }

    fn uuid_key(&self, key: IndexKey) -> (r: Option<u128>) {
        None
    }

    fn i64_key(&self, key: IndexKey) -> (r: Option<i64>) {
        None
    }
}

impl Indexed for InterestRateTierModel {
    type Idx = InterestRateTierIdxModel;

    open spec fn index_value(&self) -> InterestRateTierIdxModel {
        InterestRateTierIdxModel {
            id: self.id,
            name: self.name,
            minimum_balance: self.minimum_balance,
            maximum_balance: self.maximum_balance,
            interest_rate: self.interest_rate,
        }
    }

    proof fn lemma_index_id(&self) {
    }

    fn to_index(&self) -> (r: InterestRateTierIdxModel) {
        let id = self.id;
        let name = self.name;
        let minimum_balance = self.minimum_balance;
        let maximum_balance = self.maximum_balance;
        let interest_rate = self.interest_rate;
        InterestRateTierIdxModel { id, name, minimum_balance, maximum_balance, interest_rate }
    }
}

/// The encoding of a interest rate tier, nested from the right: each field's words
/// followed by the words of the fields after it.
spec fn interest_rate_tier_encoding_nested(m: InterestRateTierModel) -> Seq<u64> {
    enc_u128(m.id) + (enc_u128(m.name) + (enc_decimal(m.minimum_balance) + (enc_opt_decimal(m.maximum_balance) + (enc_decimal(m.interest_rate) + (enc_i64(m.antecedent_hash) + (enc_u128(m.antecedent_audit_log_id) + (enc_i64(m.hash) + (enc_opt_u128(m.audit_log_id)))))))))
}

proof fn lemma_interest_rate_tier_encoding_nested(m: InterestRateTierModel)
    ensures
        m.encoding() == interest_rate_tier_encoding_nested(m),
{
    let r9 = Seq::<u64>::empty();
    let r8 = enc_opt_u128(m.audit_log_id) + r9;
    let r7 = enc_i64(m.hash) + r8;
    let r6 = enc_u128(m.antecedent_audit_log_id) + r7;
    let r5 = enc_i64(m.antecedent_hash) + r6;
    let r4 = enc_decimal(m.interest_rate) + r5;
    let r3 = enc_opt_decimal(m.maximum_balance) + r4;
    let r2 = enc_decimal(m.minimum_balance) + r3;
    let r1 = enc_u128(m.name) + r2;
    let r0 = enc_u128(m.id) + r1;
    let l1 = enc_u128(m.id);
    let l2 = l1 + enc_u128(m.name);
    let l3 = l2 + enc_decimal(m.minimum_balance);
    let l4 = l3 + enc_opt_decimal(m.maximum_balance);
    let l5 = l4 + enc_decimal(m.interest_rate);
    let l6 = l5 + enc_i64(m.antecedent_hash);
    let l7 = l6 + enc_u128(m.antecedent_audit_log_id);
    let l8 = l7 + enc_i64(m.hash);
    let l9 = l8 + enc_opt_u128(m.audit_log_id);
    assert(m.encoding() == l9);
    assert(l9 + r9 =~= l9);
    vstd::seq_lib::lemma_concat_associative(l8, enc_opt_u128(m.audit_log_id), r9);
    vstd::seq_lib::lemma_concat_associative(l7, enc_i64(m.hash), r8);
    vstd::seq_lib::lemma_concat_associative(l6, enc_u128(m.antecedent_audit_log_id), r7);
    vstd::seq_lib::lemma_concat_associative(l5, enc_i64(m.antecedent_hash), r6);
    vstd::seq_lib::lemma_concat_associative(l4, enc_decimal(m.interest_rate), r5);
    vstd::seq_lib::lemma_concat_associative(l3, enc_opt_decimal(m.maximum_balance), r4);
    vstd::seq_lib::lemma_concat_associative(l2, enc_decimal(m.minimum_balance), r3);
    vstd::seq_lib::lemma_concat_associative(l1, enc_u128(m.name), r2);
    assert(r8 == enc_opt_u128(m.audit_log_id) + r9);
    assert(enc_opt_u128(m.audit_log_id) + r9 =~= enc_opt_u128(m.audit_log_id));
}

/// Two interest rate tier records with the same word encoding agree on every field,
/// so no field is left out of what the content hash is taken over: a
/// interest rate tier that differs from a sealed one in any field but the audit fields
/// is hashed over different words.
#[verifier::rlimit(50)]
pub proof fn law_interest_rate_tier_encoding_determines_fields(a: InterestRateTierModel, b: InterestRateTierModel)
    requires
        a.encoding() == b.encoding(),
    ensures
        a.id == b.id,
        a.name == b.name,
        a.minimum_balance == b.minimum_balance,
        a.maximum_balance == b.maximum_balance,
        a.interest_rate == b.interest_rate,
        a.antecedent_hash == b.antecedent_hash,
        a.antecedent_audit_log_id == b.antecedent_audit_log_id,
        a.hash == b.hash,
        a.audit_log_id == b.audit_log_id,
{
    lemma_interest_rate_tier_encoding_nested(a);
    lemma_interest_rate_tier_encoding_nested(b);
    let ra8 = enc_opt_u128(a.audit_log_id);
    let rb8 = enc_opt_u128(b.audit_log_id);
    let ra7 = enc_i64(a.hash) + ra8;
    let rb7 = enc_i64(b.hash) + rb8;
    let ra6 = enc_u128(a.antecedent_audit_log_id) + ra7;
    let rb6 = enc_u128(b.antecedent_audit_log_id) + rb7;
    let ra5 = enc_i64(a.antecedent_hash) + ra6;
    let rb5 = enc_i64(b.antecedent_hash) + rb6;
    let ra4 = enc_decimal(a.interest_rate) + ra5;
    let rb4 = enc_decimal(b.interest_rate) + rb5;
    let ra3 = enc_opt_decimal(a.maximum_balance) + ra4;
    let rb3 = enc_opt_decimal(b.maximum_balance) + rb4;
    let ra2 = enc_decimal(a.minimum_balance) + ra3;
    let rb2 = enc_decimal(b.minimum_balance) + rb3;
    let ra1 = enc_u128(a.name) + ra2;
    let rb1 = enc_u128(b.name) + rb2;
    let ra0 = enc_u128(a.id) + ra1;
    let rb0 = enc_u128(b.id) + rb1;
    let e = Seq::<u64>::empty();
    assert(ra8 + e =~= ra8);
    assert(rb8 + e =~= rb8);
    lemma_peel_u128(a.id, b.id, ra1, rb1);
    lemma_peel_u128(a.name, b.name, ra2, rb2);
    lemma_peel_decimal(a.minimum_balance, b.minimum_balance, ra3, rb3);
    lemma_peel_opt_decimal(a.maximum_balance, b.maximum_balance, ra4, rb4);
    lemma_peel_decimal(a.interest_rate, b.interest_rate, ra5, rb5);
    lemma_peel_i64(a.antecedent_hash, b.antecedent_hash, ra6, rb6);
    lemma_peel_u128(a.antecedent_audit_log_id, b.antecedent_audit_log_id, ra7, rb7);
    lemma_peel_i64(a.hash, b.hash, ra8, rb8);
    lemma_peel_opt_u128(a.audit_log_id, b.audit_log_id, e, e);
}

/// The index row of a interest rate tier carries the interest rate tier's own values in the
/// columns it keeps, and its id.
pub proof fn law_interest_rate_tier_index_row_copies_columns(m: InterestRateTierModel)
    ensures
        m.index_value().id == m.id,
        m.index_value().name == m.name,
        m.index_value().minimum_balance == m.minimum_balance,
        m.index_value().maximum_balance == m.maximum_balance,
        m.index_value().interest_rate == m.interest_rate,
{
}

} // verus!
