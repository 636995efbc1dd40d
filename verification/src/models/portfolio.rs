//! Portfolio summaries of a person.

use vstd::prelude::*;
use crate::audit::AuditedModel;
use crate::cache::{IndexKey, IndexModel, Indexed};
use crate::hashing::{
    enc_bool, enc_i32, enc_i64, enc_opt_i32, enc_opt_i64, enc_opt_text, enc_opt_u128, enc_text,
    enc_u128, enc_u64, hash_text, push_bool, push_i32, push_i64, push_opt_i32, push_opt_i64,
    push_opt_text, push_opt_u128, push_text, push_u128, push_u64, text_hash,
};
use crate::ids::Keyed;
use crate::values::{
    copy_opt_text, enc_date, enc_decimal, enc_opt_date, enc_opt_decimal, enc_timestamp, push_date,
    push_decimal, push_opt_date, push_opt_decimal, push_timestamp, CalendarDate, DecimalValue,
    Timestamp,
};

use crate::hashing::{
    lemma_peel_bool, lemma_peel_i32, lemma_peel_i64, lemma_peel_opt_i32, lemma_peel_opt_i64,
    lemma_peel_opt_text, lemma_peel_opt_u128, lemma_peel_text, lemma_peel_u128, lemma_peel_u64,
    opt_text_fits, opt_text_view, text_fits,
};
use crate::values::{
    lemma_peel_date, lemma_peel_decimal, lemma_peel_opt_date, lemma_peel_opt_decimal,
    lemma_peel_timestamp,
};

verus! {

/// The financial portfolio summary of a person, with its audit fields.
#[derive(Debug, PartialEq, Eq)]
pub struct PortfolioModel {
    pub id: u128,
    pub person_id: u128,
    pub total_accounts: i32,
    pub total_balance: DecimalValue,
    pub total_loan_outstanding_main: Option<DecimalValue>,
    pub total_loan_outstanding_grantor: Option<DecimalValue>,
    pub risk_score: Option<DecimalValue>,
    pub compliance_status: u128,
    pub predecessor_1: Option<u128>,
    pub predecessor_2: Option<u128>,
    pub predecessor_3: Option<u128>,
    pub antecedent_hash: i64,
    pub antecedent_audit_log_id: u128,
    pub hash: i64,
    pub audit_log_id: Option<u128>,
}

impl PortfolioModel {
    /// The canonical encoding of every field, in declaration order.
    pub open spec fn encoding(&self) -> Seq<u64> {
        enc_u128(self.id)
            + enc_u128(self.person_id)
            + enc_i32(self.total_accounts)
            + enc_decimal(self.total_balance)
            + enc_opt_decimal(self.total_loan_outstanding_main)
            + enc_opt_decimal(self.total_loan_outstanding_grantor)
            + enc_opt_decimal(self.risk_score)
            + enc_u128(self.compliance_status)
            + enc_opt_u128(self.predecessor_1)
            + enc_opt_u128(self.predecessor_2)
            + enc_opt_u128(self.predecessor_3)
            + enc_i64(self.antecedent_hash)
            + enc_u128(self.antecedent_audit_log_id)
            + enc_i64(self.hash)
            + enc_opt_u128(self.audit_log_id)
    }

    /// Computes `self.encoding()`.
    pub fn encode_fields(&self) -> (w: Vec<u64>)
        ensures
            w@ == self.encoding(),
    {
        let mut w: Vec<u64> = Vec::new();
        push_u128(&mut w, self.id);
        push_u128(&mut w, self.person_id);
        push_i32(&mut w, self.total_accounts);
        push_decimal(&mut w, self.total_balance);
        push_opt_decimal(&mut w, self.total_loan_outstanding_main);
        push_opt_decimal(&mut w, self.total_loan_outstanding_grantor);
        push_opt_decimal(&mut w, self.risk_score);
        push_u128(&mut w, self.compliance_status);
        push_opt_u128(&mut w, self.predecessor_1);
        push_opt_u128(&mut w, self.predecessor_2);
        push_opt_u128(&mut w, self.predecessor_3);
        push_i64(&mut w, self.antecedent_hash);
        push_u128(&mut w, self.antecedent_audit_log_id);
        push_i64(&mut w, self.hash);
        push_opt_u128(&mut w, self.audit_log_id);
        assert(w@ =~= self.encoding());
        w
    }

    /// A field-by-field copy.
    pub fn copy(&self) -> (r: Self)
        ensures
            r == *self,
    {
        PortfolioModel {
            id: self.id,
            person_id: self.person_id,
            total_accounts: self.total_accounts,
            total_balance: self.total_balance,
            total_loan_outstanding_main: self.total_loan_outstanding_main,
            total_loan_outstanding_grantor: self.total_loan_outstanding_grantor,
            risk_score: self.risk_score,
            compliance_status: self.compliance_status,
            predecessor_1: self.predecessor_1,
            predecessor_2: self.predecessor_2,
            predecessor_3: self.predecessor_3,
            antecedent_hash: self.antecedent_hash,
            antecedent_audit_log_id: self.antecedent_audit_log_id,
            hash: self.hash,
            audit_log_id: self.audit_log_id,
        }
    }
}

impl Keyed for PortfolioModel {
    open spec fn id_value(&self) -> u128 {
        self.id
    }

    fn id(&self) -> (r: u128) {
        self.id
    }

    fn duplicate(&self) -> (r: Self) {
        self.copy()
    }
}

impl AuditedModel for PortfolioModel {
    open spec fn hash_value(&self) -> i64 {
        self.hash
    }

    open spec fn audit_log_value(&self) -> Option<u128> {
        self.audit_log_id
    }

    open spec fn antecedent_hash_value(&self) -> i64 {
        self.antecedent_hash
    }

    open spec fn antecedent_audit_log_value(&self) -> u128 {
        self.antecedent_audit_log_id
    }

    open spec fn with_audit(
        self,
        antecedent_hash: i64,
        antecedent_audit_log_id: u128,
        hash: i64,
        audit_log_id: Option<u128>,
    ) -> Self {
        PortfolioModel { antecedent_hash, antecedent_audit_log_id, hash, audit_log_id, ..self }
    }

    open spec fn words(&self) -> Seq<u64> {
        self.encoding()
    }

    proof fn lemma_with_audit(
        self,
        antecedent_hash: i64,
        antecedent_audit_log_id: u128,
        hash: i64,
        audit_log_id: Option<u128>,
    ) {
    }

    fn hash(&self) -> (r: i64) {
        self.hash
    }

    fn audit_log_id(&self) -> (r: Option<u128>) {
        self.audit_log_id
    }

    fn antecedent_hash(&self) -> (r: i64) {
        self.antecedent_hash
    }

    fn antecedent_audit_log_id(&self) -> (r: u128) {
        self.antecedent_audit_log_id
    }

    fn set_audit(
        &mut self,
        antecedent_hash: i64,
        antecedent_audit_log_id: u128,
        hash: i64,
        audit_log_id: Option<u128>,
    ) {
        self.antecedent_hash = antecedent_hash;
        self.antecedent_audit_log_id = antecedent_audit_log_id;
        self.hash = hash;
        self.audit_log_id = audit_log_id;
    }

    fn encode(&self) -> (w: Vec<u64>) {
        self.encode_fields()
    }
}

/// The encoding of a portfolio, nested from the right: each field's words
/// followed by the words of the fields after it.
spec fn portfolio_encoding_nested(m: PortfolioModel) -> Seq<u64> {
    enc_u128(m.id) + (enc_u128(m.person_id) + (enc_i32(m.total_accounts) + (enc_decimal(m.total_balance) + (enc_opt_decimal(m.total_loan_outstanding_main) + (enc_opt_decimal(m.total_loan_outstanding_grantor) + (enc_opt_decimal(m.risk_score) + (enc_u128(m.compliance_status) + (enc_opt_u128(m.predecessor_1) + (enc_opt_u128(m.predecessor_2) + (enc_opt_u128(m.predecessor_3) + (enc_i64(m.antecedent_hash) + (enc_u128(m.antecedent_audit_log_id) + (enc_i64(m.hash) + (enc_opt_u128(m.audit_log_id)))))))))))))))
}

proof fn lemma_portfolio_encoding_nested(m: PortfolioModel)
    ensures
        m.encoding() == portfolio_encoding_nested(m),
{
    let r15 = Seq::<u64>::empty();
    let r14 = enc_opt_u128(m.audit_log_id) + r15;
    let r13 = enc_i64(m.hash) + r14;
    let r12 = enc_u128(m.antecedent_audit_log_id) + r13;
    let r11 = enc_i64(m.antecedent_hash) + r12;
    let r10 = enc_opt_u128(m.predecessor_3) + r11;
    let r9 = enc_opt_u128(m.predecessor_2) + r10;
    let r8 = enc_opt_u128(m.predecessor_1) + r9;
    let r7 = enc_u128(m.compliance_status) + r8;
    let r6 = enc_opt_decimal(m.risk_score) + r7;
    let r5 = enc_opt_decimal(m.total_loan_outstanding_grantor) + r6;
    let r4 = enc_opt_decimal(m.total_loan_outstanding_main) + r5;
    let r3 = enc_decimal(m.total_balance) + r4;
    let r2 = enc_i32(m.total_accounts) + r3;
    let r1 = enc_u128(m.person_id) + r2;
    let r0 = enc_u128(m.id) + r1;
    let l1 = enc_u128(m.id);
    let l2 = l1 + enc_u128(m.person_id);
    let l3 = l2 + enc_i32(m.total_accounts);
    let l4 = l3 + enc_decimal(m.total_balance);
    let l5 = l4 + enc_opt_decimal(m.total_loan_outstanding_main);
    let l6 = l5 + enc_opt_decimal(m.total_loan_outstanding_grantor);
    let l7 = l6 + enc_opt_decimal(m.risk_score);
    let l8 = l7 + enc_u128(m.compliance_status);
    let l9 = l8 + enc_opt_u128(m.predecessor_1);
    let l10 = l9 + enc_opt_u128(m.predecessor_2);
    let l11 = l10 + enc_opt_u128(m.predecessor_3);
    let l12 = l11 + enc_i64(m.antecedent_hash);
    let l13 = l12 + enc_u128(m.antecedent_audit_log_id);
    let l14 = l13 + enc_i64(m.hash);
    let l15 = l14 + enc_opt_u128(m.audit_log_id);
    assert(m.encoding() == l15);
    assert(l15 + r15 =~= l15);
    vstd::seq_lib::lemma_concat_associative(l14, enc_opt_u128(m.audit_log_id), r15);
    vstd::seq_lib::lemma_concat_associative(l13, enc_i64(m.hash), r14);
    vstd::seq_lib::lemma_concat_associative(l12, enc_u128(m.antecedent_audit_log_id), r13);
    vstd::seq_lib::lemma_concat_associative(l11, enc_i64(m.antecedent_hash), r12);
    vstd::seq_lib::lemma_concat_associative(l10, enc_opt_u128(m.predecessor_3), r11);
    vstd::seq_lib::lemma_concat_associative(l9, enc_opt_u128(m.predecessor_2), r10);
    vstd::seq_lib::lemma_concat_associative(l8, enc_opt_u128(m.predecessor_1), r9);
    vstd::seq_lib::lemma_concat_associative(l7, enc_u128(m.compliance_status), r8);
    vstd::seq_lib::lemma_concat_associative(l6, enc_opt_decimal(m.risk_score), r7);
    vstd::seq_lib::lemma_concat_associative(l5, enc_opt_decimal(m.total_loan_outstanding_grantor), r6);
    vstd::seq_lib::lemma_concat_associative(l4, enc_opt_decimal(m.total_loan_outstanding_main), r5);
    vstd::seq_lib::lemma_concat_associative(l3, enc_decimal(m.total_balance), r4);
    vstd::seq_lib::lemma_concat_associative(l2, enc_i32(m.total_accounts), r3);
    vstd::seq_lib::lemma_concat_associative(l1, enc_u128(m.person_id), r2);
    assert(r14 == enc_opt_u128(m.audit_log_id) + r15);
    assert(enc_opt_u128(m.audit_log_id) + r15 =~= enc_opt_u128(m.audit_log_id));
}

/// Two portfolio records with the same word encoding agree on every field,
/// so no field is left out of what the content hash is taken over: a
/// portfolio that differs from a sealed one in any field but the audit fields
/// is hashed over different words.
#[verifier::rlimit(50)]
pub proof fn law_portfolio_encoding_determines_fields(a: PortfolioModel, b: PortfolioModel)
    requires
        a.encoding() == b.encoding(),
    ensures
        a.id == b.id,
        a.person_id == b.person_id,
        a.total_accounts == b.total_accounts,
        a.total_balance == b.total_balance,
        a.total_loan_outstanding_main == b.total_loan_outstanding_main,
        a.total_loan_outstanding_grantor == b.total_loan_outstanding_grantor,
        a.risk_score == b.risk_score,
        a.compliance_status == b.compliance_status,
        a.predecessor_1 == b.predecessor_1,
        a.predecessor_2 == b.predecessor_2,
        a.predecessor_3 == b.predecessor_3,
        a.antecedent_hash == b.antecedent_hash,
        a.antecedent_audit_log_id == b.antecedent_audit_log_id,
        a.hash == b.hash,
        a.audit_log_id == b.audit_log_id,
{
    lemma_portfolio_encoding_nested(a);
    lemma_portfolio_encoding_nested(b);
    let ra14 = enc_opt_u128(a.audit_log_id);
    let rb14 = enc_opt_u128(b.audit_log_id);
    let ra13 = enc_i64(a.hash) + ra14;
    let rb13 = enc_i64(b.hash) + rb14;
    let ra12 = enc_u128(a.antecedent_audit_log_id) + ra13;
    let rb12 = enc_u128(b.antecedent_audit_log_id) + rb13;
    let ra11 = enc_i64(a.antecedent_hash) + ra12;
    let rb11 = enc_i64(b.antecedent_hash) + rb12;
    let ra10 = enc_opt_u128(a.predecessor_3) + ra11;
    let rb10 = enc_opt_u128(b.predecessor_3) + rb11;
    let ra9 = enc_opt_u128(a.predecessor_2) + ra10;
    let rb9 = enc_opt_u128(b.predecessor_2) + rb10;
    let ra8 = enc_opt_u128(a.predecessor_1) + ra9;
    let rb8 = enc_opt_u128(b.predecessor_1) + rb9;
    let ra7 = enc_u128(a.compliance_status) + ra8;
    let rb7 = enc_u128(b.compliance_status) + rb8;
    let ra6 = enc_opt_decimal(a.risk_score) + ra7;
    let rb6 = enc_opt_decimal(b.risk_score) + rb7;
    let ra5 = enc_opt_decimal(a.total_loan_outstanding_grantor) + ra6;
    let rb5 = enc_opt_decimal(b.total_loan_outstanding_grantor) + rb6;
    let ra4 = enc_opt_decimal(a.total_loan_outstanding_main) + ra5;
    let rb4 = enc_opt_decimal(b.total_loan_outstanding_main) + rb5;
    let ra3 = enc_decimal(a.total_balance) + ra4;
    let rb3 = enc_decimal(b.total_balance) + rb4;
    let ra2 = enc_i32(a.total_accounts) + ra3;
    let rb2 = enc_i32(b.total_accounts) + rb3;
    let ra1 = enc_u128(a.person_id) + ra2;
    let rb1 = enc_u128(b.person_id) + rb2;
    let ra0 = enc_u128(a.id) + ra1;
    let rb0 = enc_u128(b.id) + rb1;
    let e = Seq::<u64>::empty();
    assert(ra14 + e =~= ra14);
    assert(rb14 + e =~= rb14);
    lemma_peel_u128(a.id, b.id, ra1, rb1);
    lemma_peel_u128(a.person_id, b.person_id, ra2, rb2);
    lemma_peel_i32(a.total_accounts, b.total_accounts, ra3, rb3);
    lemma_peel_decimal(a.total_balance, b.total_balance, ra4, rb4);
    lemma_peel_opt_decimal(a.total_loan_outstanding_main, b.total_loan_outstanding_main, ra5, rb5);
    lemma_peel_opt_decimal(a.total_loan_outstanding_grantor, b.total_loan_outstanding_grantor, ra6, rb6);
    lemma_peel_opt_decimal(a.risk_score, b.risk_score, ra7, rb7);
    lemma_peel_u128(a.compliance_status, b.compliance_status, ra8, rb8);
    lemma_peel_opt_u128(a.predecessor_1, b.predecessor_1, ra9, rb9);
    lemma_peel_opt_u128(a.predecessor_2, b.predecessor_2, ra10, rb10);
    lemma_peel_opt_u128(a.predecessor_3, b.predecessor_3, ra11, rb11);
    lemma_peel_i64(a.antecedent_hash, b.antecedent_hash, ra12, rb12);
    lemma_peel_u128(a.antecedent_audit_log_id, b.antecedent_audit_log_id, ra13, rb13);
    lemma_peel_i64(a.hash, b.hash, ra14, rb14);
    lemma_peel_opt_u128(a.audit_log_id, b.audit_log_id, e, e);
}

} // verus!
