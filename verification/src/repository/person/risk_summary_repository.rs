//! The risk summary repository: unaudited batch writes of risk summaries,
//! existence checks and lookups by person through the index cache.

use vstd::prelude::*;
use crate::batch::{assemble_taking, taken_slot};
use crate::cache::{
    index_rows, inserted_all, is_lookup_answer, last_index_of_id, law_inserted_all,
    law_removed_all_absent, lemma_last_index_of_id_map, removed_all, IdxModelCache, IndexKey,
    IndexModel, Indexed,
    TransactionAwareIdxModelCache,
};
use crate::ids::Keyed;
use crate::models::risk_summary::{RiskSummaryIdxModel, RiskSummaryModel};
use crate::repository::common::{cache_added, cache_replaced};

verus! {

/// Risk summary writes and lookups within one unit of work.
pub struct RiskSummaryRepositoryImpl {
    pub risk_summary_idx_cache: TransactionAwareIdxModelCache<RiskSummaryIdxModel>,
}

impl RiskSummaryRepositoryImpl {
    pub open spec fn wf(&self) -> bool {
        self.risk_summary_idx_cache.wf()
    }

    /// A repository whose unit of work starts from the given committed
    /// risk summary index rows.
    pub fn new(risk_summary_idx_cache: IdxModelCache<RiskSummaryIdxModel>) -> (r: Self)
        requires
            risk_summary_idx_cache.wf(),
        ensures
            r.wf(),
            r.risk_summary_idx_cache@ == risk_summary_idx_cache@,
            r.risk_summary_idx_cache.committed_view() == risk_summary_idx_cache@,
    {
        RiskSummaryRepositoryImpl {
            risk_summary_idx_cache: TransactionAwareIdxModelCache::new(risk_summary_idx_cache),
        }
    }

    /// Once a create batch is written: the index row of each risk summary
    /// joins the cache.
    pub fn finish_create_batch(&mut self, saved: &Vec<RiskSummaryModel>)
        requires
            old(self).wf(),
        ensures
            final(self).wf(),
            final(self).risk_summary_idx_cache@ == inserted_all(
                old(self).risk_summary_idx_cache@,
                index_rows(saved@),
            ),
            final(self).risk_summary_idx_cache.committed_view() == old(
                self,
            ).risk_summary_idx_cache.committed_view(),
    {
        cache_added(&mut self.risk_summary_idx_cache, saved);
    }

    /// Once an update batch is written: the cached index row of each risk
    /// summary is replaced by its new one.
    pub fn finish_update_batch(&mut self, updated: &Vec<RiskSummaryModel>)
        requires
            old(self).wf(),
        ensures
            final(self).wf(),
            final(self).risk_summary_idx_cache@ == inserted_all(
                old(self).risk_summary_idx_cache@,
                index_rows(updated@),
            ),
            final(self).risk_summary_idx_cache.committed_view() == old(
                self,
            ).risk_summary_idx_cache.committed_view(),
    {
        cache_replaced(&mut self.risk_summary_idx_cache, updated);
    }

    /// Once a delete batch is written: the index rows of every id asked for
    /// leave the cache.
    pub fn finish_delete_batch(&mut self, ids: &[u128])
        requires
            old(self).wf(),
        ensures
            final(self).wf(),
            final(self).risk_summary_idx_cache@ == removed_all(
                old(self).risk_summary_idx_cache@,
                ids@,
            ),
            final(self).risk_summary_idx_cache.committed_view() == old(
                self,
            ).risk_summary_idx_cache.committed_view(),
    {
        self.risk_summary_idx_cache.remove_all(ids);
    }

    /// For each id asked for, in order: the id and whether a risk summary
    /// with that id exists.
    pub fn exist_by_ids(&self, ids: &[u128]) -> (r: Vec<(u128, bool)>)
        requires
            self.wf(),
        ensures
            r@.len() == ids@.len(),
            forall|i: int|
                0 <= i < ids@.len() ==> #[trigger] r@[i] == (
                    ids@[i],
                    self.risk_summary_idx_cache@.contains_key(ids@[i]),
                ),
    {
        let mut out: Vec<(u128, bool)> = Vec::new();
        let n = ids.len();
        let mut i: usize = 0;
        while i < n
            invariant
                n == ids@.len(),
                i <= n,
                self.wf(),
                out@.len() == i,
                forall|j: int|
                    0 <= j < i ==> #[trigger] out@[j] == (
                        ids@[j],
                        self.risk_summary_idx_cache@.contains_key(ids@[j]),
                    ),
            decreases n - i,
        {
            let id = ids[i];
            out.push((id, self.risk_summary_idx_cache.contains_primary(id)));
            i = i + 1;
        }
        out
    }

    /// The index rows of the risk summaries of `person_id`.
    pub fn find_by_person_id(&self, person_id: u128) -> (r: Vec<RiskSummaryIdxModel>)
        requires
            self.wf(),
        ensures
            is_lookup_answer(
                self.risk_summary_idx_cache@,
                |t: RiskSummaryIdxModel| t.person_id == person_id,
                r@,
            ),
            r@ == self.risk_summary_idx_cache.entries().filter(
                |t: RiskSummaryIdxModel| t.person_id == person_id,
            ),
    {
        let r = self.risk_summary_idx_cache.get_by_uuid_index(IndexKey::PersonId, person_id);
        assert((|t: RiskSummaryIdxModel| t.person_id == person_id) =~= (|t: RiskSummaryIdxModel|
            t.uuid_key_value(IndexKey::PersonId) == Some(person_id)));
        r
    }

    /// The answer of a batch load, from the rows fetched for the ids: one
    /// entry per id, in order; a row fetched for an id asked for twice answers
    /// the first position only.
    pub fn assemble_load_batch(ids: &[u128], rows: &Vec<RiskSummaryModel>) -> (r: Vec<
        Option<RiskSummaryModel>,
    >)
        ensures
            r@.len() == ids@.len(),
            forall|i: int| 0 <= i < ids@.len() ==> #[trigger] r@[i] == taken_slot(ids@, rows@, i),
    {
        assemble_taking(ids, rows)
    }

    /// Publishes the index rows of the unit of work.
    pub fn on_commit(&mut self)
        requires
            old(self).wf(),
        ensures
            final(self).wf(),
            final(self).risk_summary_idx_cache@ == old(self).risk_summary_idx_cache@,
            final(self).risk_summary_idx_cache.committed_view() == old(
                self,
            ).risk_summary_idx_cache@,
    {
        self.risk_summary_idx_cache.on_commit();
    }

    /// Discards the index rows of the unit of work.
    pub fn on_rollback(&mut self)
        requires
            old(self).wf(),
        ensures
            final(self).wf(),
            final(self).risk_summary_idx_cache@ == old(
                self,
            ).risk_summary_idx_cache.committed_view(),
            final(self).risk_summary_idx_cache.committed_view() == old(
                self,
            ).risk_summary_idx_cache.committed_view(),
    {
        self.risk_summary_idx_cache.on_rollback();
    }
}

/// A risk summary written by a create batch is found among the risk
/// summaries of its person once the batch is written (unless a later risk
/// summary of the same batch has the same id).
pub proof fn law_created_risk_summary_found_by_person(
    before: Map<u128, RiskSummaryIdxModel>,
    saved: Seq<RiskSummaryModel>,
    i: int,
    answer: Seq<RiskSummaryIdxModel>,
)
    requires
        0 <= i < saved.len(),
        last_index_of_id(saved, saved[i].id) == i,
        is_lookup_answer(
            inserted_all(before, index_rows(saved)),
            |t: RiskSummaryIdxModel| t.person_id == saved[i].person_id,
            answer,
        ),
    ensures
        exists|j: int| 0 <= j < answer.len() && answer[j].id == saved[i].id,
{
    let rows = index_rows(saved);
    let f = |m: RiskSummaryModel| m.index_value();
    assert forall|a: RiskSummaryModel| #[trigger] f(a).id_value() == a.id_value() by {
        a.lemma_index_id();
    }
    assert(rows == saved.map_values(f));
    lemma_last_index_of_id_map(saved, f, saved[i].id);
    law_inserted_all(before, rows);
    assert(rows[i] == saved[i].index_value());
    let m = inserted_all(before, rows);
    assert(m.contains_key(saved[i].id));
    assert(m[saved[i].id] == rows[i]);
}

/// Once a delete batch is written, none of the ids it was asked for exists
/// any more, and every other id exists exactly when it did before.
pub proof fn law_deleted_risk_summaries_do_not_exist(
    before: Map<u128, RiskSummaryIdxModel>,
    ids: Seq<u128>,
)
    ensures
        forall|i: int|
            0 <= i < ids.len() ==> !removed_all(before, ids).contains_key(#[trigger] ids[i]),
        forall|k: u128|
            !ids.contains(k) ==> (#[trigger] removed_all(before, ids).contains_key(k))
                == before.contains_key(k),
{
    law_removed_all_absent(before, ids);
}

} // verus!
