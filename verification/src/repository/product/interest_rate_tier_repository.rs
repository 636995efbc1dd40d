//! The interest rate tier repository: audited batch writes of interest rate
//! tiers, and existence checks through the index cache.

use vstd::prelude::*;
use crate::audit::{
    all_have_audit_log, all_present_have_audit_log, created, prepare_create, prepare_delete,
    prepare_update, successor, update_step, RepositoryError, UpdateStep,
};
use crate::batch::{assemble_sharing, shared_slot};
use crate::cache::{
    index_rows, inserted_all, is_lookup_answer, removed_all, IdxModelCache, IndexKey, IndexModel,
    TransactionAwareIdxModelCache,
};
use crate::models::interest_rate_tier::{InterestRateTierIdxModel, InterestRateTierModel};
use crate::repository::common::{
    cache_added, cache_replaced, changed_records, changed_records_of, is_found_id, lemma_present_ids,
    present_ids, present_ids_of,
};
use crate::repository::common::{cached_ids, exist_answer, uncached_id_list};

verus! {

/// Interest rate tier writes within one unit of work.
pub struct InterestRateTierRepositoryImpl {
    pub interest_rate_tier_idx_cache: TransactionAwareIdxModelCache<InterestRateTierIdxModel>,
}

impl InterestRateTierRepositoryImpl {
    pub open spec fn wf(&self) -> bool {
        self.interest_rate_tier_idx_cache.wf()
    }

    /// A repository whose unit of work starts from the given committed
    /// index rows.
    pub fn new(interest_rate_tier_idx_cache: IdxModelCache<InterestRateTierIdxModel>) -> (r: Self)
        requires
            interest_rate_tier_idx_cache.wf(),
        ensures
            r.wf(),
            r.interest_rate_tier_idx_cache@ == interest_rate_tier_idx_cache@,
            r.interest_rate_tier_idx_cache.committed_view() == interest_rate_tier_idx_cache@,
    {
        InterestRateTierRepositoryImpl { interest_rate_tier_idx_cache: TransactionAwareIdxModelCache::new(interest_rate_tier_idx_cache) }
    }

    /// The tiers a create batch writes (to the main, audit and index
    /// tables), each sealed under the audit log entry. Refused when no audit
    /// log entry is given.
    pub fn prepare_create_batch(&self, items: &Vec<InterestRateTierModel>, audit_log_id: Option<u128>) -> (r:
        Result<Vec<InterestRateTierModel>, RepositoryError>)
        ensures
            r is Err <==> audit_log_id is None,
            r matches Err(e) ==> e == RepositoryError::MissingAuditLogId,
            r matches Ok(out) ==> {
                &&& out@.len() == items@.len()
                &&& forall|i: int|
                    0 <= i < items@.len() ==> out@[i] == created(items@[i], audit_log_id->0)
            },
    {
        prepare_create(items, audit_log_id)
    }

    /// Once a create batch is written: the index row of each tier created
    /// joins the cache.
    pub fn finish_create_batch(&mut self, saved: &Vec<InterestRateTierModel>)
        requires
            old(self).wf(),
        ensures
            final(self).wf(),
            final(self).interest_rate_tier_idx_cache@ == inserted_all(old(self).interest_rate_tier_idx_cache@, index_rows(saved@)),
            final(self).interest_rate_tier_idx_cache.committed_view() == old(
                self,
            ).interest_rate_tier_idx_cache.committed_view(),
    {
        cache_added(&mut self.interest_rate_tier_idx_cache, saved);
    }

    /// The steps of an update batch: tiers unchanged since they were
    /// written are handed back as they are; the others are chained to their
    /// stored version and sealed under the audit log entry. Refused when no
    /// audit log entry is given, or when a tier carries none.
    pub fn prepare_update_batch(&self, items: &Vec<InterestRateTierModel>, audit_log_id: Option<u128>) -> (r:
        Result<Vec<UpdateStep<InterestRateTierModel>>, RepositoryError>)
        ensures
            r is Err <==> (audit_log_id is None || !all_have_audit_log(items@)),
            audit_log_id is None ==> r == Err::<Vec<UpdateStep<InterestRateTierModel>>, _>(
                RepositoryError::MissingAuditLogId,
            ),
            audit_log_id is Some && !all_have_audit_log(items@) ==> r == Err::<
                Vec<UpdateStep<InterestRateTierModel>>,
                _,
            >(RepositoryError::EntityWithoutAuditLogId),
            r matches Ok(steps) ==> {
                &&& steps@.len() == items@.len()
                &&& forall|i: int|
                    0 <= i < items@.len() ==> steps@[i] == update_step(items@[i], audit_log_id->0)
            },
    {
        prepare_update(items, audit_log_id)
    }

    /// Once an update batch is written: the cached index row of each tier
    /// that changed is replaced by its new one.
    pub fn finish_update_batch(&mut self, steps: &Vec<UpdateStep<InterestRateTierModel>>)
        requires
            old(self).wf(),
        ensures
            final(self).wf(),
            final(self).interest_rate_tier_idx_cache@ == inserted_all(
                old(self).interest_rate_tier_idx_cache@,
                index_rows(changed_records(steps@)),
            ),
            final(self).interest_rate_tier_idx_cache.committed_view() == old(
                self,
            ).interest_rate_tier_idx_cache.committed_view(),
    {
        let changed = changed_records_of(steps);
        cache_replaced(&mut self.interest_rate_tier_idx_cache, &changed);
    }

    /// The final versions a delete batch writes to the audit table, aligned
    /// with the tiers loaded for the ids: each one found chained to its
    /// stored version. Refused when no audit log entry is given, or when a
    /// tier found carries none.
    pub fn prepare_delete_batch(&self, loaded: &Vec<Option<InterestRateTierModel>>, audit_log_id: Option<u128>) -> (r:
        Result<Vec<Option<InterestRateTierModel>>, RepositoryError>)
        ensures
            r is Err <==> (audit_log_id is None || !all_present_have_audit_log(loaded@)),
            audit_log_id is None ==> r == Err::<Vec<Option<InterestRateTierModel>>, _>(
                RepositoryError::MissingAuditLogId,
            ),
            audit_log_id is Some && !all_present_have_audit_log(loaded@) ==> r == Err::<
                Vec<Option<InterestRateTierModel>>,
                _,
            >(RepositoryError::EntityWithoutAuditLogId),
            r matches Ok(out) ==> {
                &&& out@.len() == loaded@.len()
                &&& forall|i: int|
                    0 <= i < loaded@.len() ==> (#[trigger] out@[i] is Some <==> loaded@[i] is Some)
                &&& forall|i: int|
                    0 <= i < loaded@.len() && loaded@[i] is Some ==> #[trigger] out@[i] == Some(
                        successor(loaded@[i]->0, audit_log_id->0),
                    )
            },
    {
        prepare_delete(loaded, audit_log_id)
    }

    /// Once a delete batch is written: the index rows of the tiers that
    /// were found leave the cache.
    pub fn finish_delete_batch(&mut self, loaded: &Vec<Option<InterestRateTierModel>>)
        requires
            old(self).wf(),
        ensures
            final(self).wf(),
            final(self).interest_rate_tier_idx_cache@ == removed_all(old(self).interest_rate_tier_idx_cache@, present_ids(loaded@)),
            forall|i: int|
                0 <= i < loaded@.len() && (#[trigger] loaded@[i]) is Some
                    ==> !final(self).interest_rate_tier_idx_cache@.contains_key(loaded@[i]->0.id),
            forall|k: u128|
                !is_found_id(loaded@, k) ==> (#[trigger] final(self).interest_rate_tier_idx_cache@.contains_key(k))
                    == old(self).interest_rate_tier_idx_cache@.contains_key(k),
            final(self).interest_rate_tier_idx_cache.committed_view() == old(
                self,
            ).interest_rate_tier_idx_cache.committed_view(),
    {
        let ids = present_ids_of(loaded);
        self.interest_rate_tier_idx_cache.remove_all(ids.as_slice());
        proof {
            law_deleted_tiers_leave_cache(old(self).interest_rate_tier_idx_cache@, loaded@);
        }
    }

    /// The answer of a batch load, from the rows fetched for the ids: one
    /// entry per id, in order; a row fetched for an id answers every position
    /// asking for it.
    pub fn assemble_load_batch(ids: &[u128], rows: &Vec<InterestRateTierModel>) -> (r: Vec<Option<InterestRateTierModel>>)
        ensures
            r@.len() == ids@.len(),
            forall|i: int| 0 <= i < ids@.len() ==> #[trigger] r@[i] == shared_slot(ids@, rows@, i),
    {
        assemble_sharing(ids, rows)
    }

    /// The first half of an existence check: the ids the cache holds, each
    /// answered `true`, in order; and the ids to look up in the table.
    pub fn exist_by_ids_from_cache(&self, ids: &[u128]) -> (r: (Vec<(u128, bool)>, Vec<u128>))
        requires
            self.wf(),
        ensures
            r.0@ == cached_ids(self.interest_rate_tier_idx_cache@, ids@).map_values(|id: u128| (id, true)),
            r.1@ == uncached_id_list(self.interest_rate_tier_idx_cache@, ids@),
    {
        let mut hits: Vec<(u128, bool)> = Vec::new();
        let mut missing: Vec<u128> = Vec::new();
        let n = ids.len();
        let mut i: usize = 0;
        while i < n
            invariant
                n == ids@.len(),
                i <= n,
                self.wf(),
                hits@ == cached_ids(self.interest_rate_tier_idx_cache@, ids@.take(i as int)).map_values(
                    |id: u128| (id, true),
                ),
                missing@ == uncached_id_list(self.interest_rate_tier_idx_cache@, ids@.take(i as int)),
            decreases n - i,
        {
            let id = ids[i];
            assert(ids@.take(i as int + 1).drop_last() =~= ids@.take(i as int));
            if self.interest_rate_tier_idx_cache.contains_primary(id) {
                let ghost before = cached_ids(self.interest_rate_tier_idx_cache@, ids@.take(i as int));
                hits.push((id, true));
                assert(before.push(id).map_values(|id: u128| (id, true)) =~= before.map_values(
                    |id: u128| (id, true),
                ).push((id, true)));
            } else {
                missing.push(id);
            }
            i = i + 1;
        }
        assert(ids@.take(n as int) =~= ids@);
        (hits, missing)
    }

    /// The second half of an existence check: the cached answers, then each
    /// id looked up in the table with whether the table holds it.
    pub fn exist_by_ids_from_rows(
        hits: Vec<(u128, bool)>,
        missing: &Vec<u128>,
        found: &Vec<u128>,
    ) -> (r: Vec<(u128, bool)>)
        ensures
            r@ == hits@ + exist_answer(missing@, found@),
    {
        let mut out = hits;
        let ghost start = out@;
        let n = missing.len();
        let mut i: usize = 0;
        while i < n
            invariant
                n == missing@.len(),
                i <= n,
                out@ == start + exist_answer(missing@.take(i as int), found@),
            decreases n - i,
        {
            let id = missing[i];
            let mut hit = false;
            let m = found.len();
            let mut j: usize = 0;
            while j < m
                invariant
                    m == found@.len(),
                    j <= m,
                    hit == found@.take(j as int).contains(id),
                decreases m - j,
            {
                let ghost prefix = found@.take(j as int);
                assert(found@.take(j as int + 1) =~= prefix.push(found@[j as int]));
                if found[j] == id {
                    hit = true;
                    assert(prefix.push(found@[j as int])[j as int] == id);
                } else {
                    assert forall|x: u128| prefix.push(found@[j as int]).contains(x) && x == id implies prefix.contains(x) by {
                        let k = choose|k: int| 0 <= k < prefix.len() + 1 && prefix.push(found@[j as int])[k] == x;
                        assert(k < prefix.len());
                        assert(prefix[k] == x);
                    }
                }
                proof {
                    if hit && prefix.contains(id) {
                        let k = choose|k: int| 0 <= k < prefix.len() && prefix[k] == id;
                        assert(prefix.push(found@[j as int])[k] == id);
                    }
                }
                j = j + 1;
            }
            assert(found@.take(m as int) =~= found@);
            out.push((id, hit));
            assert(exist_answer(missing@.take(i as int + 1), found@) =~= exist_answer(
                missing@.take(i as int),
                found@,
            ).push((id, found@.contains(id))));
            i = i + 1;
        }
        assert(missing@.take(n as int) =~= missing@);
        out
    }

    /// Publishes the index rows of the unit of work.
    pub fn on_commit(&mut self)
        requires
            old(self).wf(),
        ensures
            final(self).wf(),
            final(self).interest_rate_tier_idx_cache@ == old(self).interest_rate_tier_idx_cache@,
            final(self).interest_rate_tier_idx_cache.committed_view() == old(self).interest_rate_tier_idx_cache@,
    {
        self.interest_rate_tier_idx_cache.on_commit();
    }

    /// Discards the index rows of the unit of work.
    pub fn on_rollback(&mut self)
        requires
            old(self).wf(),
        ensures
            final(self).wf(),
            final(self).interest_rate_tier_idx_cache@ == old(self).interest_rate_tier_idx_cache.committed_view(),
            final(self).interest_rate_tier_idx_cache.committed_view() == old(
                self,
            ).interest_rate_tier_idx_cache.committed_view(),
    {
        self.interest_rate_tier_idx_cache.on_rollback();
    }
}

/// Once a delete batch is written, the index cache holds none of the tiers
/// found for it, and every id of no tier found is held exactly as before.
pub proof fn law_deleted_tiers_leave_cache(
    before: Map<u128, InterestRateTierIdxModel>,
    loaded: Seq<Option<InterestRateTierModel>>,
)
    ensures
        forall|i: int|
            0 <= i < loaded.len() && (#[trigger] loaded[i]) is Some ==> !removed_all(
                before,
                present_ids(loaded),
            ).contains_key(loaded[i]->0.id),
        forall|k: u128|
            !is_found_id(loaded, k) ==> (#[trigger] removed_all(before, present_ids(loaded)).contains_key(
                k,
            )) == before.contains_key(k),
{
    lemma_present_ids(loaded);
    assert forall|k: u128| !is_found_id(loaded, k) implies !present_ids(loaded).contains(k) by {
        if present_ids(loaded).contains(k) {
            let j = choose|j: int| 0 <= j < present_ids(loaded).len() && present_ids(loaded)[j] == k;
            assert(is_found_id(loaded, present_ids(loaded)[j]));
        }
    }
}

} // verus!
