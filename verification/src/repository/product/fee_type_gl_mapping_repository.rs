//! The fee-type GL mapping repository: audited batch writes of fee-type
//! general-ledger mappings.

use vstd::prelude::*;
use crate::audit::{
    all_have_audit_log, all_present_have_audit_log, created, prepare_create, prepare_delete,
    prepare_update, successor, update_step, RepositoryError, UpdateStep,
};
use crate::batch::{assemble_taking, taken_slot};
use crate::cache::{
    index_rows, inserted_all, is_lookup_answer, removed_all, IdxModelCache, IndexKey, IndexModel,
    TransactionAwareIdxModelCache,
};
use crate::models::fee_type_gl_mapping::{FeeTypeGlMappingIdxModel, FeeTypeGlMappingModel};
use crate::repository::common::{
    cache_added, cache_replaced, changed_records, changed_records_of, present_ids, present_ids_of,
};

verus! {

/// Fee-type GL mapping writes within one unit of work.
pub struct FeeTypeGlMappingRepositoryImpl {
    pub fee_type_gl_mapping_idx_cache: TransactionAwareIdxModelCache<FeeTypeGlMappingIdxModel>,
}

impl FeeTypeGlMappingRepositoryImpl {
    pub open spec fn wf(&self) -> bool {
        self.fee_type_gl_mapping_idx_cache.wf()
    }

    /// A repository whose unit of work starts from the given committed
    /// index rows.
    pub fn new(fee_type_gl_mapping_idx_cache: IdxModelCache<FeeTypeGlMappingIdxModel>) -> (r: Self)
        requires
            fee_type_gl_mapping_idx_cache.wf(),
        ensures
            r.wf(),
            r.fee_type_gl_mapping_idx_cache@ == fee_type_gl_mapping_idx_cache@,
            r.fee_type_gl_mapping_idx_cache.committed_view() == fee_type_gl_mapping_idx_cache@,
    {
        FeeTypeGlMappingRepositoryImpl { fee_type_gl_mapping_idx_cache: TransactionAwareIdxModelCache::new(fee_type_gl_mapping_idx_cache) }
    }

    /// The mappings a create batch writes (to the main, audit and index
    /// tables), each sealed under the audit log entry. Refused when no audit
    /// log entry is given.
    pub fn prepare_create_batch(&self, items: &Vec<FeeTypeGlMappingModel>, audit_log_id: Option<u128>) -> (r:
        Result<Vec<FeeTypeGlMappingModel>, RepositoryError>)
        ensures
            r is Err <==> audit_log_id is None,
            r matches Err(e) ==> e == RepositoryError::MissingAuditLogId,
            r matches Ok(out) ==> {
                &&& out@.len() == items@.len()
                &&& forall|i: int|
                    0 <= i < items@.len() ==> out@[i] == created(items@[i], audit_log_id->0)
            },
    {
        prepare_create(items, audit_log_id)
    }

    /// Once a create batch is written: the index row of each mapping created
    /// joins the cache.
    pub fn finish_create_batch(&mut self, saved: &Vec<FeeTypeGlMappingModel>)
        requires
            old(self).wf(),
        ensures
            final(self).wf(),
            final(self).fee_type_gl_mapping_idx_cache@ == inserted_all(old(self).fee_type_gl_mapping_idx_cache@, index_rows(saved@)),
            final(self).fee_type_gl_mapping_idx_cache.committed_view() == old(
                self,
            ).fee_type_gl_mapping_idx_cache.committed_view(),
    {
        cache_added(&mut self.fee_type_gl_mapping_idx_cache, saved);
    }

    /// The steps of an update batch: mappings unchanged since they were
    /// written are handed back as they are; the others are chained to their
    /// stored version and sealed under the audit log entry. Refused when no
    /// audit log entry is given, or when a mapping carries none.
    pub fn prepare_update_batch(&self, items: &Vec<FeeTypeGlMappingModel>, audit_log_id: Option<u128>) -> (r:
        Result<Vec<UpdateStep<FeeTypeGlMappingModel>>, RepositoryError>)
        ensures
            r is Err <==> (audit_log_id is None || !all_have_audit_log(items@)),
            audit_log_id is None ==> r == Err::<Vec<UpdateStep<FeeTypeGlMappingModel>>, _>(
                RepositoryError::MissingAuditLogId,
            ),
            audit_log_id is Some && !all_have_audit_log(items@) ==> r == Err::<
                Vec<UpdateStep<FeeTypeGlMappingModel>>,
                _,
            >(RepositoryError::EntityWithoutAuditLogId),
            r matches Ok(steps) ==> {
                &&& steps@.len() == items@.len()
                &&& forall|i: int|
                    0 <= i < items@.len() ==> steps@[i] == update_step(items@[i], audit_log_id->0)
            },
    {
        prepare_update(items, audit_log_id)
    }

    /// Once an update batch is written: the cached index row of each mapping
    /// that changed is replaced by its new one.
    pub fn finish_update_batch(&mut self, steps: &Vec<UpdateStep<FeeTypeGlMappingModel>>)
        requires
            old(self).wf(),
        ensures
            final(self).wf(),
            final(self).fee_type_gl_mapping_idx_cache@ == inserted_all(
                old(self).fee_type_gl_mapping_idx_cache@,
                index_rows(changed_records(steps@)),
            ),
            final(self).fee_type_gl_mapping_idx_cache.committed_view() == old(
                self,
            ).fee_type_gl_mapping_idx_cache.committed_view(),
    {
        let changed = changed_records_of(steps);
        cache_replaced(&mut self.fee_type_gl_mapping_idx_cache, &changed);
    }

    /// The final versions a delete batch writes to the audit table, aligned
    /// with the mappings loaded for the ids: each one found chained to its
    /// stored version. Refused when no audit log entry is given, or when a
    /// mapping found carries none.
    pub fn prepare_delete_batch(&self, loaded: &Vec<Option<FeeTypeGlMappingModel>>, audit_log_id: Option<u128>) -> (r:
        Result<Vec<Option<FeeTypeGlMappingModel>>, RepositoryError>)
        ensures
            r is Err <==> (audit_log_id is None || !all_present_have_audit_log(loaded@)),
            audit_log_id is None ==> r == Err::<Vec<Option<FeeTypeGlMappingModel>>, _>(
                RepositoryError::MissingAuditLogId,
            ),
            audit_log_id is Some && !all_present_have_audit_log(loaded@) ==> r == Err::<
                Vec<Option<FeeTypeGlMappingModel>>,
                _,
            >(RepositoryError::EntityWithoutAuditLogId),
            r matches Ok(out) ==> {
                &&& out@.len() == loaded@.len()
                &&& forall|i: int|
                    0 <= i < loaded@.len() ==> (#[trigger] out@[i] is Some <==> loaded@[i] is Some)
                &&& forall|i: int|
                    0 <= i < loaded@.len() && loaded@[i] is Some ==> #[trigger] out@[i] == Some(
                        successor(loaded@[i]->0, audit_log_id->0),
                    )
            },
    {
        prepare_delete(loaded, audit_log_id)
    }

    /// Once a delete batch is written: the index rows of every id asked for
    /// leave the cache.
    pub fn finish_delete_batch(&mut self, ids: &[u128])
        requires
            old(self).wf(),
        ensures
            final(self).wf(),
            final(self).fee_type_gl_mapping_idx_cache@ == removed_all(old(self).fee_type_gl_mapping_idx_cache@, ids@),
            final(self).fee_type_gl_mapping_idx_cache.committed_view() == old(
                self,
            ).fee_type_gl_mapping_idx_cache.committed_view(),
    {
        self.fee_type_gl_mapping_idx_cache.remove_all(ids);
    }

    /// The answer of a batch load, from the rows fetched for the ids: one
    /// entry per id, in order; a row fetched for an id asked for twice answers
    /// the first position only.
    pub fn assemble_load_batch(ids: &[u128], rows: &Vec<FeeTypeGlMappingModel>) -> (r: Vec<Option<FeeTypeGlMappingModel>>)
        ensures
            r@.len() == ids@.len(),
            forall|i: int| 0 <= i < ids@.len() ==> #[trigger] r@[i] == taken_slot(ids@, rows@, i),
    {
        assemble_taking(ids, rows)
    }

    /// Publishes the index rows of the unit of work.
    pub fn on_commit(&mut self)
        requires
            old(self).wf(),
        ensures
            final(self).wf(),
            final(self).fee_type_gl_mapping_idx_cache@ == old(self).fee_type_gl_mapping_idx_cache@,
            final(self).fee_type_gl_mapping_idx_cache.committed_view() == old(self).fee_type_gl_mapping_idx_cache@,
    {
        self.fee_type_gl_mapping_idx_cache.on_commit();
    }

    /// Discards the index rows of the unit of work.
    pub fn on_rollback(&mut self)
        requires
            old(self).wf(),
        ensures
            final(self).wf(),
            final(self).fee_type_gl_mapping_idx_cache@ == old(self).fee_type_gl_mapping_idx_cache.committed_view(),
            final(self).fee_type_gl_mapping_idx_cache.committed_view() == old(
                self,
            ).fee_type_gl_mapping_idx_cache.committed_view(),
    {
        self.fee_type_gl_mapping_idx_cache.on_rollback();
    }
}

} // verus!
