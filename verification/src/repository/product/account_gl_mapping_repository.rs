//! The account GL mapping repository: audited batch writes, a cache of whole
//! records in front of batch loads, and lookups by account code hash.

use vstd::prelude::*;
use crate::audit::{
    all_have_audit_log, all_present_have_audit_log, created, prepare_create_under, prepare_delete_under,
    prepare_update_under, successor, update_step, RepositoryError, UpdateStep,
};
use crate::batch::{
    cached_slot, fill_from_rows, merged_slot, newly_loaded, split_cached, uncached_ids,
};
use crate::cache::{
    index_rows, inserted_all, is_lookup_answer, last_index_of_id, law_inserted_all,
    law_removed_all_absent, lemma_last_index_of_id_map, removed_all, IdxModelCache, IndexKey, IndexModel, Indexed,
    MainModelCache, TransactionAwareIdxModelCache, TransactionAwareMainModelCache,
};
use crate::hashing::text_hash;
use crate::ids::{is_random_uuid, new_random_id, Keyed};
use crate::models::account_gl_mapping::{AccountGlMappingIdxModel, AccountGlMappingModel};
use crate::repository::common::{cache_added, cache_replaced, step_records, step_records_of};

verus! {

/// The audit log entry an operation runs under: the one given, or else a
/// fresh random one.
pub fn resolve_audit_log_id(audit_log_id: Option<u128>) -> (r: u128)
    ensures
        audit_log_id matches Some(a) ==> r == a,
        audit_log_id is None ==> is_random_uuid(r),
{
    match audit_log_id {
        Some(a) => a,
        None => new_random_id(),
    }
}

/// Account GL mapping writes, loads and lookups within one unit of work.
pub struct AccountGlMappingRepositoryImpl {
    pub account_gl_mapping_idx_cache: TransactionAwareIdxModelCache<AccountGlMappingIdxModel>,
    pub account_gl_mapping_cache: TransactionAwareMainModelCache<AccountGlMappingModel>,
}

impl AccountGlMappingRepositoryImpl {
    pub open spec fn wf(&self) -> bool {
        self.account_gl_mapping_idx_cache.wf() && self.account_gl_mapping_cache.wf()
    }

    /// A repository whose unit of work starts from the given committed index
    /// rows and cached records.
    pub fn new(
        account_gl_mapping_idx_cache: IdxModelCache<AccountGlMappingIdxModel>,
        account_gl_mapping_cache: MainModelCache<AccountGlMappingModel>,
    ) -> (r: Self)
        requires
            account_gl_mapping_idx_cache.wf(),
            account_gl_mapping_cache.wf(),
        ensures
            r.wf(),
            r.account_gl_mapping_idx_cache@ == account_gl_mapping_idx_cache@,
            r.account_gl_mapping_idx_cache.committed_view() == account_gl_mapping_idx_cache@,
            r.account_gl_mapping_cache@ == account_gl_mapping_cache@,
            r.account_gl_mapping_cache.committed_view() == account_gl_mapping_cache@,
    {
        AccountGlMappingRepositoryImpl {
            account_gl_mapping_idx_cache: TransactionAwareIdxModelCache::new(
                account_gl_mapping_idx_cache,
            ),
            account_gl_mapping_cache: TransactionAwareMainModelCache::new(account_gl_mapping_cache),
        }
    }

    /// The mappings a create batch writes, each sealed under the audit log
    /// entry.
    pub fn prepare_create_batch(&self, items: &Vec<AccountGlMappingModel>, audit_log_id: u128) -> (r:
        Vec<AccountGlMappingModel>)
        ensures
            r@.len() == items@.len(),
            forall|i: int| 0 <= i < items@.len() ==> r@[i] == created(items@[i], audit_log_id),
    {
        prepare_create_under(items, audit_log_id)
    }

    /// Once a create batch is written: each mapping's index row and the
    /// mapping itself join the caches.
    pub fn finish_create_batch(&mut self, saved: &Vec<AccountGlMappingModel>)
        requires
            old(self).wf(),
        ensures
            final(self).wf(),
            final(self).account_gl_mapping_idx_cache@ == inserted_all(
                old(self).account_gl_mapping_idx_cache@,
                index_rows(saved@),
            ),
            final(self).account_gl_mapping_cache@ == inserted_all(
                old(self).account_gl_mapping_cache@,
                saved@,
            ),
            final(self).account_gl_mapping_idx_cache.committed_view() == old(
                self,
            ).account_gl_mapping_idx_cache.committed_view(),
            final(self).account_gl_mapping_cache.committed_view() == old(
                self,
            ).account_gl_mapping_cache.committed_view(),
    {
        cache_added(&mut self.account_gl_mapping_idx_cache, saved);
        self.account_gl_mapping_cache.insert_all(saved);
    }

    /// The audit log entry an update batch runs under (the one given, else a
    /// fresh one) and its steps. Refused when a mapping carries no audit log
    /// entry.
    pub fn update_batch_internal(
        &self,
        items: &Vec<AccountGlMappingModel>,
        audit_log_id: Option<u128>,
    ) -> (r: Result<(u128, Vec<UpdateStep<AccountGlMappingModel>>), RepositoryError>)
        ensures
            r is Err <==> !all_have_audit_log(items@),
            r matches Err(e) ==> e == RepositoryError::EntityWithoutAuditLogId,
            r matches Ok((a, steps)) ==> {
                &&& audit_log_id matches Some(given) ==> a == given
                &&& audit_log_id is None ==> is_random_uuid(a)
                &&& steps@.len() == items@.len()
                &&& forall|i: int| 0 <= i < items@.len() ==> steps@[i] == update_step(items@[i], a)
            },
    {
        let a = resolve_audit_log_id(audit_log_id);
        match prepare_update_under(items, a) {
            Ok(steps) => Ok((a, steps)),
            Err(e) => Err(e),
        }
    }

    /// Once an update batch is written: the cached index row of every mapping
    /// of the batch, changed or not, is replaced by its current one.
    pub fn finish_update_batch(&mut self, steps: &Vec<UpdateStep<AccountGlMappingModel>>)
        requires
            old(self).wf(),
        ensures
            final(self).wf(),
            final(self).account_gl_mapping_idx_cache@ == inserted_all(
                old(self).account_gl_mapping_idx_cache@,
                index_rows(step_records(steps@)),
            ),
            final(self).account_gl_mapping_cache@ == old(self).account_gl_mapping_cache@,
            final(self).account_gl_mapping_idx_cache.committed_view() == old(
                self,
            ).account_gl_mapping_idx_cache.committed_view(),
            final(self).account_gl_mapping_cache.committed_view() == old(
                self,
            ).account_gl_mapping_cache.committed_view(),
    {
        let records = step_records_of(steps);
        cache_replaced(&mut self.account_gl_mapping_idx_cache, &records);
    }

    /// A delete batch: the audit log entry it runs under (the one given, else
    /// a fresh one) and the final versions it writes, aligned with the
    /// mappings loaded for the ids, and the count reported (the number of ids
    /// asked for); every id asked for then leaves both the index cache and
    /// the record cache. Refused, with both caches left as
    /// they are, when a mapping found carries no audit log entry.
    pub fn delete_batch_internal(
        &mut self,
        ids: &[u128],
        loaded: &Vec<Option<AccountGlMappingModel>>,
        audit_log_id: Option<u128>,
    ) -> (r: Result<(u128, Vec<Option<AccountGlMappingModel>>, usize), RepositoryError>)
        requires
            old(self).wf(),
        ensures
            final(self).wf(),
            r is Err <==> !all_present_have_audit_log(loaded@),
            r matches Err(e) ==> e == RepositoryError::EntityWithoutAuditLogId,
            r is Err ==> final(self).account_gl_mapping_idx_cache@ == old(
                self,
            ).account_gl_mapping_idx_cache@,
            r is Err ==> final(self).account_gl_mapping_cache@ == old(self).account_gl_mapping_cache@,
            r matches Ok((a, out, count)) ==> {
                &&& audit_log_id matches Some(given) ==> a == given
                &&& audit_log_id is None ==> is_random_uuid(a)
                &&& count == ids@.len()
                &&& out@.len() == loaded@.len()
                &&& forall|i: int|
                    0 <= i < loaded@.len() ==> (#[trigger] out@[i] is Some <==> loaded@[i] is Some)
                &&& forall|i: int|
                    0 <= i < loaded@.len() && loaded@[i] is Some ==> #[trigger] out@[i] == Some(
                        successor(loaded@[i]->0, a),
                    )
                &&& final(self).account_gl_mapping_idx_cache@ == removed_all(
                    old(self).account_gl_mapping_idx_cache@,
                    ids@,
                )
                &&& final(self).account_gl_mapping_cache@ == removed_all(
                    old(self).account_gl_mapping_cache@,
                    ids@,
                )
            },
            final(self).account_gl_mapping_idx_cache.committed_view() == old(
                self,
            ).account_gl_mapping_idx_cache.committed_view(),
            final(self).account_gl_mapping_cache.committed_view() == old(
                self,
            ).account_gl_mapping_cache.committed_view(),
    {
        let a = resolve_audit_log_id(audit_log_id);
        match prepare_delete_under(loaded, a) {
            Ok(out) => {
                self.account_gl_mapping_idx_cache.remove_all(ids);
                self.account_gl_mapping_cache.remove_all(ids);
                Ok((a, out, ids.len()))
            },
            Err(e) => Err(e),
        }
    }

    /// The first half of a batch load: the cached mapping for each id, in
    /// order, and the ids that must still be fetched.
    pub fn load_batch_from_cache(&self, ids: &[u128]) -> (r: (
        Vec<Option<AccountGlMappingModel>>,
        Vec<u128>,
    ))
        requires
            self.wf(),
        ensures
            r.0@.len() == ids@.len(),
            forall|i: int|
                0 <= i < ids@.len() ==> #[trigger] r.0@[i] == cached_slot(
                    self.account_gl_mapping_cache@,
                    ids@[i],
                ),
            r.1@ == uncached_ids(self.account_gl_mapping_cache@, ids@),
    {
        split_cached(&self.account_gl_mapping_cache, ids)
    }

    /// The second half of a batch load: the rows fetched for the missing ids
    /// fill the open positions (each row the first open position asking for
    /// it) and join the record cache.
    pub fn load_batch_from_rows(
        &mut self,
        ids: &[u128],
        partial: Vec<Option<AccountGlMappingModel>>,
        rows: &Vec<AccountGlMappingModel>,
    ) -> (r: Vec<Option<AccountGlMappingModel>>)
        requires
            old(self).wf(),
            partial@.len() == ids@.len(),
        ensures
            final(self).wf(),
            r@.len() == ids@.len(),
            forall|i: int|
                0 <= i < ids@.len() ==> #[trigger] r@[i] == merged_slot(ids@, partial@, rows@, i),
            final(self).account_gl_mapping_cache@ == inserted_all(
                old(self).account_gl_mapping_cache@,
                newly_loaded(ids@, partial@, rows@, ids@.len() as int),
            ),
            final(self).account_gl_mapping_idx_cache@ == old(self).account_gl_mapping_idx_cache@,
            final(self).account_gl_mapping_idx_cache.committed_view() == old(
                self,
            ).account_gl_mapping_idx_cache.committed_view(),
            final(self).account_gl_mapping_cache.committed_view() == old(
                self,
            ).account_gl_mapping_cache.committed_view(),
    {
        fill_from_rows(&mut self.account_gl_mapping_cache, ids, partial, rows)
    }

    /// The index rows of the mappings whose customer account code hashes to
    /// `hash`.
    pub fn find_by_customer_account_code_hash(&self, hash: i64) -> (r: Vec<
        AccountGlMappingIdxModel,
    >)
        requires
            self.wf(),
        ensures
            is_lookup_answer(
                self.account_gl_mapping_idx_cache@,
                |t: AccountGlMappingIdxModel| t.customer_account_code_hash == hash,
                r@,
            ),
            r@ == self.account_gl_mapping_idx_cache.entries().filter(
                |t: AccountGlMappingIdxModel| t.customer_account_code_hash == hash,
            ),
    {
        let r = self.account_gl_mapping_idx_cache.get_by_i64_index(
            IndexKey::CustomerAccountCodeHash,
            hash,
        );
        assert((|t: AccountGlMappingIdxModel| t.customer_account_code_hash == hash) =~= (|
            t: AccountGlMappingIdxModel,
        | t.i64_key_value(IndexKey::CustomerAccountCodeHash) == Some(hash)));
        r
    }

    /// Publishes both caches of the unit of work.
    pub fn on_commit(&mut self)
        requires
            old(self).wf(),
        ensures
            final(self).wf(),
            final(self).account_gl_mapping_idx_cache@ == old(self).account_gl_mapping_idx_cache@,
            final(self).account_gl_mapping_idx_cache.committed_view() == old(
                self,
            ).account_gl_mapping_idx_cache@,
            final(self).account_gl_mapping_cache@ == old(self).account_gl_mapping_cache@,
            final(self).account_gl_mapping_cache.committed_view() == old(
                self,
            ).account_gl_mapping_cache@,
    {
        self.account_gl_mapping_idx_cache.on_commit();
        self.account_gl_mapping_cache.on_commit();
    }

    /// Discards both caches of the unit of work.
    pub fn on_rollback(&mut self)
        requires
            old(self).wf(),
        ensures
            final(self).wf(),
            final(self).account_gl_mapping_idx_cache@ == old(
                self,
            ).account_gl_mapping_idx_cache.committed_view(),
            final(self).account_gl_mapping_idx_cache.committed_view() == old(
                self,
            ).account_gl_mapping_idx_cache.committed_view(),
            final(self).account_gl_mapping_cache@ == old(
                self,
            ).account_gl_mapping_cache.committed_view(),
            final(self).account_gl_mapping_cache.committed_view() == old(
                self,
            ).account_gl_mapping_cache.committed_view(),
    {
        self.account_gl_mapping_idx_cache.on_rollback();
        self.account_gl_mapping_cache.on_rollback();
    }
}

/// A mapping written by a create batch is answered by a later batch load
/// from the record cache, as it was written (unless a later mapping of the
/// same batch has the same id).
pub proof fn law_created_mapping_loads_from_cache(
    before: Map<u128, AccountGlMappingModel>,
    saved: Seq<AccountGlMappingModel>,
    i: int,
)
    requires
        0 <= i < saved.len(),
        last_index_of_id(saved, saved[i].id) == i,
    ensures
        cached_slot(inserted_all(before, saved), saved[i].id) == Some(saved[i]),
{
    law_inserted_all(before, saved);
    assert(saved[i].id_value() == saved[i].id);
}

/// A mapping written by a create batch is found by the hash of its customer
/// account code once the batch is written (unless a later mapping of the
/// same batch has the same id).
pub proof fn law_created_mapping_found_by_account_code(
    before: Map<u128, AccountGlMappingIdxModel>,
    saved: Seq<AccountGlMappingModel>,
    i: int,
    answer: Seq<AccountGlMappingIdxModel>,
)
    requires
        0 <= i < saved.len(),
        last_index_of_id(saved, saved[i].id) == i,
        is_lookup_answer(
            inserted_all(before, index_rows(saved)),
            |t: AccountGlMappingIdxModel|
                t.customer_account_code_hash == text_hash(saved[i].customer_account_code@),
            answer,
        ),
    ensures
        exists|j: int| 0 <= j < answer.len() && answer[j].id == saved[i].id,
{
    let rows = index_rows(saved);
    let f = |m: AccountGlMappingModel| m.index_value();
    assert forall|a: AccountGlMappingModel| #[trigger] f(a).id_value() == a.id_value() by {
        a.lemma_index_id();
    }
    assert(rows == saved.map_values(f));
    lemma_last_index_of_id_map(saved, f, saved[i].id);
    law_inserted_all(before, rows);
    assert(rows[i] == saved[i].index_value());
    let m = inserted_all(before, rows);
    assert(m.contains_key(saved[i].id));
    assert(m[saved[i].id] == rows[i]);
}

/// Once a delete batch is written, neither cache holds any id it was asked
/// for: a later batch load answers none of them from the record cache.
pub proof fn law_deleted_mappings_not_cached(
    records_before: Map<u128, AccountGlMappingModel>,
    index_before: Map<u128, AccountGlMappingIdxModel>,
    ids: Seq<u128>,
)
    ensures
        forall|i: int|
            0 <= i < ids.len() ==> {
                &&& cached_slot(removed_all(records_before, ids), #[trigger] ids[i]) is None
                &&& !removed_all(index_before, ids).contains_key(ids[i])
            },
{
    law_removed_all_absent(records_before, ids);
    law_removed_all_absent(index_before, ids);
}

} // verus!
