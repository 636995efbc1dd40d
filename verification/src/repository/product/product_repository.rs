//! The product repository: audited batch writes of products.

use vstd::prelude::*;
use crate::audit::{
    all_have_audit_log, all_present_have_audit_log, created, prepare_create, prepare_delete,
    prepare_update, successor, update_step, RepositoryError, UpdateStep,
};
use crate::batch::{assemble_taking, taken_slot};
use crate::cache::{
    index_rows, inserted_all, is_lookup_answer, last_index_of_id, law_inserted_all,
    lemma_last_index_of_id_map, removed_all, IdxModelCache, IndexKey, IndexModel, Indexed,
    TransactionAwareIdxModelCache,
};
use crate::ids::Keyed;
use crate::models::product::{law_product_index_row_copies_columns, ProductIdxModel, ProductModel};
use crate::repository::common::{
    cache_added, cache_replaced, changed_records, changed_records_of, present_ids, present_ids_of,
};

verus! {

/// Product writes within one unit of work.
pub struct ProductRepositoryImpl {
    pub product_idx_cache: TransactionAwareIdxModelCache<ProductIdxModel>,
}

impl ProductRepositoryImpl {
    pub open spec fn wf(&self) -> bool {
        self.product_idx_cache.wf()
    }

    /// A repository whose unit of work starts from the given committed
    /// index rows.
    pub fn new(product_idx_cache: IdxModelCache<ProductIdxModel>) -> (r: Self)
        requires
            product_idx_cache.wf(),
        ensures
            r.wf(),
            r.product_idx_cache@ == product_idx_cache@,
            r.product_idx_cache.committed_view() == product_idx_cache@,
    {
        ProductRepositoryImpl { product_idx_cache: TransactionAwareIdxModelCache::new(product_idx_cache) }
    }

    /// The products a create batch writes (to the main, audit and index
    /// tables), each sealed under the audit log entry. Refused when no audit
    /// log entry is given.
    pub fn prepare_create_batch(&self, items: &Vec<ProductModel>, audit_log_id: Option<u128>) -> (r:
        Result<Vec<ProductModel>, RepositoryError>)
        ensures
            r is Err <==> audit_log_id is None,
            r matches Err(e) ==> e == RepositoryError::MissingAuditLogId,
            r matches Ok(out) ==> {
                &&& out@.len() == items@.len()
                &&& forall|i: int|
                    0 <= i < items@.len() ==> out@[i] == created(items@[i], audit_log_id->0)
            },
    {
        prepare_create(items, audit_log_id)
    }

    /// Once a create batch is written: the index row of each product created
    /// joins the cache.
    pub fn finish_create_batch(&mut self, saved: &Vec<ProductModel>)
        requires
            old(self).wf(),
        ensures
            final(self).wf(),
            final(self).product_idx_cache@ == inserted_all(old(self).product_idx_cache@, index_rows(saved@)),
            final(self).product_idx_cache.committed_view() == old(
                self,
            ).product_idx_cache.committed_view(),
    {
        cache_added(&mut self.product_idx_cache, saved);
    }

    /// The steps of an update batch: products unchanged since they were
    /// written are handed back as they are; the others are chained to their
    /// stored version and sealed under the audit log entry. Refused when no
    /// audit log entry is given, or when a product carries none.
    pub fn prepare_update_batch(&self, items: &Vec<ProductModel>, audit_log_id: Option<u128>) -> (r:
        Result<Vec<UpdateStep<ProductModel>>, RepositoryError>)
        ensures
            r is Err <==> (audit_log_id is None || !all_have_audit_log(items@)),
            audit_log_id is None ==> r == Err::<Vec<UpdateStep<ProductModel>>, _>(
                RepositoryError::MissingAuditLogId,
            ),
            audit_log_id is Some && !all_have_audit_log(items@) ==> r == Err::<
                Vec<UpdateStep<ProductModel>>,
                _,
            >(RepositoryError::EntityWithoutAuditLogId),
            r matches Ok(steps) ==> {
                &&& steps@.len() == items@.len()
                &&& forall|i: int|
                    0 <= i < items@.len() ==> steps@[i] == update_step(items@[i], audit_log_id->0)
            },
    {
        prepare_update(items, audit_log_id)
    }

    /// Once an update batch is written: the cached index row of each product
    /// that changed is replaced by its new one.
    pub fn finish_update_batch(&mut self, steps: &Vec<UpdateStep<ProductModel>>)
        requires
            old(self).wf(),
        ensures
            final(self).wf(),
            final(self).product_idx_cache@ == inserted_all(
                old(self).product_idx_cache@,
                index_rows(changed_records(steps@)),
            ),
            final(self).product_idx_cache.committed_view() == old(
                self,
            ).product_idx_cache.committed_view(),
    {
        let changed = changed_records_of(steps);
        cache_replaced(&mut self.product_idx_cache, &changed);
    }

    /// The final versions a delete batch writes to the audit table, aligned
    /// with the products loaded for the ids: each one found chained to its
    /// stored version. Refused when no audit log entry is given, or when a
    /// product found carries none.
    pub fn prepare_delete_batch(&self, loaded: &Vec<Option<ProductModel>>, audit_log_id: Option<u128>) -> (r:
        Result<Vec<Option<ProductModel>>, RepositoryError>)
        ensures
            r is Err <==> (audit_log_id is None || !all_present_have_audit_log(loaded@)),
            audit_log_id is None ==> r == Err::<Vec<Option<ProductModel>>, _>(
                RepositoryError::MissingAuditLogId,
            ),
            audit_log_id is Some && !all_present_have_audit_log(loaded@) ==> r == Err::<
                Vec<Option<ProductModel>>,
                _,
            >(RepositoryError::EntityWithoutAuditLogId),
            r matches Ok(out) ==> {
                &&& out@.len() == loaded@.len()
                &&& forall|i: int|
                    0 <= i < loaded@.len() ==> (#[trigger] out@[i] is Some <==> loaded@[i] is Some)
                &&& forall|i: int|
                    0 <= i < loaded@.len() && loaded@[i] is Some ==> #[trigger] out@[i] == Some(
                        successor(loaded@[i]->0, audit_log_id->0),
                    )
            },
    {
        prepare_delete(loaded, audit_log_id)
    }

    /// Once a delete batch is written: the index rows of every id asked for
    /// leave the cache.
    pub fn finish_delete_batch(&mut self, ids: &[u128])
        requires
            old(self).wf(),
        ensures
            final(self).wf(),
            final(self).product_idx_cache@ == removed_all(old(self).product_idx_cache@, ids@),
            final(self).product_idx_cache.committed_view() == old(
                self,
            ).product_idx_cache.committed_view(),
    {
        self.product_idx_cache.remove_all(ids);
    }

    /// The answer of a batch load, from the rows fetched for the ids: one
    /// entry per id, in order; a row fetched for an id asked for twice answers
    /// the first position only.
    pub fn assemble_load_batch(ids: &[u128], rows: &Vec<ProductModel>) -> (r: Vec<Option<ProductModel>>)
        ensures
            r@.len() == ids@.len(),
            forall|i: int| 0 <= i < ids@.len() ==> #[trigger] r@[i] == taken_slot(ids@, rows@, i),
    {
        assemble_taking(ids, rows)
    }

    /// Publishes the index rows of the unit of work.
    pub fn on_commit(&mut self)
        requires
            old(self).wf(),
        ensures
            final(self).wf(),
            final(self).product_idx_cache@ == old(self).product_idx_cache@,
            final(self).product_idx_cache.committed_view() == old(self).product_idx_cache@,
    {
        self.product_idx_cache.on_commit();
    }

    /// Discards the index rows of the unit of work.
    pub fn on_rollback(&mut self)
        requires
            old(self).wf(),
        ensures
            final(self).wf(),
            final(self).product_idx_cache@ == old(self).product_idx_cache.committed_view(),
            final(self).product_idx_cache.committed_view() == old(
                self,
            ).product_idx_cache.committed_view(),
    {
        self.product_idx_cache.on_rollback();
    }
}

/// Once a batch of products is written (by a create, or the changed ones of
/// an update), the index cache holds, under each product's id, a row with
/// that product's own column values (unless a later product of the same
/// batch has the same id).
pub proof fn law_written_product_indexed_as_written(
    before: Map<u128, ProductIdxModel>,
    written: Seq<ProductModel>,
    i: int,
)
    requires
        0 <= i < written.len(),
        last_index_of_id(written, written[i].id) == i,
    ensures
        inserted_all(before, index_rows(written)).contains_key(written[i].id),
        inserted_all(before, index_rows(written))[written[i].id].id == written[i].id,
        inserted_all(before, index_rows(written))[written[i].id].name == written[i].name,
        inserted_all(before, index_rows(written))[written[i].id].product_type == written[i].product_type,
        inserted_all(before, index_rows(written))[written[i].id].minimum_balance == written[i].minimum_balance,
        inserted_all(before, index_rows(written))[written[i].id].maximum_balance == written[i].maximum_balance,
        inserted_all(before, index_rows(written))[written[i].id].overdraft_allowed == written[i].overdraft_allowed,
        inserted_all(before, index_rows(written))[written[i].id].overdraft_limit == written[i].overdraft_limit,
        inserted_all(before, index_rows(written))[written[i].id].interest_calculation_method == written[i].interest_calculation_method,
        inserted_all(before, index_rows(written))[written[i].id].interest_posting_frequency == written[i].interest_posting_frequency,
        inserted_all(before, index_rows(written))[written[i].id].dormancy_threshold_days == written[i].dormancy_threshold_days,
        inserted_all(before, index_rows(written))[written[i].id].minimum_opening_balance == written[i].minimum_opening_balance,
        inserted_all(before, index_rows(written))[written[i].id].closure_fee == written[i].closure_fee,
        inserted_all(before, index_rows(written))[written[i].id].maintenance_fee == written[i].maintenance_fee,
        inserted_all(before, index_rows(written))[written[i].id].maintenance_fee_frequency == written[i].maintenance_fee_frequency,
        inserted_all(before, index_rows(written))[written[i].id].default_dormancy_days == written[i].default_dormancy_days,
        inserted_all(before, index_rows(written))[written[i].id].default_overdraft_limit == written[i].default_overdraft_limit,
        inserted_all(before, index_rows(written))[written[i].id].per_transaction_limit == written[i].per_transaction_limit,
        inserted_all(before, index_rows(written))[written[i].id].daily_transaction_limit == written[i].daily_transaction_limit,
        inserted_all(before, index_rows(written))[written[i].id].weekly_transaction_limit == written[i].weekly_transaction_limit,
        inserted_all(before, index_rows(written))[written[i].id].monthly_transaction_limit == written[i].monthly_transaction_limit,
        inserted_all(before, index_rows(written))[written[i].id].overdraft_interest_rate == written[i].overdraft_interest_rate,
        inserted_all(before, index_rows(written))[written[i].id].accrual_frequency == written[i].accrual_frequency,
        inserted_all(before, index_rows(written))[written[i].id].interest_rate_tier_1 == written[i].interest_rate_tier_1,
        inserted_all(before, index_rows(written))[written[i].id].interest_rate_tier_2 == written[i].interest_rate_tier_2,
        inserted_all(before, index_rows(written))[written[i].id].interest_rate_tier_3 == written[i].interest_rate_tier_3,
        inserted_all(before, index_rows(written))[written[i].id].interest_rate_tier_4 == written[i].interest_rate_tier_4,
        inserted_all(before, index_rows(written))[written[i].id].interest_rate_tier_5 == written[i].interest_rate_tier_5,
        inserted_all(before, index_rows(written))[written[i].id].account_gl_mapping == written[i].account_gl_mapping,
        inserted_all(before, index_rows(written))[written[i].id].fee_type_gl_mapping == written[i].fee_type_gl_mapping,
        inserted_all(before, index_rows(written))[written[i].id].is_active == written[i].is_active,
        inserted_all(before, index_rows(written))[written[i].id].valid_from == written[i].valid_from,
        inserted_all(before, index_rows(written))[written[i].id].valid_to == written[i].valid_to,
{
    let rows = index_rows(written);
    let f = |m: ProductModel| m.index_value();
    assert forall|a: ProductModel| #[trigger] f(a).id_value() == a.id_value() by {
        a.lemma_index_id();
    }
    assert(rows == written.map_values(f));
    lemma_last_index_of_id_map(written, f, written[i].id);
    law_inserted_all(before, rows);
    assert(rows[i] == written[i].index_value());
    assert(rows[i].id_value() == written[i].id);
    law_product_index_row_copies_columns(written[i]);
}

} // verus!
