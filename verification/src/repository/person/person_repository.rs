//! The person repository: audited batch writes of persons, and lookups of
//! their index rows.

use vstd::prelude::*;
use crate::audit::{
    all_have_audit_log, all_present_have_audit_log, created, prepare_create, prepare_delete,
    prepare_update, successor, update_step, RepositoryError, UpdateStep,
};
use crate::cache::{
    index_rows, inserted_all, is_lookup_answer, last_index_of_id, law_inserted_all,
    lemma_last_index_of_id_map, removed_all, IdxModelCache, IndexKey, IndexModel, Indexed,
    TransactionAwareIdxModelCache,
};
use crate::hashing::text_hash;
use crate::ids::Keyed;
use crate::models::person::{PersonIdxModel, PersonModel};
use crate::pagination::{page_slice, paginate, Page, PageRequest};
use crate::repository::common::{cache_added, cache_replaced, changed_records, changed_records_of};

verus! {

/// Person writes and lookups within one unit of work.
pub struct PersonRepositoryImpl {
    pub person_idx_cache: TransactionAwareIdxModelCache<PersonIdxModel>,
}

impl PersonRepositoryImpl {
    pub open spec fn wf(&self) -> bool {
        self.person_idx_cache.wf()
    }

    /// A repository whose unit of work starts from the given committed
    /// person index rows.
    pub fn new(person_idx_cache: IdxModelCache<PersonIdxModel>) -> (r: Self)
        requires
            person_idx_cache.wf(),
        ensures
            r.wf(),
            r.person_idx_cache@ == person_idx_cache@,
            r.person_idx_cache.committed_view() == person_idx_cache@,
    {
        PersonRepositoryImpl { person_idx_cache: TransactionAwareIdxModelCache::new(person_idx_cache) }
    }

    /// The persons a create batch writes (to the person table, its audit
    /// table and its index table), each sealed under the audit log entry.
    /// Refused when no audit log entry is given.
    pub fn prepare_create_batch(&self, items: &Vec<PersonModel>, audit_log_id: Option<u128>) -> (r:
        Result<Vec<PersonModel>, RepositoryError>)
        ensures
            r is Err <==> audit_log_id is None,
            r matches Err(e) ==> e == RepositoryError::MissingAuditLogId,
            r matches Ok(out) ==> {
                &&& out@.len() == items@.len()
                &&& forall|i: int|
                    0 <= i < items@.len() ==> out@[i] == created(items@[i], audit_log_id->0)
            },
    {
        prepare_create(items, audit_log_id)
    }

    /// Once a create batch is written: the index row of each person created
    /// joins the cache.
    pub fn finish_create_batch(&mut self, saved: &Vec<PersonModel>)
        requires
            old(self).wf(),
        ensures
            final(self).wf(),
            final(self).person_idx_cache@ == inserted_all(
                old(self).person_idx_cache@,
                index_rows(saved@),
            ),
            final(self).person_idx_cache.committed_view() == old(
                self,
            ).person_idx_cache.committed_view(),
    {
        cache_added(&mut self.person_idx_cache, saved);
    }

    /// The steps of an update batch: persons unchanged since they were
    /// written are handed back as they are; the others are chained to their
    /// stored version and sealed under the audit log entry. Refused when no
    /// audit log entry is given, or when a person carries none.
    pub fn prepare_update_batch(&self, items: &Vec<PersonModel>, audit_log_id: Option<u128>) -> (r:
        Result<Vec<UpdateStep<PersonModel>>, RepositoryError>)
        ensures
            r is Err <==> (audit_log_id is None || !all_have_audit_log(items@)),
            audit_log_id is None ==> r == Err::<Vec<UpdateStep<PersonModel>>, _>(
                RepositoryError::MissingAuditLogId,
            ),
            audit_log_id is Some && !all_have_audit_log(items@) ==> r == Err::<
                Vec<UpdateStep<PersonModel>>,
                _,
            >(RepositoryError::EntityWithoutAuditLogId),
            r matches Ok(steps) ==> {
                &&& steps@.len() == items@.len()
                &&& forall|i: int|
                    0 <= i < items@.len() ==> steps@[i] == update_step(items@[i], audit_log_id->0)
            },
    {
        prepare_update(items, audit_log_id)
    }

    /// Once an update batch is written: the cached index row of each person
    /// that changed is replaced by its new one.
    pub fn finish_update_batch(&mut self, steps: &Vec<UpdateStep<PersonModel>>)
        requires
            old(self).wf(),
        ensures
            final(self).wf(),
            final(self).person_idx_cache@ == inserted_all(
                old(self).person_idx_cache@,
                index_rows(changed_records(steps@)),
            ),
            final(self).person_idx_cache.committed_view() == old(
                self,
            ).person_idx_cache.committed_view(),
    {
        let changed = changed_records_of(steps);
        cache_replaced(&mut self.person_idx_cache, &changed);
    }

    /// The final versions a delete batch writes to the audit table, aligned
    /// with the persons loaded for the ids: each found person chained to its
    /// stored version. Refused when no audit log entry is given, or when a
    /// person found carries none.
    pub fn prepare_delete_batch(
        &self,
        loaded: &Vec<Option<PersonModel>>,
        audit_log_id: Option<u128>,
    ) -> (r: Result<Vec<Option<PersonModel>>, RepositoryError>)
        ensures
            r is Err <==> (audit_log_id is None || !all_present_have_audit_log(loaded@)),
            audit_log_id is None ==> r == Err::<Vec<Option<PersonModel>>, _>(
                RepositoryError::MissingAuditLogId,
            ),
            audit_log_id is Some && !all_present_have_audit_log(loaded@) ==> r == Err::<
                Vec<Option<PersonModel>>,
                _,
            >(RepositoryError::EntityWithoutAuditLogId),
            r matches Ok(out) ==> {
                &&& out@.len() == loaded@.len()
                &&& forall|i: int|
                    0 <= i < loaded@.len() ==> (#[trigger] out@[i] is Some <==> loaded@[i] is Some)
                &&& forall|i: int|
                    0 <= i < loaded@.len() && loaded@[i] is Some ==> #[trigger] out@[i] == Some(
                        successor(loaded@[i]->0, audit_log_id->0),
                    )
            },
    {
        prepare_delete(loaded, audit_log_id)
    }

    /// Once a delete batch is written: the index rows of every id asked for
    /// leave the cache.
    pub fn finish_delete_batch(&mut self, ids: &[u128])
        requires
            old(self).wf(),
        ensures
            final(self).wf(),
            final(self).person_idx_cache@ == removed_all(old(self).person_idx_cache@, ids@),
            final(self).person_idx_cache.committed_view() == old(
                self,
            ).person_idx_cache.committed_view(),
    {
        self.person_idx_cache.remove_all(ids);
    }

    /// The index rows of the persons whose external identifier hashes to
    /// `external_identifier_hash`.
    pub fn find_by_external_identifier_hash(&self, external_identifier_hash: i64) -> (r: Vec<
        PersonIdxModel,
    >)
        requires
            self.wf(),
        ensures
            is_lookup_answer(
                self.person_idx_cache@,
                |t: PersonIdxModel| t.external_identifier_hash == Some(external_identifier_hash),
                r@,
            ),
            r@ == self.person_idx_cache.entries().filter(
                |t: PersonIdxModel| t.external_identifier_hash == Some(external_identifier_hash),
            ),
    {
        let r = self.person_idx_cache.get_by_i64_index(
            IndexKey::ExternalIdentifierHash,
            external_identifier_hash,
        );
        assert((|t: PersonIdxModel| t.external_identifier_hash == Some(external_identifier_hash)) =~= (|
            t: PersonIdxModel,
        | t.i64_key_value(IndexKey::ExternalIdentifierHash) == Some(external_identifier_hash)));
        r
    }

    /// The index rows of the persons recorded as duplicates of
    /// `duplicate_of_person_id`.
    pub fn find_by_duplicate_of_person_id(&self, duplicate_of_person_id: u128) -> (r: Vec<
        PersonIdxModel,
    >)
        requires
            self.wf(),
        ensures
            is_lookup_answer(
                self.person_idx_cache@,
                |t: PersonIdxModel| t.duplicate_of_person_id == Some(duplicate_of_person_id),
                r@,
            ),
            r@ == self.person_idx_cache.entries().filter(
                |t: PersonIdxModel| t.duplicate_of_person_id == Some(duplicate_of_person_id),
            ),
    {
        let r = self.person_idx_cache.get_by_uuid_index(
            IndexKey::DuplicateOfPersonId,
            duplicate_of_person_id,
        );
        assert((|t: PersonIdxModel| t.duplicate_of_person_id == Some(duplicate_of_person_id)) =~= (|
            t: PersonIdxModel,
        | t.uuid_key_value(IndexKey::DuplicateOfPersonId) == Some(duplicate_of_person_id)));
        r
    }

    /// One page of the index rows of the persons that belong to the
    /// organization `organization_person_id`, with their total count.
    pub fn find_by_organization_person_id(
        &self,
        organization_person_id: u128,
        page: PageRequest,
    ) -> (r: Page<PersonIdxModel>)
        requires
            self.wf(),
        ensures
            is_lookup_answer(
                self.person_idx_cache@,
                |t: PersonIdxModel| t.organization_person_id == Some(organization_person_id),
                self.person_idx_cache.entries().filter(
                    |t: PersonIdxModel| t.organization_person_id == Some(organization_person_id),
                ),
            ),
            r.items@ == page_slice(
                self.person_idx_cache.entries().filter(
                    |t: PersonIdxModel| t.organization_person_id == Some(organization_person_id),
                ),
                page,
            ),
            r.total == self.person_idx_cache.entries().filter(
                |t: PersonIdxModel| t.organization_person_id == Some(organization_person_id),
            ).len(),
            r.limit == page.limit,
            r.offset == page.offset,
    {
        let all = self.person_idx_cache.get_by_uuid_index(
            IndexKey::OrganizationPersonId,
            organization_person_id,
        );
        assert((|t: PersonIdxModel| t.organization_person_id == Some(organization_person_id)) =~= (|
            t: PersonIdxModel,
        | t.uuid_key_value(IndexKey::OrganizationPersonId) == Some(organization_person_id)));
        paginate(&all, page)
    }

    /// Publishes the index rows of the unit of work.
    pub fn on_commit(&mut self)
        requires
            old(self).wf(),
        ensures
            final(self).wf(),
            final(self).person_idx_cache@ == old(self).person_idx_cache@,
            final(self).person_idx_cache.committed_view() == old(self).person_idx_cache@,
    {
        self.person_idx_cache.on_commit();
    }

    /// Discards the index rows of the unit of work.
    pub fn on_rollback(&mut self)
        requires
            old(self).wf(),
        ensures
            final(self).wf(),
            final(self).person_idx_cache@ == old(self).person_idx_cache.committed_view(),
            final(self).person_idx_cache.committed_view() == old(
                self,
            ).person_idx_cache.committed_view(),
    {
        self.person_idx_cache.on_rollback();
    }
}

/// A person written by a create batch with an external identifier is found
/// by the hash of that identifier once the batch is written (unless a later
/// person of the same batch has the same id).
pub proof fn law_created_person_found_by_external_identifier(
    before: Map<u128, PersonIdxModel>,
    saved: Seq<PersonModel>,
    i: int,
    answer: Seq<PersonIdxModel>,
)
    requires
        0 <= i < saved.len(),
        saved[i].external_identifier is Some,
        last_index_of_id(saved, saved[i].id) == i,
        is_lookup_answer(
            inserted_all(before, index_rows(saved)),
            |t: PersonIdxModel|
                t.external_identifier_hash == Some(text_hash(saved[i].external_identifier->0@)),
            answer,
        ),
    ensures
        exists|j: int| 0 <= j < answer.len() && answer[j].id == saved[i].id,
{
    let rows = index_rows(saved);
    let f = |m: PersonModel| m.index_value();
    assert forall|a: PersonModel| #[trigger] f(a).id_value() == a.id_value() by {
        a.lemma_index_id();
    }
    assert(rows == saved.map_values(f));
    lemma_last_index_of_id_map(saved, f, saved[i].id);
    law_inserted_all(before, rows);
    assert(rows[i] == saved[i].index_value());
    assert(rows[i].id_value() == saved[i].id);
    let m = inserted_all(before, rows);
    assert(m.contains_key(saved[i].id));
    assert(m[saved[i].id] == rows[i]);
}

/// Once an update batch is written, a changed person whose external
/// identifier now hashes differently is found by the hash of its new
/// identifier and no longer by the hash of the old one (unless a later
/// person of the same batch has the same id).
pub proof fn law_updated_person_found_by_new_identifier_only(
    before: Map<u128, PersonIdxModel>,
    changed: Seq<PersonModel>,
    i: int,
    old_identifier: Seq<char>,
    answer_new: Seq<PersonIdxModel>,
    answer_old: Seq<PersonIdxModel>,
)
    requires
        0 <= i < changed.len(),
        changed[i].external_identifier is Some,
        last_index_of_id(changed, changed[i].id) == i,
        text_hash(old_identifier) != text_hash(changed[i].external_identifier->0@),
        is_lookup_answer(
            inserted_all(before, index_rows(changed)),
            |t: PersonIdxModel|
                t.external_identifier_hash == Some(text_hash(changed[i].external_identifier->0@)),
            answer_new,
        ),
        is_lookup_answer(
            inserted_all(before, index_rows(changed)),
            |t: PersonIdxModel| t.external_identifier_hash == Some(text_hash(old_identifier)),
            answer_old,
        ),
    ensures
        exists|j: int| 0 <= j < answer_new.len() && answer_new[j].id == changed[i].id,
        forall|j: int| 0 <= j < answer_old.len() ==> answer_old[j].id != changed[i].id,
{
    law_created_person_found_by_external_identifier(before, changed, i, answer_new);
    let rows = index_rows(changed);
    let f = |m: PersonModel| m.index_value();
    assert forall|a: PersonModel| #[trigger] f(a).id_value() == a.id_value() by {
        a.lemma_index_id();
    }
    assert(rows == changed.map_values(f));
    lemma_last_index_of_id_map(changed, f, changed[i].id);
    law_inserted_all(before, rows);
    let m = inserted_all(before, rows);
    assert(rows[i] == changed[i].index_value());
    assert(rows[i].id_value() == changed[i].id);
    assert(m[changed[i].id] == rows[i]);
    assert forall|j: int| 0 <= j < answer_old.len() implies answer_old[j].id != changed[i].id by {
        if answer_old[j].id == changed[i].id {
            assert(m[answer_old[j].id_value()] == answer_old[j]);
        }
    }
}

} // verus!
