//! The audit hash chain followed by every audited write.
//!
//! Each audited record carries its own content hash, the audit log entry that
//! last wrote it, and the hash and audit log entry of the version it
//! replaced. A record is *sealed* when its hash is the hash of its own words
//! taken with the hash field at zero.
//!
//! * creating a record seals it under the new audit log entry;
//! * updating a record leaves it untouched when it is still sealed (nothing
//!   changed since it was written), and otherwise chains it to its previous
//!   version and seals it under the new audit log entry;
//! * deleting a record writes a final version chained to the current one.

use vstd::prelude::*;
use crate::hashing::{hash_of_words, hash_words};
use crate::ids::Keyed;

verus! {

/// A record that takes part in the audit hash chain.
pub trait AuditedModel: Keyed {
    spec fn hash_value(&self) -> i64;

    spec fn audit_log_value(&self) -> Option<u128>;

    spec fn antecedent_hash_value(&self) -> i64;

    spec fn antecedent_audit_log_value(&self) -> u128;

    /// The record with its four audit fields replaced and every other field kept.
    spec fn with_audit(
        self,
        antecedent_hash: i64,
        antecedent_audit_log_id: u128,
        hash: i64,
        audit_log_id: Option<u128>,
    ) -> Self;

    /// The canonical word encoding of every field of the record.
    spec fn words(&self) -> Seq<u64>;

    /// Reading the audit fields back from `with_audit`, and replacing them
    /// twice in a row.
    proof fn lemma_with_audit(
        self,
        antecedent_hash: i64,
        antecedent_audit_log_id: u128,
        hash: i64,
        audit_log_id: Option<u128>,
    )
        ensures
            self.with_audit(antecedent_hash, antecedent_audit_log_id, hash, audit_log_id).id_value()
                == self.id_value(),
            self.with_audit(antecedent_hash, antecedent_audit_log_id, hash, audit_log_id).hash_value()
                == hash,
            self.with_audit(
                antecedent_hash,
                antecedent_audit_log_id,
                hash,
                audit_log_id,
            ).audit_log_value() == audit_log_id,
            self.with_audit(
                antecedent_hash,
                antecedent_audit_log_id,
                hash,
                audit_log_id,
            ).antecedent_hash_value() == antecedent_hash,
            self.with_audit(
                antecedent_hash,
                antecedent_audit_log_id,
                hash,
                audit_log_id,
            ).antecedent_audit_log_value() == antecedent_audit_log_id,
            forall|ah: i64, aa: u128, h: i64, a: Option<u128>|
                #[trigger] self.with_audit(
                    antecedent_hash,
                    antecedent_audit_log_id,
                    hash,
                    audit_log_id,
                ).with_audit(ah, aa, h, a) == self.with_audit(ah, aa, h, a),
            self.with_audit(
                self.antecedent_hash_value(),
                self.antecedent_audit_log_value(),
                self.hash_value(),
                self.audit_log_value(),
            ) == self,
    ;

    fn hash(&self) -> (r: i64)
        ensures
            r == self.hash_value(),
    ;

    fn audit_log_id(&self) -> (r: Option<u128>)
        ensures
            r == self.audit_log_value(),
    ;

    fn antecedent_hash(&self) -> (r: i64)
        ensures
            r == self.antecedent_hash_value(),
    ;

    fn antecedent_audit_log_id(&self) -> (r: u128)
        ensures
            r == self.antecedent_audit_log_value(),
    ;

    fn set_audit(
        &mut self,
        antecedent_hash: i64,
        antecedent_audit_log_id: u128,
        hash: i64,
        audit_log_id: Option<u128>,
    )
        ensures
            *final(self) == old(self).with_audit(
                antecedent_hash,
                antecedent_audit_log_id,
                hash,
                audit_log_id,
            ),
    ;

    fn encode(&self) -> (w: Vec<u64>)
        ensures
            w@ == self.words(),
    ;

}

/// Why an audited batch operation is refused.
#[derive(Clone, Copy, Debug, PartialEq, Eq, Structural)]
pub enum RepositoryError {
    /// The operation needs an audit log entry and none was given.
    MissingAuditLogId,
    /// A record to update or delete carries no audit log entry.
    EntityWithoutAuditLogId,
    /// The stored row no longer matched the version being replaced.
    ConcurrentUpdate,
    /// The unit of work's transaction was already committed or rolled back.
    TransactionConsumed,
}

/// The hash of a record's words taken with its hash field at zero.
pub open spec fn content_hash<T: AuditedModel>(m: T) -> i64 {
    hash_of_words(
        m.with_audit(
            m.antecedent_hash_value(),
            m.antecedent_audit_log_value(),
            0,
            m.audit_log_value(),
        ).words(),
    )
}

/// The record's hash is the hash of its own content.
pub open spec fn is_sealed<T: AuditedModel>(m: T) -> bool {
    content_hash(m) == m.hash_value()
}

/// `m` with the given audit fields and the hash of the result.
pub open spec fn seal<T: AuditedModel>(
    m: T,
    antecedent_hash: i64,
    antecedent_audit_log_id: u128,
    audit_log_id: Option<u128>,
) -> T {
    let unsealed = m.with_audit(antecedent_hash, antecedent_audit_log_id, 0, audit_log_id);
    unsealed.with_audit(
        antecedent_hash,
        antecedent_audit_log_id,
        hash_of_words(unsealed.words()),
        audit_log_id,
    )
}

/// What a create writes: the record sealed under the new audit log entry,
/// its antecedent fields as given.
pub open spec fn created<T: AuditedModel>(m: T, audit_log_id: u128) -> T {
    seal(m, m.antecedent_hash_value(), m.antecedent_audit_log_value(), Some(audit_log_id))
}

/// The next version of a record: chained to the current version and sealed
/// under the new audit log entry. Updates and deletions both write it.
pub open spec fn successor<T: AuditedModel>(m: T, audit_log_id: u128) -> T
    recommends
        m.audit_log_value() is Some,
{
    seal(m, m.hash_value(), m.audit_log_value()->0, Some(audit_log_id))
}

/// The outcome of updating one record.
pub enum UpdateStep<T> {
    /// The record is still sealed: nothing changed, nothing is written.
    Unchanged(T),
    /// The record changed: `record` is written, replacing the stored version
    /// whose hash and audit log entry are given.
    Changed { record: T, previous_hash: i64, previous_audit_log_id: u128 },
}

impl<T> UpdateStep<T> {
    pub open spec fn record_value(self) -> T {
        match self {
            UpdateStep::Unchanged(m) => m,
            UpdateStep::Changed { record, .. } => record,
        }
    }

    /// The record that results from this step.
    pub fn record(&self) -> (r: &T)
        ensures
            *r == self.record_value(),
    {
        match self {
            UpdateStep::Unchanged(m) => m,
            UpdateStep::Changed { record, .. } => record,
        }
    }

    /// Whether this step writes.
    pub fn is_changed(&self) -> (r: bool)
        ensures
            r == (self is Changed),
    {
        match self {
            UpdateStep::Unchanged(_) => false,
            UpdateStep::Changed { .. } => true,
        }
    }
}

/// The step taken for a record that carries an audit log entry.
pub open spec fn update_step<T: AuditedModel>(m: T, audit_log_id: u128) -> UpdateStep<T> {
    if is_sealed(m) {
        UpdateStep::Unchanged(m)
    } else {
        UpdateStep::Changed {
            record: successor(m, audit_log_id),
            previous_hash: m.hash_value(),
            previous_audit_log_id: m.audit_log_value()->0,
        }
    }
}

pub open spec fn all_have_audit_log<T: AuditedModel>(items: Seq<T>) -> bool {
    forall|i: int| 0 <= i < items.len() ==> (#[trigger] items[i]).audit_log_value() is Some
}

pub open spec fn all_present_have_audit_log<T: AuditedModel>(loaded: Seq<Option<T>>) -> bool {
    forall|i: int|
        0 <= i < loaded.len() && (#[trigger] loaded[i]) is Some ==> loaded[i]->0.audit_log_value() is Some
}

/// Seals `m` under the given audit fields.
pub fn seal_record<T: AuditedModel>(
    m: T,
    antecedent_hash: i64,
    antecedent_audit_log_id: u128,
    audit_log_id: Option<u128>,
) -> (r: T)
    ensures
        r == seal(m, antecedent_hash, antecedent_audit_log_id, audit_log_id),
{
    let mut r = m;
    r.set_audit(antecedent_hash, antecedent_audit_log_id, 0, audit_log_id);
    let words = r.encode();
    let h = hash_words(&words);
    r.set_audit(antecedent_hash, antecedent_audit_log_id, h, audit_log_id);
    r
}

/// Whether the record's hash is the hash of its own content.
pub fn check_sealed<T: AuditedModel>(m: &T) -> (r: bool)
    ensures
        r == is_sealed(*m),
{
    let mut probe = m.duplicate();
    probe.set_audit(m.antecedent_hash(), m.antecedent_audit_log_id(), 0, m.audit_log_id());
    let words = probe.encode();
    hash_words(&words) == m.hash()
}

/// The records a create batch writes under a known audit log entry, in
/// order: each sealed under `audit_log_id`.
pub fn prepare_create_under<T: AuditedModel>(items: &Vec<T>, audit_log_id: u128) -> (out: Vec<T>)
    ensures
        out@.len() == items@.len(),
        forall|i: int| 0 <= i < items@.len() ==> out@[i] == created(items@[i], audit_log_id),
{
    let mut out: Vec<T> = Vec::new();
    let n = items.len();
    let mut i: usize = 0;
    while i < n
        invariant
            n == items@.len(),
            i <= n,
            out@.len() == i,
            forall|j: int| 0 <= j < i ==> out@[j] == created(items@[j], audit_log_id),
        decreases n - i,
    {
        let item = items[i].duplicate();
        let ah = item.antecedent_hash();
        let aa = item.antecedent_audit_log_id();
        let sealed = seal_record(item, ah, aa, Some(audit_log_id));
        out.push(sealed);
        i = i + 1;
    }
    out
}

/// The records a create batch writes, in order: each sealed under
/// `audit_log_id`. Refused when no audit log entry is given.
pub fn prepare_create<T: AuditedModel>(items: &Vec<T>, audit_log_id: Option<u128>) -> (r: Result<
    Vec<T>,
    RepositoryError,
>)
    ensures
        r is Err <==> audit_log_id is None,
        r matches Err(e) ==> e == RepositoryError::MissingAuditLogId,
        r matches Ok(out) ==> {
            &&& out@.len() == items@.len()
            &&& forall|i: int|
                0 <= i < items@.len() ==> out@[i] == created(items@[i], audit_log_id->0)
        },
{
    match audit_log_id {
        None => Err(RepositoryError::MissingAuditLogId),
        Some(a) => Ok(prepare_create_under(items, a)),
    }
}

/// The step an update takes for one record that carries an audit log entry.
pub fn update_one<T: AuditedModel>(m: T, audit_log_id: u128) -> (r: UpdateStep<T>)
    requires
        m.audit_log_value() is Some,
    ensures
        r == update_step(m, audit_log_id),
{
    if check_sealed(&m) {
        UpdateStep::Unchanged(m)
    } else {
        let previous_hash = m.hash();
        let previous_audit_log_id = match m.audit_log_id() {
            Some(p) => p,
            None => 0,
        };
        let record = seal_record(m, previous_hash, previous_audit_log_id, Some(audit_log_id));
        UpdateStep::Changed { record, previous_hash, previous_audit_log_id }
    }
}

/// The steps of an update batch under a known audit log entry, in order.
/// Refused when some record carries no audit log entry.
pub fn prepare_update_under<T: AuditedModel>(items: &Vec<T>, audit_log_id: u128) -> (r: Result<
    Vec<UpdateStep<T>>,
    RepositoryError,
>)
    ensures
        r is Err <==> !all_have_audit_log(items@),
        r matches Err(e) ==> e == RepositoryError::EntityWithoutAuditLogId,
        r matches Ok(steps) ==> {
            &&& steps@.len() == items@.len()
            &&& forall|i: int|
                0 <= i < items@.len() ==> steps@[i] == update_step(items@[i], audit_log_id)
        },
{
    let mut steps: Vec<UpdateStep<T>> = Vec::new();
    let n = items.len();
    let mut i: usize = 0;
    while i < n
        invariant
            n == items@.len(),
            i <= n,
            steps@.len() == i,
            forall|j: int| 0 <= j < i ==> (#[trigger] items@[j]).audit_log_value() is Some,
            forall|j: int| 0 <= j < i ==> steps@[j] == update_step(items@[j], audit_log_id),
        decreases n - i,
    {
        if items[i].audit_log_id().is_none() {
            return Err(RepositoryError::EntityWithoutAuditLogId);
        }
        let item = items[i].duplicate();
        let step = update_one(item, audit_log_id);
        steps.push(step);
        i = i + 1;
    }
    Ok(steps)
}

/// The steps of an update batch. Refused when no audit log entry is given,
/// or when some record carries none.
pub fn prepare_update<T: AuditedModel>(items: &Vec<T>, audit_log_id: Option<u128>) -> (r: Result<
    Vec<UpdateStep<T>>,
    RepositoryError,
>)
    ensures
        r is Err <==> (audit_log_id is None || !all_have_audit_log(items@)),
        audit_log_id is None ==> r == Err::<Vec<UpdateStep<T>>, _>(
            RepositoryError::MissingAuditLogId,
        ),
        audit_log_id is Some && !all_have_audit_log(items@) ==> r == Err::<
            Vec<UpdateStep<T>>,
            _,
        >(RepositoryError::EntityWithoutAuditLogId),
        r matches Ok(steps) ==> {
            &&& steps@.len() == items@.len()
            &&& forall|i: int|
                0 <= i < items@.len() ==> steps@[i] == update_step(items@[i], audit_log_id->0)
        },
{
    match audit_log_id {
        None => Err(RepositoryError::MissingAuditLogId),
        Some(a) => prepare_update_under(items, a),
    }
}

/// The final versions a delete batch writes, aligned with the loaded records:
/// for each record found, its successor under `audit_log_id`.
/// Refused when some record found carries no audit log entry.
pub fn prepare_delete_under<T: AuditedModel>(loaded: &Vec<Option<T>>, audit_log_id: u128) -> (r:
    Result<Vec<Option<T>>, RepositoryError>)
    ensures
        r is Err <==> !all_present_have_audit_log(loaded@),
        r matches Err(e) ==> e == RepositoryError::EntityWithoutAuditLogId,
        r matches Ok(out) ==> {
            &&& out@.len() == loaded@.len()
            &&& forall|i: int|
                0 <= i < loaded@.len() ==> (#[trigger] out@[i] is Some <==> loaded@[i] is Some)
            &&& forall|i: int|
                0 <= i < loaded@.len() && loaded@[i] is Some ==> #[trigger] out@[i] == Some(
                    successor(loaded@[i]->0, audit_log_id),
                )
        },
{
    let mut out: Vec<Option<T>> = Vec::new();
    let n = loaded.len();
    let mut i: usize = 0;
    while i < n
        invariant
            n == loaded@.len(),
            i <= n,
            out@.len() == i,
            forall|j: int|
                0 <= j < i && (#[trigger] loaded@[j]) is Some ==> loaded@[j]->0.audit_log_value() is Some,
            forall|j: int| 0 <= j < i ==> (#[trigger] out@[j] is Some <==> loaded@[j] is Some),
            forall|j: int|
                0 <= j < i && loaded@[j] is Some ==> #[trigger] out@[j] == Some(
                    successor(loaded@[j]->0, audit_log_id),
                ),
        decreases n - i,
    {
        match &loaded[i] {
            None => {
                out.push(None);
            },
            Some(m) => {
                let previous_hash = m.hash();
                let previous_audit_log_id = match m.audit_log_id() {
                    Some(p) => p,
                    None => {
                        return Err(RepositoryError::EntityWithoutAuditLogId);
                    },
                };
                let copy = m.duplicate();
                let last = seal_record(copy, previous_hash, previous_audit_log_id, Some(audit_log_id));
                out.push(Some(last));
            },
        }
        i = i + 1;
    }
    Ok(out)
}

/// The final versions a delete batch writes. Refused when no audit log entry
/// is given, or when some record found carries none.
pub fn prepare_delete<T: AuditedModel>(loaded: &Vec<Option<T>>, audit_log_id: Option<u128>) -> (r:
    Result<Vec<Option<T>>, RepositoryError>)
    ensures
        r is Err <==> (audit_log_id is None || !all_present_have_audit_log(loaded@)),
        audit_log_id is None ==> r == Err::<Vec<Option<T>>, _>(
            RepositoryError::MissingAuditLogId,
        ),
        audit_log_id is Some && !all_present_have_audit_log(loaded@) ==> r == Err::<
            Vec<Option<T>>,
            _,
        >(RepositoryError::EntityWithoutAuditLogId),
        r matches Ok(out) ==> {
            &&& out@.len() == loaded@.len()
            &&& forall|i: int|
                0 <= i < loaded@.len() ==> (#[trigger] out@[i] is Some <==> loaded@[i] is Some)
            &&& forall|i: int|
                0 <= i < loaded@.len() && loaded@[i] is Some ==> #[trigger] out@[i] == Some(
                    successor(loaded@[i]->0, audit_log_id->0),
                )
        },
{
    match audit_log_id {
        None => Err(RepositoryError::MissingAuditLogId),
        Some(a) => prepare_delete_under(loaded, a),
    }
}

/// The check made on the row count of a guarded update: the stored row must
/// still have been the version being replaced.
pub fn check_update_applied(rows_affected: u64) -> (r: Result<(), RepositoryError>)
    ensures
        r is Err <==> rows_affected == 0,
        r matches Err(e) ==> e == RepositoryError::ConcurrentUpdate,
{
    if rows_affected == 0 {
        Err(RepositoryError::ConcurrentUpdate)
    } else {
        Ok(())
    }
}


/// Every sealed form of a record is sealed, carries the audit fields it was
/// sealed under, and keeps the record's identity.
pub proof fn lemma_seal<T: AuditedModel>(
    m: T,
    antecedent_hash: i64,
    antecedent_audit_log_id: u128,
    audit_log_id: Option<u128>,
)
    ensures
        is_sealed(seal(m, antecedent_hash, antecedent_audit_log_id, audit_log_id)),
        seal(m, antecedent_hash, antecedent_audit_log_id, audit_log_id).id_value() == m.id_value(),
        seal(m, antecedent_hash, antecedent_audit_log_id, audit_log_id).antecedent_hash_value()
            == antecedent_hash,
        seal(m, antecedent_hash, antecedent_audit_log_id, audit_log_id).antecedent_audit_log_value()
            == antecedent_audit_log_id,
        seal(m, antecedent_hash, antecedent_audit_log_id, audit_log_id).audit_log_value()
            == audit_log_id,
{
    let unsealed = m.with_audit(antecedent_hash, antecedent_audit_log_id, 0, audit_log_id);
    let h = hash_of_words(unsealed.words());
    let s = unsealed.with_audit(antecedent_hash, antecedent_audit_log_id, h, audit_log_id);
    m.lemma_with_audit(antecedent_hash, antecedent_audit_log_id, 0, audit_log_id);
    unsealed.lemma_with_audit(antecedent_hash, antecedent_audit_log_id, h, audit_log_id);
    assert(s.with_audit(antecedent_hash, antecedent_audit_log_id, 0, audit_log_id) == unsealed.with_audit(
        antecedent_hash,
        antecedent_audit_log_id,
        0,
        audit_log_id,
    ));
    assert(unsealed.with_audit(antecedent_hash, antecedent_audit_log_id, 0, audit_log_id) == m.with_audit(
        antecedent_hash,
        antecedent_audit_log_id,
        0,
        audit_log_id,
    ));
}

/// A created record is sealed under the audit log entry of the create, keeps
/// its identity and its antecedent fields.
pub proof fn law_created_is_sealed<T: AuditedModel>(m: T, audit_log_id: u128)
    ensures
        is_sealed(created(m, audit_log_id)),
        created(m, audit_log_id).id_value() == m.id_value(),
        created(m, audit_log_id).audit_log_value() == Some(audit_log_id),
        created(m, audit_log_id).antecedent_hash_value() == m.antecedent_hash_value(),
        created(m, audit_log_id).antecedent_audit_log_value() == m.antecedent_audit_log_value(),
{
    lemma_seal(m, m.antecedent_hash_value(), m.antecedent_audit_log_value(), Some(audit_log_id));
}

/// The next version of a record (written by an update that changed it, and
/// by a delete) is sealed under the new audit log entry and points back to
/// the version it replaces: its antecedent hash is that version's hash and
/// its antecedent audit log entry is that version's audit log entry.
pub proof fn law_successor_chains<T: AuditedModel>(m: T, audit_log_id: u128)
    requires
        m.audit_log_value() is Some,
    ensures
        is_sealed(successor(m, audit_log_id)),
        successor(m, audit_log_id).id_value() == m.id_value(),
        successor(m, audit_log_id).audit_log_value() == Some(audit_log_id),
        successor(m, audit_log_id).antecedent_hash_value() == m.hash_value(),
        successor(m, audit_log_id).antecedent_audit_log_value() == m.audit_log_value()->0,
{
    lemma_seal(m, m.hash_value(), m.audit_log_value()->0, Some(audit_log_id));
}

/// Updating a record exactly as a create returned it writes nothing: the
/// update finds it unchanged and hands it back as it is, whatever audit log
/// entry the update carries.
pub proof fn law_update_after_create_is_unchanged<T: AuditedModel>(
    m: T,
    create_audit_log_id: u128,
    update_audit_log_id: u128,
)
    ensures
        update_step(created(m, create_audit_log_id), update_audit_log_id) == UpdateStep::Unchanged(
            created(m, create_audit_log_id),
        ),
{
    law_created_is_sealed(m, create_audit_log_id);
}

/// Updating again what an update returned writes nothing.
pub proof fn law_update_is_idempotent<T: AuditedModel>(m: T, first: u128, second: u128)
    requires
        m.audit_log_value() is Some,
    ensures
        update_step(m, first).record_value().audit_log_value() is Some,
        update_step(update_step(m, first).record_value(), second) == UpdateStep::Unchanged(
            update_step(m, first).record_value(),
        ),
{
    law_successor_chains(m, first);
}

/// A whole batch returned by a create and passed unchanged to an update:
/// the update refuses nothing and writes nothing.
pub proof fn law_update_batch_after_create_batch<T: AuditedModel>(
    items: Seq<T>,
    create_audit_log_id: u128,
    update_audit_log_id: u128,
)
    ensures
        all_have_audit_log(items.map_values(|m: T| created(m, create_audit_log_id))),
        forall|i: int|
            0 <= i < items.len() ==> update_step(
                #[trigger] created(items[i], create_audit_log_id),
                update_audit_log_id,
            ) == UpdateStep::Unchanged(created(items[i], create_audit_log_id)),
{
    let out = items.map_values(|m: T| created(m, create_audit_log_id));
    assert forall|i: int| 0 <= i < out.len() implies (#[trigger] out[i]).audit_log_value() is Some by {
        law_created_is_sealed(items[i], create_audit_log_id);
    }
    assert forall|i: int| 0 <= i < items.len() implies update_step(
        #[trigger] created(items[i], create_audit_log_id),
        update_audit_log_id,
    ) == UpdateStep::Unchanged(created(items[i], create_audit_log_id)) by {
        law_update_after_create_is_unchanged(items[i], create_audit_log_id, update_audit_log_id);
    }
}

} // verus!
