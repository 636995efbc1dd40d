//! Cache bookkeeping shared by the repositories.

use vstd::prelude::*;
use crate::audit::UpdateStep;
use crate::batch::taken_slot;
use crate::cache::{
    inserted_all, index_rows, keyed_map, removed_all, Indexed, TransactionAwareIdxModelCache,
};
use crate::ids::Keyed;

verus! {

/// The records an update batch changed, in order.
pub open spec fn changed_records<M>(steps: Seq<UpdateStep<M>>) -> Seq<M>
    decreases steps.len(),
{
    if steps.len() == 0 {
        Seq::empty()
    } else {
        let rest = changed_records(steps.drop_last());
        match steps.last() {
            UpdateStep::Changed { record, .. } => rest.push(record),
            UpdateStep::Unchanged(_) => rest,
        }
    }
}

/// The record each step of an update batch results in, in order.
pub open spec fn step_records<M>(steps: Seq<UpdateStep<M>>) -> Seq<M> {
    steps.map_values(|s: UpdateStep<M>| s.record_value())
}

/// The index rows of the given records.
pub fn index_rows_of<M: Indexed>(records: &Vec<M>) -> (rows: Vec<M::Idx>)
    ensures
        rows@ == index_rows(records@),
{
    let mut rows: Vec<M::Idx> = Vec::new();
    let n = records.len();
    let mut i: usize = 0;
    while i < n
        invariant
            n == records@.len(),
            i <= n,
            rows@ == index_rows(records@.take(i as int)),
        decreases n - i,
    {
        rows.push(records[i].to_index());
        assert(index_rows(records@.take(i as int + 1)) =~= index_rows(records@.take(i as int)).push(
            records@[i as int].index_value(),
        ));
        i = i + 1;
    }
    assert(records@.take(n as int) =~= records@);
    rows
}

/// The records an update batch changed, in order.
pub fn changed_records_of<M: Keyed>(steps: &Vec<UpdateStep<M>>) -> (out: Vec<M>)
    ensures
        out@ == changed_records(steps@),
{
    let mut out: Vec<M> = Vec::new();
    let n = steps.len();
    let mut i: usize = 0;
    while i < n
        invariant
            n == steps@.len(),
            i <= n,
            out@ == changed_records(steps@.take(i as int)),
        decreases n - i,
    {
        assert(steps@.take(i as int + 1).drop_last() =~= steps@.take(i as int));
        match &steps[i] {
            UpdateStep::Changed { record, .. } => {
                out.push(record.duplicate());
            },
            UpdateStep::Unchanged(_) => {},
        }
        i = i + 1;
    }
    assert(steps@.take(n as int) =~= steps@);
    out
}

/// The record each step of an update batch results in, in order.
pub fn step_records_of<M: Keyed>(steps: &Vec<UpdateStep<M>>) -> (out: Vec<M>)
    ensures
        out@ == step_records(steps@),
{
    let mut out: Vec<M> = Vec::new();
    let n = steps.len();
    let mut i: usize = 0;
    while i < n
        invariant
            n == steps@.len(),
            i <= n,
            out@ == step_records(steps@.take(i as int)),
        decreases n - i,
    {
        out.push(steps[i].record().duplicate());
        assert(step_records(steps@.take(i as int + 1)) =~= step_records(steps@.take(i as int)).push(
            steps@[i as int].record_value(),
        ));
        i = i + 1;
    }
    assert(steps@.take(n as int) =~= steps@);
    out
}

/// Adds the index row of each record to the cache, in order.
pub fn cache_added<M: Indexed>(cache: &mut TransactionAwareIdxModelCache<M::Idx>, records: &Vec<M>)
    requires
        old(cache).wf(),
    ensures
        final(cache).wf(),
        final(cache)@ == inserted_all(old(cache)@, index_rows(records@)),
        final(cache).committed_view() == old(cache).committed_view(),
{
    let rows = index_rows_of(records);
    cache.add_all(rows);
}

/// Replaces, in order, the cached index row of each record by its current
/// one: the old row is dropped, then the new row is added.
pub fn cache_replaced<M: Indexed>(cache: &mut TransactionAwareIdxModelCache<M::Idx>, records: &Vec<M>)
    requires
        old(cache).wf(),
    ensures
        final(cache).wf(),
        final(cache)@ == inserted_all(old(cache)@, index_rows(records@)),
        final(cache).committed_view() == old(cache).committed_view(),
{
    let rows = index_rows_of(records);
    let n = records.len();
    let mut i: usize = 0;
    while i < n
        invariant
            n == records@.len(),
            rows@ == index_rows(records@),
            i <= n,
            cache.wf(),
            cache@ == inserted_all(old(cache)@, index_rows(records@).take(i as int)),
            cache.committed_view() == old(cache).committed_view(),
        decreases n - i,
    {
        let ghost before = cache@;
        let row = rows[i].duplicate();
        proof {
            records@[i as int].lemma_index_id();
        }
        cache.remove(records[i].id());
        cache.add(row);
        assert(index_rows(records@).take(i as int + 1).drop_last() =~= index_rows(records@).take(i as int));
        assert(cache@ =~= before.insert(rows@[i as int].id_value(), rows@[i as int]));
        i = i + 1;
    }
    assert(index_rows(records@).take(n as int) =~= index_rows(records@));
}

/// The ids of the records found, in order.
pub open spec fn present_ids<M: Keyed>(loaded: Seq<Option<M>>) -> Seq<u128>
    decreases loaded.len(),
{
    if loaded.len() == 0 {
        Seq::empty()
    } else {
        let rest = present_ids(loaded.drop_last());
        match loaded.last() {
            Some(m) => rest.push(m.id_value()),
            None => rest,
        }
    }
}

/// Some record found has primary id `x`.
pub open spec fn is_found_id<M: Keyed>(loaded: Seq<Option<M>>, x: u128) -> bool {
    exists|k: int| 0 <= k < loaded.len() && (#[trigger] loaded[k]) is Some && loaded[k]->0.id_value() == x
}

/// Every record found has its id among `present_ids`, and every id there is
/// the id of a record found.
pub proof fn lemma_present_ids<M: Keyed>(loaded: Seq<Option<M>>)
    ensures
        forall|i: int|
            0 <= i < loaded.len() && (#[trigger] loaded[i]) is Some ==> present_ids(loaded).contains(
                loaded[i]->0.id_value(),
            ),
        forall|j: int|
            0 <= j < present_ids(loaded).len() ==> is_found_id(loaded, #[trigger] present_ids(loaded)[j]),
    decreases loaded.len(),
{
    if loaded.len() > 0 {
        let prefix = loaded.drop_last();
        lemma_present_ids(prefix);
        let rest = present_ids(prefix);
        if loaded.last() is Some {
            assert(present_ids(loaded) == rest.push(loaded.last()->0.id_value()));
        } else {
            assert(present_ids(loaded) == rest);
        }
        assert forall|i: int|
            0 <= i < loaded.len() && (#[trigger] loaded[i]) is Some implies present_ids(loaded).contains(
            loaded[i]->0.id_value(),
        ) by {
            if i < loaded.len() - 1 {
                assert(prefix[i] == loaded[i]);
                assert(rest.contains(prefix[i]->0.id_value()));
                let j = choose|j: int| 0 <= j < rest.len() && rest[j] == loaded[i]->0.id_value();
                if loaded.last() is Some {
                    assert(present_ids(loaded)[j] == rest[j]);
                } else {
                    assert(present_ids(loaded)[j] == rest[j]);
                }
            } else {
                assert(present_ids(loaded)[rest.len() as int] == loaded[i]->0.id_value());
            }
        }
        assert forall|j: int| 0 <= j < present_ids(loaded).len() implies is_found_id(
            loaded,
            #[trigger] present_ids(loaded)[j],
        ) by {
            if j < rest.len() {
                assert(rest[j] == present_ids(prefix)[j]);
                assert(is_found_id(prefix, present_ids(prefix)[j]));
                let i = choose|i: int|
                    0 <= i < prefix.len() && (#[trigger] prefix[i]) is Some && prefix[i]->0.id_value()
                        == present_ids(prefix)[j];
                assert(loaded[i] == prefix[i]);
                assert(present_ids(loaded)[j] == rest[j]);
            } else {
                assert(loaded[loaded.len() - 1] is Some);
                assert(loaded[loaded.len() - 1]->0.id_value() == present_ids(loaded)[j]);
            }
        }
    }
}

/// The ids of the records found, in order.
pub fn present_ids_of<M: Keyed>(loaded: &Vec<Option<M>>) -> (ids: Vec<u128>)
    ensures
        ids@ == present_ids(loaded@),
        forall|i: int|
            0 <= i < loaded@.len() && (#[trigger] loaded@[i]) is Some ==> ids@.contains(
                loaded@[i]->0.id_value(),
            ),
        forall|j: int| 0 <= j < ids@.len() ==> is_found_id(loaded@, #[trigger] ids@[j]),
{
    let mut out: Vec<u128> = Vec::new();
    let n = loaded.len();
    let mut pos: usize = 0;
    while pos < n
        invariant
            n == loaded@.len(),
            pos <= n,
            out@ == present_ids(loaded@.take(pos as int)),
        decreases n - pos,
    {
        assert(loaded@.take(pos as int + 1).drop_last() =~= loaded@.take(pos as int));
        match &loaded[pos] {
            Some(m) => {
                out.push(m.id());
            },
            None => {},
        }
        pos = pos + 1;
    }
    assert(loaded@.take(n as int) =~= loaded@);
    proof {
        lemma_present_ids(loaded@);
        assert forall|j: int| 0 <= j < out@.len() implies is_found_id(loaded@, #[trigger] out@[j]) by {
            assert(out@[j] == present_ids(loaded@)[j]);
        }
    }
    out
}

/// The ids of `ids` the cache holds, in order.
pub open spec fn cached_ids<T>(m: Map<u128, T>, ids: Seq<u128>) -> Seq<u128>
    decreases ids.len(),
{
    if ids.len() == 0 {
        Seq::empty()
    } else {
        let rest = cached_ids(m, ids.drop_last());
        if m.contains_key(ids.last()) {
            rest.push(ids.last())
        } else {
            rest
        }
    }
}

/// The ids of `ids` the cache does not hold, in order.
pub open spec fn uncached_id_list<T>(m: Map<u128, T>, ids: Seq<u128>) -> Seq<u128>
    decreases ids.len(),
{
    if ids.len() == 0 {
        Seq::empty()
    } else {
        let rest = uncached_id_list(m, ids.drop_last());
        if m.contains_key(ids.last()) {
            rest
        } else {
            rest.push(ids.last())
        }
    }
}

/// Each id looked up, with whether the lookup found it.
pub open spec fn exist_answer(ids: Seq<u128>, found: Seq<u128>) -> Seq<(u128, bool)> {
    ids.map_values(|id: u128| (id, found.contains(id)))
}

proof fn lemma_split_ids<T>(m: Map<u128, T>, ids: Seq<u128>)
    ensures
        cached_ids(m, ids).len() + uncached_id_list(m, ids).len() == ids.len(),
        forall|x: u128| #[trigger] cached_ids(m, ids).contains(x) ==> ids.contains(x) && m.contains_key(x),
        forall|x: u128|
            #[trigger] uncached_id_list(m, ids).contains(x) ==> ids.contains(x) && !m.contains_key(x),
        forall|k: u128|
            #[trigger] ids.contains(k) ==> (if m.contains_key(k) {
                cached_ids(m, ids).contains(k)
            } else {
                uncached_id_list(m, ids).contains(k)
            }),
    decreases ids.len(),
{
    if ids.len() > 0 {
        let prefix = ids.drop_last();
        let last = ids.last();
        lemma_split_ids(m, prefix);
        let c = cached_ids(m, prefix);
        let u = uncached_id_list(m, prefix);
        assert forall|x: u128| #[trigger] prefix.contains(x) implies ids.contains(x) by {
            let j = choose|j: int| 0 <= j < prefix.len() && prefix[j] == x;
            assert(ids[j] == x);
        }
        assert(ids[ids.len() - 1] == last);
        assert(ids.contains(last));
        assert forall|x: u128| #[trigger] cached_ids(m, ids).contains(x) implies ids.contains(x) && m.contains_key(x) by {
            if m.contains_key(last) {
                assert(cached_ids(m, ids) == c.push(last));
                if x != last {
                    let j = choose|j: int| 0 <= j < c.len() + 1 && c.push(last)[j] == x;
                    assert(c[j] == x);
                    assert(c.contains(x));
                    assert(prefix.contains(x));
                }
            } else {
                assert(cached_ids(m, ids) == c);
                assert(prefix.contains(x));
            }
        }
        assert forall|x: u128| #[trigger] uncached_id_list(m, ids).contains(x) implies ids.contains(x) && !m.contains_key(x) by {
            if !m.contains_key(last) {
                assert(uncached_id_list(m, ids) == u.push(last));
                if x != last {
                    let j = choose|j: int| 0 <= j < u.len() + 1 && u.push(last)[j] == x;
                    assert(u[j] == x);
                    assert(u.contains(x));
                    assert(prefix.contains(x));
                }
            } else {
                assert(uncached_id_list(m, ids) == u);
                assert(prefix.contains(x));
            }
        }
        assert forall|k: u128| #[trigger] ids.contains(k) implies (if m.contains_key(k) {
            cached_ids(m, ids).contains(k)
        } else {
            uncached_id_list(m, ids).contains(k)
        }) by {
            let j = choose|j: int| 0 <= j < ids.len() && ids[j] == k;
            if j < ids.len() - 1 {
                assert(prefix[j] == k);
                assert(prefix.contains(k));
                if m.contains_key(k) {
                    let a = choose|a: int| 0 <= a < c.len() && c[a] == k;
                    if m.contains_key(last) {
                        assert(c.push(last)[a] == k);
                    }
                } else {
                    let a = choose|a: int| 0 <= a < u.len() && u[a] == k;
                    if !m.contains_key(last) {
                        assert(u.push(last)[a] == k);
                    }
                }
            } else {
                if m.contains_key(k) {
                    assert(c.push(last)[c.len() as int] == k);
                } else {
                    assert(u.push(last)[u.len() as int] == k);
                }
            }
        }
    }
}

/// An existence check answered first from the cache and then from the
/// table answers as many ids as were asked for; every id asked for is
/// answered, and an id is answered `true` exactly when the cache holds it or
/// the table was found to hold it.
pub proof fn law_exist_answer_is_complete<T>(m: Map<u128, T>, ids: Seq<u128>, found: Seq<u128>)
    ensures
        ({
            let answer = cached_ids(m, ids).map_values(|id: u128| (id, true)) + exist_answer(
                uncached_id_list(m, ids),
                found,
            );
            &&& answer.len() == ids.len()
            &&& forall|j: int|
                0 <= j < answer.len() ==> ids.contains((#[trigger] answer[j]).0) && answer[j].1 == (
                m.contains_key(answer[j].0) || found.contains(answer[j].0))
            &&& forall|k: u128|
                #[trigger] ids.contains(k) ==> exists|j: int| 0 <= j < answer.len() && answer[j].0 == k
        }),
{
    lemma_split_ids(m, ids);
    let c = cached_ids(m, ids);
    let u = uncached_id_list(m, ids);
    let hits = c.map_values(|id: u128| (id, true));
    let rest = exist_answer(u, found);
    let answer = hits + rest;
    assert forall|j: int| 0 <= j < answer.len() implies ids.contains((#[trigger] answer[j]).0) && answer[j].1 == (
    m.contains_key(answer[j].0) || found.contains(answer[j].0)) by {
        if j < hits.len() {
            assert(answer[j] == hits[j]);
            assert(c.contains(c[j]));
        } else {
            let q = j - hits.len();
            assert(answer[j] == rest[q]);
            assert(u.contains(u[q]));
        }
    }
    assert forall|k: u128| #[trigger] ids.contains(k) implies exists|j: int|
        0 <= j < answer.len() && answer[j].0 == k by {
        if m.contains_key(k) {
            let a = choose|a: int| 0 <= a < c.len() && c[a] == k;
            assert(answer[a] == hits[a]);
        } else {
            let a = choose|a: int| 0 <= a < u.len() && u[a] == k;
            assert(answer[hits.len() + a] == rest[a]);
        }
    }
}

/// The index rows hold exactly the ids of the stored records, each row the
/// index row of its record.
pub open spec fn index_in_step<M: Indexed>(table: Map<u128, M>, index: Map<u128, M::Idx>) -> bool {
    &&& forall|k: u128| #[trigger] index.contains_key(k) <==> table.contains_key(k)
    &&& forall|k: u128| #[trigger] table.contains_key(k) ==> index[k] == table[k].index_value()
}

/// Writing records to the table and their index rows to the index cache, in
/// the same order, keeps the two in step; so does removing the same ids from
/// both.
pub proof fn law_index_follows_table<M: Indexed>(
    table: Map<u128, M>,
    index: Map<u128, M::Idx>,
    written: Seq<M>,
    removed: Seq<u128>,
)
    requires
        index_in_step(table, index),
    ensures
        index_in_step(inserted_all(table, written), inserted_all(index, index_rows(written))),
        index_in_step(removed_all(table, removed), removed_all(index, removed)),
    decreases written.len(),
{
    if written.len() > 0 {
        let prefix = written.drop_last();
        let x = written.last();
        law_index_follows_table(table, index, prefix, removed);
        assert(index_rows(written).drop_last() =~= index_rows(prefix));
        assert(index_rows(written).last() == x.index_value());
        x.lemma_index_id();
        let t = inserted_all(table, written);
        let i = inserted_all(index, index_rows(written));
        assert(t == inserted_all(table, prefix).insert(x.id_value(), x));
        assert(i == inserted_all(index, index_rows(prefix)).insert(x.id_value(), x.index_value()));
    }
    let tr = removed_all(table, removed);
    let ir = removed_all(index, removed);
    assert forall|k: u128| #[trigger] ir.contains_key(k) <==> tr.contains_key(k) by {}
    assert forall|k: u128| #[trigger] tr.contains_key(k) implies ir[k] == tr[k].index_value() by {}
}

/// A batch load of distinct ids, from the rows the table holds for them,
/// answers each id with the record the table holds for it, or `None` where
/// it holds none.
pub proof fn law_load_answers_table<M: Keyed>(
    table: Map<u128, M>,
    ids: Seq<u128>,
    rows: Seq<M>,
    i: int,
)
    requires
        0 <= i < ids.len(),
        forall|a: int, b: int| 0 <= a < b < ids.len() ==> ids[a] != ids[b],
        forall|k: u128|
            #[trigger] keyed_map(rows).contains_key(k) <==> (table.contains_key(k) && ids.contains(k)),
        forall|k: u128| #[trigger] keyed_map(rows).contains_key(k) ==> keyed_map(rows)[k] == table[k],
    ensures
        taken_slot(ids, rows, i) == (if table.contains_key(ids[i]) {
            Some(table[ids[i]])
        } else {
            None::<M>
        }),
{
    assert(ids.contains(ids[i]));
    assert forall|j: int| 0 <= j < i implies ids[j] != ids[i] by {}
}

} // verus!
