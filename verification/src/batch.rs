//! Putting the rows a batch load fetched back in the order of the ids asked for.

use vstd::prelude::*;
use crate::cache::{
    inserted_all, keyed_map, last_index_of_id, lemma_keyed_map_ids, lemma_last_index_of_id_hit,
    KeyedStore, TransactionAwareMainModelCache,
};
use crate::ids::Keyed;

verus! {

/// No earlier position of `ids` holds the id at position `i`.
pub open spec fn is_first_occurrence(ids: Seq<u128>, i: int) -> bool {
    forall|j: int| 0 <= j < i ==> ids[j] != ids[i]
}

/// What a load answers at position `i` when each fetched row is handed out
/// once: the row fetched for the id, at the first position asking for it.
pub open spec fn taken_slot<T: Keyed>(ids: Seq<u128>, rows: Seq<T>, i: int) -> Option<T> {
    if is_first_occurrence(ids, i) && keyed_map(rows).contains_key(ids[i]) {
        Some(keyed_map(rows)[ids[i]])
    } else {
        None
    }
}

/// What a load answers at position `i` when a fetched row answers every
/// position asking for its id.
pub open spec fn shared_slot<T: Keyed>(ids: Seq<u128>, rows: Seq<T>, i: int) -> Option<T> {
    if keyed_map(rows).contains_key(ids[i]) {
        Some(keyed_map(rows)[ids[i]])
    } else {
        None
    }
}

/// Some fetched row has primary id `k`.
pub open spec fn has_row_for<T: Keyed>(rows: Seq<T>, k: u128) -> bool {
    exists|j: int| 0 <= j < rows.len() && (#[trigger] rows[j]).id_value() == k
}

/// The row `keyed_map` keeps for an id is a fetched row with that id.
pub proof fn lemma_keyed_map_row<T: Keyed>(rows: Seq<T>, k: u128)
    ensures
        keyed_map(rows).contains_key(k) <==> has_row_for(rows, k),
        keyed_map(rows).contains_key(k) ==> keyed_map(rows)[k].id_value() == k && rows.contains(
            keyed_map(rows)[k],
        ),
{
    if keyed_map(rows).contains_key(k) {
        lemma_last_index_of_id_hit(rows, k);
        assert(rows[last_index_of_id(rows, k)] == keyed_map(rows)[k]);
    }
}

/// One answer per id asked for, in order: the row fetched for it, or `None`.
/// A row fetched for an id asked for twice answers the first position only.
pub fn assemble_taking<T: Keyed>(ids: &[u128], rows: &Vec<T>) -> (r: Vec<Option<T>>)
    ensures
        r@.len() == ids@.len(),
        forall|i: int| 0 <= i < ids@.len() ==> #[trigger] r@[i] == taken_slot(ids@, rows@, i),
        forall|i: int|
            0 <= i < ids@.len() ==> ((#[trigger] r@[i]) is Some <==> (is_first_occurrence(ids@, i)
                && has_row_for(rows@, ids@[i]))),
        forall|i: int|
            0 <= i < ids@.len() && (#[trigger] r@[i]) is Some ==> r@[i]->0.id_value() == ids@[i]
                && rows@.contains(r@[i]->0),
{
    let r = assemble_taking_slots(ids, rows);
    proof {
        assert forall|i: int| 0 <= i < ids@.len() implies ((#[trigger] r@[i]) is Some <==> (
        is_first_occurrence(ids@, i) && has_row_for(rows@, ids@[i]))) && (r@[i] is Some
            ==> r@[i]->0.id_value() == ids@[i] && rows@.contains(r@[i]->0)) by {
            lemma_keyed_map_row(rows@, ids@[i]);
        }
    }
    r
}

fn assemble_taking_slots<T: Keyed>(ids: &[u128], rows: &Vec<T>) -> (r: Vec<Option<T>>)
    ensures
        r@.len() == ids@.len(),
        forall|i: int| 0 <= i < ids@.len() ==> #[trigger] r@[i] == taken_slot(ids@, rows@, i),
{
    let mut store = KeyedStore::from_rows(rows);
    let ghost km = keyed_map(rows@);
    let mut out: Vec<Option<T>> = Vec::new();
    let n = ids.len();
    let mut i: usize = 0;
    while i < n
        invariant
            n == ids@.len(),
            i <= n,
            km == keyed_map(rows@),
            store.wf(),
            out@.len() == i,
            forall|k: u128|
                #[trigger] store@.contains_key(k) <==> (km.contains_key(k) && forall|j: int|
                    0 <= j < i ==> ids@[j] != k),
            forall|k: u128| #[trigger] store@.contains_key(k) ==> store@[k] == km[k],
            forall|j: int| 0 <= j < i ==> #[trigger] out@[j] == taken_slot(ids@, rows@, j),
        decreases n - i,
    {
        let id = ids[i];
        let got = store.get(id);
        store.remove(id);
        out.push(got);
        proof {
            assert(out@[i as int] == taken_slot(ids@, rows@, i as int));
            assert forall|k: u128| #[trigger] store@.contains_key(k) <==> (km.contains_key(k)
                && forall|j: int| 0 <= j < i + 1 ==> ids@[j] != k) by {
                if k != id && km.contains_key(k) && (forall|j: int| 0 <= j < i ==> ids@[j] != k) {
                    assert forall|j: int| 0 <= j < i + 1 implies ids@[j] != k by {
                        if j == i {
                        }
                    }
                }
            }
        }
        i = i + 1;
    }
    out
}

/// One answer per id asked for, in order: the row fetched for it, or `None`.
pub fn assemble_sharing<T: Keyed>(ids: &[u128], rows: &Vec<T>) -> (r: Vec<Option<T>>)
    ensures
        r@.len() == ids@.len(),
        forall|i: int| 0 <= i < ids@.len() ==> #[trigger] r@[i] == shared_slot(ids@, rows@, i),
        forall|i: int|
            0 <= i < ids@.len() ==> ((#[trigger] r@[i]) is Some <==> has_row_for(rows@, ids@[i])),
        forall|i: int|
            0 <= i < ids@.len() && (#[trigger] r@[i]) is Some ==> r@[i]->0.id_value() == ids@[i]
                && rows@.contains(r@[i]->0),
{
    let r = assemble_sharing_slots(ids, rows);
    proof {
        assert forall|i: int| 0 <= i < ids@.len() implies ((#[trigger] r@[i]) is Some
            <==> has_row_for(rows@, ids@[i])) && (r@[i] is Some ==> r@[i]->0.id_value() == ids@[i]
            && rows@.contains(r@[i]->0)) by {
            lemma_keyed_map_row(rows@, ids@[i]);
        }
    }
    r
}

fn assemble_sharing_slots<T: Keyed>(ids: &[u128], rows: &Vec<T>) -> (r: Vec<Option<T>>)
    ensures
        r@.len() == ids@.len(),
        forall|i: int| 0 <= i < ids@.len() ==> #[trigger] r@[i] == shared_slot(ids@, rows@, i),
{
    let store = KeyedStore::from_rows(rows);
    let mut out: Vec<Option<T>> = Vec::new();
    let n = ids.len();
    let mut i: usize = 0;
    while i < n
        invariant
            n == ids@.len(),
            i <= n,
            store.wf(),
            store@ == keyed_map(rows@),
            out@.len() == i,
            forall|j: int| 0 <= j < i ==> #[trigger] out@[j] == shared_slot(ids@, rows@, j),
        decreases n - i,
    {
        out.push(store.get(ids[i]));
        i = i + 1;
    }
    out
}

/// The answer the cache gives for `id`.
pub open spec fn cached_slot<M>(m: Map<u128, M>, id: u128) -> Option<M> {
    if m.contains_key(id) {
        Some(m[id])
    } else {
        None
    }
}

/// The ids of `ids` the cache does not hold, in order.
pub open spec fn uncached_ids<M>(m: Map<u128, M>, ids: Seq<u128>) -> Seq<u128>
    decreases ids.len(),
{
    if ids.len() == 0 {
        Seq::empty()
    } else {
        let rest = uncached_ids(m, ids.drop_last());
        if m.contains_key(ids.last()) {
            rest
        } else {
            rest.push(ids.last())
        }
    }
}

/// The cached answer for each id, in order, and the ids still to fetch.
pub fn split_cached<M: Keyed>(cache: &TransactionAwareMainModelCache<M>, ids: &[u128]) -> (r: (
    Vec<Option<M>>,
    Vec<u128>,
))
    requires
        cache.wf(),
    ensures
        r.0@.len() == ids@.len(),
        forall|i: int| 0 <= i < ids@.len() ==> #[trigger] r.0@[i] == cached_slot(cache@, ids@[i]),
        r.1@ == uncached_ids(cache@, ids@),
        forall|i: int|
            0 <= i < ids@.len() ==> ((#[trigger] r.0@[i]) is Some <==> cache@.contains_key(ids@[i])),
        forall|i: int|
            0 <= i < ids@.len() && (#[trigger] r.0@[i]) is Some ==> r.0@[i]->0.id_value() == ids@[i],
{
    proof {
        cache.lemma_keys_are_ids();
    }
    let mut found: Vec<Option<M>> = Vec::new();
    let mut missing: Vec<u128> = Vec::new();
    let n = ids.len();
    let mut i: usize = 0;
    while i < n
        invariant
            n == ids@.len(),
            i <= n,
            cache.wf(),
            found@.len() == i,
            forall|j: int| 0 <= j < i ==> #[trigger] found@[j] == cached_slot(cache@, ids@[j]),
            missing@ == uncached_ids(cache@, ids@.take(i as int)),
        decreases n - i,
    {
        let id = ids[i];
        assert(ids@.take(i as int + 1).drop_last() =~= ids@.take(i as int));
        let got = cache.get(id);
        if got.is_none() {
            missing.push(id);
        }
        found.push(got);
        i = i + 1;
    }
    assert(ids@.take(n as int) =~= ids@);
    (found, missing)
}

/// No earlier position still open holds the id at position `i`.
pub open spec fn is_first_open_slot<M>(ids: Seq<u128>, partial: Seq<Option<M>>, i: int) -> bool {
    forall|j: int| 0 <= j < i && partial[j] is None ==> ids[j] != ids[i]
}

/// The answer at position `i` once the fetched rows fill the open positions,
/// each fetched row filling the first open position asking for its id.
pub open spec fn merged_slot<M: Keyed>(
    ids: Seq<u128>,
    partial: Seq<Option<M>>,
    rows: Seq<M>,
    i: int,
) -> Option<M> {
    if partial[i] is Some {
        partial[i]
    } else if is_first_open_slot(ids, partial, i) && keyed_map(rows).contains_key(ids[i]) {
        Some(keyed_map(rows)[ids[i]])
    } else {
        None
    }
}

/// The fetched rows that filled an open position among the first `n`, in order.
pub open spec fn newly_loaded<M: Keyed>(
    ids: Seq<u128>,
    partial: Seq<Option<M>>,
    rows: Seq<M>,
    n: int,
) -> Seq<M>
    decreases n,
{
    if n <= 0 {
        Seq::empty()
    } else {
        let rest = newly_loaded(ids, partial, rows, n - 1);
        if partial[n - 1] is None && merged_slot(ids, partial, rows, n - 1) is Some {
            rest.push(merged_slot(ids, partial, rows, n - 1)->0)
        } else {
            rest
        }
    }
}

/// Fills the open positions of a partly cached answer with the rows fetched
/// for them, and caches each row that filled a position.
pub fn fill_from_rows<M: Keyed>(
    cache: &mut TransactionAwareMainModelCache<M>,
    ids: &[u128],
    partial: Vec<Option<M>>,
    rows: &Vec<M>,
) -> (r: Vec<Option<M>>)
    requires
        old(cache).wf(),
        partial@.len() == ids@.len(),
    ensures
        final(cache).wf(),
        r@.len() == ids@.len(),
        forall|i: int|
            0 <= i < ids@.len() ==> #[trigger] r@[i] == merged_slot(ids@, partial@, rows@, i),
        forall|i: int| 0 <= i < ids@.len() && partial@[i] is Some ==> #[trigger] r@[i] == partial@[i],
        forall|i: int|
            0 <= i < ids@.len() && partial@[i] is None ==> ((#[trigger] r@[i]) is Some <==> (
            is_first_open_slot(ids@, partial@, i) && has_row_for(rows@, ids@[i]))),
        forall|i: int|
            0 <= i < ids@.len() && partial@[i] is None && (#[trigger] r@[i]) is Some
                ==> r@[i]->0.id_value() == ids@[i] && rows@.contains(r@[i]->0),
        final(cache)@ == inserted_all(old(cache)@, newly_loaded(ids@, partial@, rows@, ids@.len() as int)),
        final(cache).committed_view() == old(cache).committed_view(),
{
    let ghost p = partial@;
    let r = fill_open_slots(cache, ids, partial, rows);
    proof {
        assert forall|i: int| 0 <= i < ids@.len() && p[i] is None implies ((#[trigger] r@[i]) is Some
            <==> (is_first_open_slot(ids@, p, i) && has_row_for(rows@, ids@[i]))) && (r@[i] is Some
            ==> r@[i]->0.id_value() == ids@[i] && rows@.contains(r@[i]->0)) by {
            lemma_keyed_map_row(rows@, ids@[i]);
        }
    }
    r
}

fn fill_open_slots<M: Keyed>(
    cache: &mut TransactionAwareMainModelCache<M>,
    ids: &[u128],
    partial: Vec<Option<M>>,
    rows: &Vec<M>,
) -> (r: Vec<Option<M>>)
    requires
        old(cache).wf(),
        partial@.len() == ids@.len(),
    ensures
        final(cache).wf(),
        r@.len() == ids@.len(),
        forall|i: int|
            0 <= i < ids@.len() ==> #[trigger] r@[i] == merged_slot(ids@, partial@, rows@, i),
        final(cache)@ == inserted_all(old(cache)@, newly_loaded(ids@, partial@, rows@, ids@.len() as int)),
        final(cache).committed_view() == old(cache).committed_view(),
{
    let mut store = KeyedStore::from_rows(rows);
    let ghost km = keyed_map(rows@);
    let mut out: Vec<Option<M>> = Vec::new();
    let n = ids.len();
    let mut i: usize = 0;
    while i < n
        invariant
            n == ids@.len(),
            partial@.len() == n,
            i <= n,
            km == keyed_map(rows@),
            store.wf(),
            cache.wf(),
            out@.len() == i,
            forall|k: u128|
                #[trigger] store@.contains_key(k) <==> (km.contains_key(k) && forall|j: int|
                    0 <= j < i && partial@[j] is None ==> ids@[j] != k),
            forall|k: u128| #[trigger] store@.contains_key(k) ==> store@[k] == km[k],
            forall|j: int| 0 <= j < i ==> #[trigger] out@[j] == merged_slot(ids@, partial@, rows@, j),
            cache@ == inserted_all(old(cache)@, newly_loaded(ids@, partial@, rows@, i as int)),
            cache.committed_view() == old(cache).committed_view(),
        decreases n - i,
    {
        let id = ids[i];
        match &partial[i] {
            Some(m) => {
                out.push(Some(m.duplicate()));
                assert(newly_loaded(ids@, partial@, rows@, i as int + 1) == newly_loaded(
                    ids@,
                    partial@,
                    rows@,
                    i as int,
                ));
            },
            None => {
                let ghost before = cache@;
                let ghost nl = newly_loaded(ids@, partial@, rows@, i as int);
                let got = store.get(id);
                store.remove(id);
                match &got {
                    Some(m) => {
                        cache.insert(m.duplicate());
                    },
                    None => {},
                }
                out.push(got);
                proof {
                    assert(out@[i as int] == merged_slot(ids@, partial@, rows@, i as int));
                    if got is Some {
                        let m = got->0;
                        assert(newly_loaded(ids@, partial@, rows@, i as int + 1) == nl.push(m));
                        assert(nl.push(m).drop_last() =~= nl);
                        assert(inserted_all(old(cache)@, nl.push(m)) == inserted_all(old(cache)@, nl).insert(
                            m.id_value(),
                            m,
                        ));
                    } else {
                        assert(newly_loaded(ids@, partial@, rows@, i as int + 1) == nl);
                    }
                    assert forall|k: u128| #[trigger] store@.contains_key(k) <==> (km.contains_key(k)
                        && forall|j: int| 0 <= j < i + 1 && partial@[j] is None ==> ids@[j] != k) by {
                        if k != id && km.contains_key(k) && (forall|j: int|
                            0 <= j < i && partial@[j] is None ==> ids@[j] != k) {
                            assert forall|j: int| 0 <= j < i + 1 && partial@[j] is None implies ids@[j] != k by {
                                if j == i {
                                }
                            }
                        }
                    }
                }
            },
        }
        assert(out@[i as int] == merged_slot(ids@, partial@, rows@, i as int));
        i = i + 1;
    }
    out
}

proof fn lemma_newly_loaded_holds<M: Keyed>(
    before: Map<u128, M>,
    ids: Seq<u128>,
    partial: Seq<Option<M>>,
    rows: Seq<M>,
    i: int,
    n: int,
)
    requires
        partial.len() == ids.len(),
        0 <= i < n <= ids.len(),
        partial[i] is None,
        merged_slot(ids, partial, rows, i) is Some,
    ensures
        inserted_all(before, newly_loaded(ids, partial, rows, n)).contains_key(ids[i]),
        inserted_all(before, newly_loaded(ids, partial, rows, n))[ids[i]] == merged_slot(
            ids,
            partial,
            rows,
            i,
        )->0,
    decreases n,
{
    let prev = newly_loaded(ids, partial, rows, n - 1);
    let cur = newly_loaded(ids, partial, rows, n);
    if partial[n - 1] is None && merged_slot(ids, partial, rows, n - 1) is Some {
        let y = merged_slot(ids, partial, rows, n - 1)->0;
        lemma_keyed_map_ids(rows, ids[n - 1]);
        assert(cur == prev.push(y));
        assert(cur.drop_last() =~= prev);
        assert(inserted_all(before, cur) == inserted_all(before, prev).insert(y.id_value(), y));
        if n - 1 != i {
            lemma_newly_loaded_holds(before, ids, partial, rows, i, n - 1);
            assert(ids[i] != ids[n - 1]);
        }
    } else {
        lemma_newly_loaded_holds(before, ids, partial, rows, i, n - 1);
    }
}

/// After a batch load, each row fetched that filled a position is held by
/// the record cache under the id asked for, so a later load answers it from
/// the cache.
pub proof fn law_loaded_rows_are_cached<M: Keyed>(
    before: Map<u128, M>,
    ids: Seq<u128>,
    partial: Seq<Option<M>>,
    rows: Seq<M>,
    i: int,
)
    requires
        partial.len() == ids.len(),
        0 <= i < ids.len(),
        partial[i] is None,
        merged_slot(ids, partial, rows, i) is Some,
    ensures
        cached_slot(inserted_all(before, newly_loaded(ids, partial, rows, ids.len() as int)), ids[i])
            == merged_slot(ids, partial, rows, i),
{
    lemma_newly_loaded_holds(before, ids, partial, rows, i, ids.len() as int);
}

} // verus!
