//! In-memory caches keyed by primary id.
//!
//! * [`KeyedStore`] holds at most one value per primary id.
//! * [`IdxModelCache`] holds index rows and answers lookups by a secondary
//!   column; [`MainModelCache`] holds whole records.
//! * The transaction-aware forms keep the committed contents beside the
//!   contents seen inside the current unit of work: writes go to the latter,
//!   a commit publishes them and a rollback discards them.

use vstd::prelude::*;
use crate::ids::Keyed;

verus! {

/// At most one value per primary id, in insertion order.
pub struct KeyedStore<T> {
    entries: Vec<T>,
    contents: Ghost<Map<u128, T>>,
}

impl<T: Keyed> View for KeyedStore<T> {
    type V = Map<u128, T>;

    closed spec fn view(&self) -> Map<u128, T> {
        self.contents@
    }
}

impl<T: Keyed> KeyedStore<T> {
    /// The entries, in the order they are answered.
    pub closed spec fn entries_seq(&self) -> Seq<T> {
        self.entries@
    }

    pub closed spec fn wf(&self) -> bool {
        &&& forall|i: int|
            0 <= i < self.entries@.len() ==> {
                &&& self.contents@.contains_key((#[trigger] self.entries@[i]).id_value())
                &&& self.contents@[self.entries@[i].id_value()] == self.entries@[i]
            }
        &&& forall|k: u128|
            #[trigger] self.contents@.contains_key(k) ==> exists|i: int|
                0 <= i < self.entries@.len() && (#[trigger] self.entries@[i]).id_value() == k
        &&& forall|i: int, j: int|
            0 <= i < self.entries@.len() && 0 <= j < self.entries@.len() && i != j
                ==> (#[trigger] self.entries@[i]).id_value() != (#[trigger] self.entries@[j]).id_value()
    }

    /// The entries answered in order are exactly the contents, once each.
    pub proof fn lemma_entries(&self)
        requires
            self.wf(),
        ensures
            forall|i: int|
                0 <= i < self.entries_seq().len() ==> {
                    &&& self@.contains_key((#[trigger] self.entries_seq()[i]).id_value())
                    &&& self@[self.entries_seq()[i].id_value()] == self.entries_seq()[i]
                },
            forall|k: u128|
                #[trigger] self@.contains_key(k) ==> exists|i: int|
                    0 <= i < self.entries_seq().len() && (#[trigger] self.entries_seq()[i]).id_value()
                        == k,
            forall|i: int, j: int|
                0 <= i < self.entries_seq().len() && 0 <= j < self.entries_seq().len() && i != j
                    ==> (#[trigger] self.entries_seq()[i]).id_value() != (
                #[trigger] self.entries_seq()[j]).id_value(),
    {
        assert forall|k: u128| #[trigger] self@.contains_key(k) implies exists|i: int|
            0 <= i < self.entries_seq().len() && (#[trigger] self.entries_seq()[i]).id_value() == k by {
            let i = choose|i: int| 0 <= i < self.entries@.len() && (#[trigger] self.entries@[i]).id_value() == k;
            assert(self.entries_seq()[i].id_value() == k);
        }
    }

    pub fn new() -> (s: Self)
        ensures
            s.wf(),
            s@ == Map::<u128, T>::empty(),
    {
        KeyedStore { entries: Vec::new(), contents: Ghost(Map::empty()) }
    }

    /// Where the entry with primary id `id` stands, if there is one.
    fn position(&self, id: u128) -> (r: Option<usize>)
        requires
            self.wf(),
        ensures
            r is None <==> !self@.contains_key(id),
            r matches Some(i) ==> i < self.entries@.len() && self.entries@[i as int].id_value() == id,
    {
        let n = self.entries.len();
        let mut i: usize = 0;
        while i < n
            invariant
                n == self.entries@.len(),
                self.wf(),
                i <= n,
                forall|j: int| 0 <= j < i ==> (#[trigger] self.entries@[j]).id_value() != id,
            decreases n - i,
        {
            if self.entries[i].id() == id {
                assert(self.contents@.contains_key(self.entries@[i as int].id_value()));
                return Some(i);
            }
            i = i + 1;
        }
        proof {
            if self@.contains_key(id) {
                let j = choose|j: int| 0 <= j < self.entries@.len() && (#[trigger] self.entries@[j]).id_value() == id;
                assert(self.entries@[j].id_value() == id);
            }
        }
        None
    }

    pub fn len(&self) -> (n: usize)
        requires
            self.wf(),
        ensures
            n == self.entries_seq().len(),
    {
        self.entries.len()
    }

    /// A store holding the given values; a later value replaces an earlier
    /// value with the same primary id.
    pub fn from_rows(rows: &Vec<T>) -> (c: Self)
        ensures
            c.wf(),
            c@ == keyed_map(rows@),
    {
        let c = Self::from_rows_inner(rows);
        proof {
            lemma_keyed_map_from(c@, rows@);
        }
        c
    }

    fn from_rows_inner(rows: &Vec<T>) -> (c: Self)
        ensures
            c.wf(),
            forall|k: u128|
                #[trigger] c@.contains_key(k) <==> exists|i: int|
                    0 <= i < rows@.len() && (#[trigger] rows@[i]).id_value() == k,
            forall|i: int|
                0 <= i < rows@.len() ==> c@[(#[trigger] rows@[i]).id_value()] == rows@[last_index_of_id(
                    rows@,
                    rows@[i].id_value(),
                )],
    {
        let mut c = KeyedStore::new();
        let n = rows.len();
        let mut i: usize = 0;
        while i < n
            invariant
                n == rows@.len(),
                i <= n,
                c.wf(),
                forall|k: u128|
                    #[trigger] c@.contains_key(k) <==> exists|j: int|
                        0 <= j < i && (#[trigger] rows@[j]).id_value() == k,
                forall|j: int|
                    0 <= j < i ==> c@[(#[trigger] rows@[j]).id_value()] == rows@[last_index_of_id(
                        rows@.take(i as int),
                        rows@[j].id_value(),
                    )],
            decreases n - i,
        {
            let ghost prefix = rows@.take(i as int);
            let ghost next = rows@.take(i as int + 1);
            assert(next.drop_last() =~= prefix);
            c.insert(rows[i].duplicate());
            proof {
                assert forall|j: int| 0 <= j <= i implies c@[(#[trigger] rows@[j]).id_value()]
                    == rows@[last_index_of_id(next, rows@[j].id_value())] by {
                    if rows@[j].id_value() != rows@[i as int].id_value() {
                        assert(next[j] == rows@[j]);
                        lemma_last_index_push_other(prefix, rows@[i as int], rows@[j].id_value(), j);
                    } else {
                        lemma_last_index_push_same(prefix, rows@[i as int]);
                    }
                }
                assert forall|k: u128| #[trigger] c@.contains_key(k) <==> exists|j: int|
                    0 <= j < i + 1 && (#[trigger] rows@[j]).id_value() == k by {
                    if k == rows@[i as int].id_value() {
                        assert(rows@[i as int].id_value() == k);
                    }
                }
            }
            i = i + 1;
        }
        assert(rows@.take(n as int) =~= rows@);
        c
    }

    /// The entry answered at position `i`.
    pub fn entry_at(&self, i: usize) -> (r: &T)
        requires
            i < self.entries_seq().len(),
        ensures
            *r == self.entries_seq()[i as int],
    {
        &self.entries[i]
    }

    pub fn contains(&self, id: u128) -> (r: bool)
        requires
            self.wf(),
        ensures
            r == self@.contains_key(id),
    {
        self.position(id).is_some()
    }

    pub fn get(&self, id: u128) -> (r: Option<T>)
        requires
            self.wf(),
        ensures
            r is Some <==> self@.contains_key(id),
            r matches Some(v) ==> v == self@[id],
    {
        match self.position(id) {
            Some(i) => Some(self.entries[i].duplicate()),
            None => None,
        }
    }

    /// Stores `v` under its primary id, replacing what was stored there.
    pub fn insert(&mut self, v: T)
        requires
            old(self).wf(),
        ensures
            final(self).wf(),
            final(self)@ == old(self)@.insert(v.id_value(), v),
    {
        let id = v.id();
        let ghost key = v.id_value();
        let ghost newmap = self.contents@.insert(key, v);
        match self.position(id) {
            Some(i) => {
                self.entries.set(i, v);
                self.contents = Ghost(newmap);
                assert forall|k: u128| #[trigger] self.contents@.contains_key(k) implies exists|j: int|
                    0 <= j < self.entries@.len() && (#[trigger] self.entries@[j]).id_value() == k by {
                    if k == key {
                        assert(self.entries@[i as int].id_value() == k);
                    } else {
                        let j = choose|j: int|
                            0 <= j < old(self).entries@.len() && (#[trigger] old(self).entries@[j]).id_value()
                                == k;
                        assert(self.entries@[j].id_value() == k);
                    }
                }
            },
            None => {
                self.entries.push(v);
                self.contents = Ghost(newmap);
                let ghost last = self.entries@.len() - 1;
                assert forall|k: u128| #[trigger] self.contents@.contains_key(k) implies exists|j: int|
                    0 <= j < self.entries@.len() && (#[trigger] self.entries@[j]).id_value() == k by {
                    if k == key {
                        assert(self.entries@[last].id_value() == k);
                    } else {
                        let j = choose|j: int|
                            0 <= j < old(self).entries@.len() && (#[trigger] old(self).entries@[j]).id_value()
                                == k;
                        assert(self.entries@[j].id_value() == k);
                    }
                }
            },
        }
    }

    /// Drops the entry stored under `id`, if any.
    pub fn remove(&mut self, id: u128)
        requires
            old(self).wf(),
        ensures
            final(self).wf(),
            final(self)@ == old(self)@.remove(id),
    {
        match self.position(id) {
            None => {
                assert(self.contents@.remove(id) =~= self.contents@);
            },
            Some(i) => {
                let ghost old_entries = self.entries@;
                let ghost newmap = self.contents@.remove(id);
                self.entries.remove(i);
                self.contents = Ghost(newmap);
                assert forall|j: int| 0 <= j < self.entries@.len() implies {
                    &&& self.contents@.contains_key((#[trigger] self.entries@[j]).id_value())
                    &&& self.contents@[self.entries@[j].id_value()] == self.entries@[j]
                } by {
                    if j < i {
                        assert(self.entries@[j] == old_entries[j]);
                    } else {
                        assert(self.entries@[j] == old_entries[j + 1]);
                    }
                }
                assert forall|k: u128| #[trigger] self.contents@.contains_key(k) implies exists|j: int|
                    0 <= j < self.entries@.len() && (#[trigger] self.entries@[j]).id_value() == k by {
                    let j = choose|j: int|
                        0 <= j < old_entries.len() && (#[trigger] old_entries[j]).id_value() == k;
                    if j < i {
                        assert(self.entries@[j].id_value() == k);
                    } else {
                        assert(j != i);
                        assert(self.entries@[j - 1].id_value() == k);
                    }
                }
                assert forall|a: int, b: int|
                    0 <= a < self.entries@.len() && 0 <= b < self.entries@.len() && a != b
                        implies (#[trigger] self.entries@[a]).id_value() != (
                    #[trigger] self.entries@[b]).id_value() by {
                    let oa = if a < i { a } else { a + 1 };
                    let ob = if b < i { b } else { b + 1 };
                    assert(self.entries@[a] == old_entries[oa]);
                    assert(self.entries@[b] == old_entries[ob]);
                }
            },
        }
    }

    /// A copy of the store.
    pub fn duplicate(&self) -> (r: Self)
        requires
            self.wf(),
        ensures
            r.wf(),
            r@ == self@,
            r.entries_seq() == self.entries_seq(),
    {
        let mut entries: Vec<T> = Vec::new();
        let n = self.entries.len();
        let mut i: usize = 0;
        while i < n
            invariant
                n == self.entries@.len(),
                i <= n,
                entries@ == self.entries@.take(i as int),
            decreases n - i,
        {
            entries.push(self.entries[i].duplicate());
            assert(self.entries@.take(i as int + 1) =~= self.entries@.take(i as int).push(self.entries@[i as int]));
            i = i + 1;
        }
        assert(self.entries@.take(n as int) =~= self.entries@);
        let r = KeyedStore { entries, contents: Ghost(self.contents@) };
        assert(r.entries@ == self.entries@);
        assert(r.contents@ == self.contents@);
        r
    }
}

/// A secondary column of an index row that lookups can go by.
#[derive(Clone, Copy, Debug, PartialEq, Eq, Structural)]
pub enum IndexKey {
    ExternalIdentifierHash,
    OrganizationPersonId,
    DuplicateOfPersonId,
    IdNumberHash,
    PersonId,
    CustomerAccountCodeHash,
}

/// A row of an index table: a primary id and the secondary columns that
/// lookups go by. A column the row does not have, or leaves empty, reads
/// `None`.
pub trait IndexModel: Keyed {
    spec fn uuid_key_value(&self, key: IndexKey) -> Option<u128>;

    spec fn i64_key_value(&self, key: IndexKey) -> Option<i64>;

    fn uuid_key(&self, key: IndexKey) -> (r: Option<u128>)
        ensures
            r == self.uuid_key_value(key),
    ;

    fn i64_key(&self, key: IndexKey) -> (r: Option<i64>)
        ensures
            r == self.i64_key_value(key),
    ;
}

/// A value looked up in a secondary column.
#[derive(Clone, Copy, Debug, PartialEq, Eq, Structural)]
pub enum IndexValue {
    Uuid(u128),
    Int(i64),
}

/// The row holds `value` in its `key` column.
pub open spec fn index_matches<T: IndexModel>(t: T, key: IndexKey, value: IndexValue) -> bool {
    match value {
        IndexValue::Uuid(u) => t.uuid_key_value(key) == Some(u),
        IndexValue::Int(x) => t.i64_key_value(key) == Some(x),
    }
}

/// A record that keeps an index row.
pub trait Indexed: Keyed {
    type Idx: IndexModel;

    spec fn index_value(&self) -> Self::Idx;

    /// The index row of a record has the record's primary id.
    proof fn lemma_index_id(&self)
        ensures
            self.index_value().id_value() == self.id_value(),
    ;

    fn to_index(&self) -> (r: Self::Idx)
        ensures
            r == self.index_value(),
    ;
}

/// `m` with each of `rows` stored in turn under its primary id.
pub open spec fn inserted_all<T: Keyed>(m: Map<u128, T>, rows: Seq<T>) -> Map<u128, T>
    decreases rows.len(),
{
    if rows.len() == 0 {
        m
    } else {
        inserted_all(m, rows.drop_last()).insert(rows.last().id_value(), rows.last())
    }
}

/// The index rows of `records`, in order.
pub open spec fn index_rows<M: Indexed>(records: Seq<M>) -> Seq<M::Idx> {
    records.map_values(|m: M| m.index_value())
}

/// The answer to a lookup: each entry that matches, once, as stored.
pub open spec fn is_lookup_answer<T: Keyed>(
    contents: Map<u128, T>,
    matches: spec_fn(T) -> bool,
    answer: Seq<T>,
) -> bool {
    &&& forall|j: int|
        0 <= j < answer.len() ==> {
            &&& contents.contains_key((#[trigger] answer[j]).id_value())
            &&& contents[answer[j].id_value()] == answer[j]
            &&& matches(answer[j])
        }
    &&& forall|k: u128|
        #[trigger] contents.contains_key(k) && matches(contents[k]) ==> exists|j: int|
            0 <= j < answer.len() && (#[trigger] answer[j]).id_value() == k
    &&& forall|a: int, b: int|
        0 <= a < answer.len() && 0 <= b < answer.len() && a != b ==> (#[trigger] answer[a]).id_value()
            != (#[trigger] answer[b]).id_value()
}

/// The index rows of one table, by primary id.
pub struct IdxModelCache<T> {
    store: KeyedStore<T>,
}

impl<T: IndexModel> View for IdxModelCache<T> {
    type V = Map<u128, T>;

    closed spec fn view(&self) -> Map<u128, T> {
        self.store@
    }
}

impl<T: IndexModel> IdxModelCache<T> {
    pub closed spec fn wf(&self) -> bool {
        self.store.wf()
    }

    /// The rows in the order the cache keeps them, the order lookups answer in.
    pub closed spec fn entries(&self) -> Seq<T> {
        self.store.entries_seq()
    }

    /// An empty cache.
    pub fn new() -> (c: Self)
        ensures
            c.wf(),
            c@ == Map::<u128, T>::empty(),
    {
        IdxModelCache { store: KeyedStore::new() }
    }

    /// A cache holding the given rows; a later row replaces an earlier row
    /// with the same primary id.
    pub fn from_rows(rows: Vec<T>) -> (c: Self)
        ensures
            c.wf(),
            c@ == keyed_map(rows@),
    {
        IdxModelCache { store: KeyedStore::from_rows(&rows) }
    }

    /// A copy of the cache.
    pub fn duplicate(&self) -> (r: Self)
        requires
            self.wf(),
        ensures
            r.wf(),
            r@ == self@,
    {
        IdxModelCache { store: self.store.duplicate() }
    }

    /// Stores an index row, replacing the row with the same primary id.
    pub fn add(&mut self, row: T)
        requires
            old(self).wf(),
        ensures
            final(self).wf(),
            final(self)@ == old(self)@.insert(row.id_value(), row),
    {
        self.store.insert(row);
    }

    /// Drops the index row with primary id `id`, if any.
    pub fn remove(&mut self, id: u128)
        requires
            old(self).wf(),
        ensures
            final(self).wf(),
            final(self)@ == old(self)@.remove(id),
    {
        self.store.remove(id);
    }

    pub fn contains_primary(&self, id: u128) -> (r: bool)
        requires
            self.wf(),
        ensures
            r == self@.contains_key(id),
    {
        self.store.contains(id)
    }

    pub fn get_by_primary(&self, id: u128) -> (r: Option<T>)
        requires
            self.wf(),
        ensures
            r is Some <==> self@.contains_key(id),
            r matches Some(v) ==> v == self@[id],
    {
        self.store.get(id)
    }

    /// The rows whose `key` column holds `value`.
    pub fn get_by_uuid_index(&self, key: IndexKey, value: u128) -> (r: Vec<T>)
        requires
            self.wf(),
        ensures
            is_lookup_answer(self@, |t: T| t.uuid_key_value(key) == Some(value), r@),
            r@ == self.entries().filter(|t: T| t.uuid_key_value(key) == Some(value)),
    {
        let r = self.lookup(key, IndexValue::Uuid(value));
        assert((|t: T| index_matches(t, key, IndexValue::Uuid(value))) =~= (|t: T|
            t.uuid_key_value(key) == Some(value)));
        r
    }

    /// The rows whose `key` column holds `value`.
    pub fn get_by_i64_index(&self, key: IndexKey, value: i64) -> (r: Vec<T>)
        requires
            self.wf(),
        ensures
            is_lookup_answer(self@, |t: T| t.i64_key_value(key) == Some(value), r@),
            r@ == self.entries().filter(|t: T| t.i64_key_value(key) == Some(value)),
    {
        let r = self.lookup(key, IndexValue::Int(value));
        assert((|t: T| index_matches(t, key, IndexValue::Int(value))) =~= (|t: T|
            t.i64_key_value(key) == Some(value)));
        r
    }

    fn lookup(&self, key: IndexKey, value: IndexValue) -> (r: Vec<T>)
        requires
            self.wf(),
        ensures
            is_lookup_answer(self@, |t: T| index_matches(t, key, value), r@),
            r@ == self.entries().filter(|t: T| index_matches(t, key, value)),
    {
        proof {
            self.store.lemma_entries();
            reveal(Seq::filter);
        }
        let mut out: Vec<T> = Vec::new();
        let n = self.store.len();
        let mut i: usize = 0;
        let ghost entries = self.store.entries_seq();
        let ghost pred = |t: T| index_matches(t, key, value);
        while i < n
            invariant
                n == entries.len(),
                out@ == entries.take(i as int).filter(pred),
                pred == (|t: T| index_matches(t, key, value)),
                entries == self.store.entries_seq(),
                self.store.wf(),
                i <= n,
                forall|j: int|
                    0 <= j < out@.len() ==> {
                        &&& self@.contains_key((#[trigger] out@[j]).id_value())
                        &&& self@[out@[j].id_value()] == out@[j]
                        &&& index_matches(out@[j], key, value)
                        &&& exists|e: int| 0 <= e < i && entries[e] == out@[j]
                    },
                forall|e: int|
                    0 <= e < i && index_matches((#[trigger] entries[e]), key, value) ==> exists|j: int|
                        0 <= j < out@.len() && (#[trigger] out@[j]).id_value() == entries[e].id_value(),
                forall|a: int, b: int|
                    0 <= a < out@.len() && 0 <= b < out@.len() && a != b ==> (
                    #[trigger] out@[a]).id_value() != (#[trigger] out@[b]).id_value(),
                forall|i: int|
                    0 <= i < entries.len() ==> {
                        &&& self@.contains_key((#[trigger] entries[i]).id_value())
                        &&& self@[entries[i].id_value()] == entries[i]
                    },
                forall|k: u128|
                    #[trigger] self@.contains_key(k) ==> exists|i: int|
                        0 <= i < entries.len() && (#[trigger] entries[i]).id_value() == k,
                forall|a: int, b: int|
                    0 <= a < entries.len() && 0 <= b < entries.len() && a != b ==> (
                    #[trigger] entries[a]).id_value() != (#[trigger] entries[b]).id_value(),
            decreases n - i,
        {
            let e = self.store.entry_at(i);
            let hit = match value {
                IndexValue::Uuid(u) => match e.uuid_key(key) {
                    Some(v) => v == u,
                    None => false,
                },
                IndexValue::Int(x) => match e.i64_key(key) {
                    Some(v) => v == x,
                    None => false,
                },
            };
            assert(*e == entries[i as int]);
            assert(hit <==> index_matches(entries[i as int], key, value));
            assert(entries.take(i as int + 1).drop_last() =~= entries.take(i as int));
            assert(entries.take(i as int + 1).last() == entries[i as int]);
            reveal(Seq::filter);
            if hit {
                let ghost before = out@;
                out.push(e.duplicate());
                proof {
                    assert(out@[before.len() as int] == entries[i as int]);
                    assert forall|j: int| 0 <= j < out@.len() implies {
                        &&& self@.contains_key((#[trigger] out@[j]).id_value())
                        &&& self@[out@[j].id_value()] == out@[j]
                        &&& index_matches(out@[j], key, value)
                    } by {
                        if j < before.len() {
                            assert(out@[j] == before[j]);
                        }
                    }
                    assert forall|a: int, b: int|
                        0 <= a < out@.len() && 0 <= b < out@.len() && a != b implies (
                        #[trigger] out@[a]).id_value() != (#[trigger] out@[b]).id_value() by {
                        if a == before.len() {
                            let e2 = choose|e2: int| 0 <= e2 < i && entries[e2] == out@[b];
                            assert(entries[e2].id_value() != entries[i as int].id_value());
                        } else if b == before.len() {
                            let e2 = choose|e2: int| 0 <= e2 < i && entries[e2] == out@[a];
                            assert(entries[e2].id_value() != entries[i as int].id_value());
                        }
                    }
                    assert forall|j: int| 0 <= j < out@.len() implies exists|e2: int|
                        0 <= e2 < i + 1 && entries[e2] == #[trigger] out@[j] by {
                        if j == before.len() {
                            assert(entries[i as int] == out@[j]);
                        } else {
                            let e2 = choose|e2: int| 0 <= e2 < i && entries[e2] == before[j];
                            assert(entries[e2] == out@[j]);
                        }
                    }
                    assert forall|e2: int|
                        0 <= e2 < i + 1 && index_matches((#[trigger] entries[e2]), key, value) implies exists|j: int|
                        0 <= j < out@.len() && (#[trigger] out@[j]).id_value() == entries[e2].id_value() by {
                        if e2 == i {
                            assert(out@[before.len() as int].id_value() == entries[e2].id_value());
                        } else {
                            let j = choose|j: int|
                                0 <= j < before.len() && (#[trigger] before[j]).id_value()
                                    == entries[e2].id_value();
                            assert(out@[j] == before[j]);
                        }
                    }
                }
            } else {
                assert(!index_matches(entries[i as int], key, value));
            }
            i = i + 1;
        }
        proof {
            assert(entries.take(n as int) =~= entries);
            assert forall|k: u128| #[trigger] self@.contains_key(k) && index_matches(self@[k], key, value) implies exists|j: int|
                0 <= j < out@.len() && (#[trigger] out@[j]).id_value() == k by {
                let e = choose|e: int| 0 <= e < entries.len() && (#[trigger] entries[e]).id_value() == k;
                assert(index_matches(entries[e], key, value));
            }
        }
        out
    }
}

/// Index rows seen through a unit of work: the committed rows, and the rows
/// as the unit of work has changed them so far.
pub struct TransactionAwareIdxModelCache<T> {
    committed: IdxModelCache<T>,
    pending: IdxModelCache<T>,
}

impl<T: IndexModel> View for TransactionAwareIdxModelCache<T> {
    type V = Map<u128, T>;

    /// The rows as seen inside the unit of work.
    closed spec fn view(&self) -> Map<u128, T> {
        self.pending@
    }
}

impl<T: IndexModel> TransactionAwareIdxModelCache<T> {
    pub closed spec fn wf(&self) -> bool {
        self.committed.wf() && self.pending.wf()
    }

    /// The rows as last committed.
    pub closed spec fn committed_view(&self) -> Map<u128, T> {
        self.committed@
    }

    /// The rows as seen inside the unit of work, in the order lookups answer in.
    pub closed spec fn entries(&self) -> Seq<T> {
        self.pending.entries()
    }

    /// A unit of work starting from the given committed rows.
    pub fn new(shared: IdxModelCache<T>) -> (c: Self)
        requires
            shared.wf(),
        ensures
            c.wf(),
            c@ == shared@,
            c.committed_view() == shared@,
    {
        let pending = shared.duplicate();
        TransactionAwareIdxModelCache { committed: shared, pending }
    }

    /// The rows as last committed.
    pub fn committed(&self) -> (r: &IdxModelCache<T>)
        requires
            self.wf(),
        ensures
            r.wf(),
            r@ == self.committed_view(),
    {
        &self.committed
    }

    pub fn add(&mut self, row: T)
        requires
            old(self).wf(),
        ensures
            final(self).wf(),
            final(self)@ == old(self)@.insert(row.id_value(), row),
            final(self).committed_view() == old(self).committed_view(),
    {
        self.pending.add(row);
    }

    pub fn remove(&mut self, id: u128)
        requires
            old(self).wf(),
        ensures
            final(self).wf(),
            final(self)@ == old(self)@.remove(id),
            final(self).committed_view() == old(self).committed_view(),
    {
        self.pending.remove(id);
    }

    pub fn contains_primary(&self, id: u128) -> (r: bool)
        requires
            self.wf(),
        ensures
            r == self@.contains_key(id),
    {
        self.pending.contains_primary(id)
    }

    pub fn get_by_primary(&self, id: u128) -> (r: Option<T>)
        requires
            self.wf(),
        ensures
            r is Some <==> self@.contains_key(id),
            r matches Some(v) ==> v == self@[id],
    {
        self.pending.get_by_primary(id)
    }

    pub fn get_by_uuid_index(&self, key: IndexKey, value: u128) -> (r: Vec<T>)
        requires
            self.wf(),
        ensures
            is_lookup_answer(self@, |t: T| t.uuid_key_value(key) == Some(value), r@),
            r@ == self.entries().filter(|t: T| t.uuid_key_value(key) == Some(value)),
    {
        self.pending.get_by_uuid_index(key, value)
    }

    pub fn get_by_i64_index(&self, key: IndexKey, value: i64) -> (r: Vec<T>)
        requires
            self.wf(),
        ensures
            is_lookup_answer(self@, |t: T| t.i64_key_value(key) == Some(value), r@),
            r@ == self.entries().filter(|t: T| t.i64_key_value(key) == Some(value)),
    {
        self.pending.get_by_i64_index(key, value)
    }

    /// Publishes the rows of the unit of work as the committed rows.
    pub fn on_commit(&mut self)
        requires
            old(self).wf(),
        ensures
            final(self).wf(),
            final(self)@ == old(self)@,
            final(self).committed_view() == old(self)@,
    {
        self.committed = self.pending.duplicate();
    }

    /// Discards the changes of the unit of work.
    pub fn on_rollback(&mut self)
        requires
            old(self).wf(),
        ensures
            final(self).wf(),
            final(self)@ == old(self).committed_view(),
            final(self).committed_view() == old(self).committed_view(),
    {
        self.pending = self.committed.duplicate();
    }
}

/// Whole records by primary id.
pub struct MainModelCache<M> {
    store: KeyedStore<M>,
}

impl<M: Keyed> View for MainModelCache<M> {
    type V = Map<u128, M>;

    closed spec fn view(&self) -> Map<u128, M> {
        self.store@
    }
}

impl<M: Keyed> MainModelCache<M> {
    pub closed spec fn wf(&self) -> bool {
        self.store.wf()
    }

    /// Each record is cached under its own primary id.
    pub proof fn lemma_keys_are_ids(&self)
        requires
            self.wf(),
        ensures
            forall|k: u128| #[trigger] self@.contains_key(k) ==> self@[k].id_value() == k,
    {
        self.store.lemma_entries();
        assert forall|k: u128| #[trigger] self@.contains_key(k) implies self@[k].id_value() == k by {
            let i = choose|i: int|
                0 <= i < self.store.entries_seq().len() && (#[trigger] self.store.entries_seq()[i]).id_value()
                    == k;
            assert(self.store@[self.store.entries_seq()[i].id_value()] == self.store.entries_seq()[i]);
        }
    }

    pub fn new() -> (c: Self)
        ensures
            c.wf(),
            c@ == Map::<u128, M>::empty(),
    {
        MainModelCache { store: KeyedStore::new() }
    }

    pub fn duplicate(&self) -> (r: Self)
        requires
            self.wf(),
        ensures
            r.wf(),
            r@ == self@,
    {
        MainModelCache { store: self.store.duplicate() }
    }

    /// Stores a record, replacing the record with the same primary id.
    pub fn insert(&mut self, m: M)
        requires
            old(self).wf(),
        ensures
            final(self).wf(),
            final(self)@ == old(self)@.insert(m.id_value(), m),
    {
        self.store.insert(m);
    }

    pub fn remove(&mut self, id: u128)
        requires
            old(self).wf(),
        ensures
            final(self).wf(),
            final(self)@ == old(self)@.remove(id),
    {
        self.store.remove(id);
    }

    pub fn contains(&self, id: u128) -> (r: bool)
        requires
            self.wf(),
        ensures
            r == self@.contains_key(id),
    {
        self.store.contains(id)
    }

    /// A copy of the record stored under `id`.
    pub fn get(&self, id: u128) -> (r: Option<M>)
        requires
            self.wf(),
        ensures
            r is Some <==> self@.contains_key(id),
            r matches Some(v) ==> v == self@[id],
    {
        self.store.get(id)
    }
}

/// Whole records seen through a unit of work.
pub struct TransactionAwareMainModelCache<M> {
    committed: MainModelCache<M>,
    pending: MainModelCache<M>,
}

impl<M: Keyed> View for TransactionAwareMainModelCache<M> {
    type V = Map<u128, M>;

    closed spec fn view(&self) -> Map<u128, M> {
        self.pending@
    }
}

impl<M: Keyed> TransactionAwareMainModelCache<M> {
    pub closed spec fn wf(&self) -> bool {
        self.committed.wf() && self.pending.wf()
    }

    pub closed spec fn committed_view(&self) -> Map<u128, M> {
        self.committed@
    }

    pub fn new(shared: MainModelCache<M>) -> (c: Self)
        requires
            shared.wf(),
        ensures
            c.wf(),
            c@ == shared@,
            c.committed_view() == shared@,
    {
        let pending = shared.duplicate();
        TransactionAwareMainModelCache { committed: shared, pending }
    }

    /// Each record seen inside the unit of work is cached under its own
    /// primary id.
    pub proof fn lemma_keys_are_ids(&self)
        requires
            self.wf(),
        ensures
            forall|k: u128| #[trigger] self@.contains_key(k) ==> self@[k].id_value() == k,
    {
        self.pending.lemma_keys_are_ids();
    }

    pub fn committed(&self) -> (r: &MainModelCache<M>)
        requires
            self.wf(),
        ensures
            r.wf(),
            r@ == self.committed_view(),
    {
        &self.committed
    }

    pub fn insert(&mut self, m: M)
        requires
            old(self).wf(),
        ensures
            final(self).wf(),
            final(self)@ == old(self)@.insert(m.id_value(), m),
            final(self).committed_view() == old(self).committed_view(),
    {
        self.pending.insert(m);
    }

    pub fn remove(&mut self, id: u128)
        requires
            old(self).wf(),
        ensures
            final(self).wf(),
            final(self)@ == old(self)@.remove(id),
            final(self).committed_view() == old(self).committed_view(),
    {
        self.pending.remove(id);
    }

    pub fn get(&self, id: u128) -> (r: Option<M>)
        requires
            self.wf(),
        ensures
            r is Some <==> self@.contains_key(id),
            r matches Some(v) ==> v == self@[id],
    {
        self.pending.get(id)
    }

    pub fn on_commit(&mut self)
        requires
            old(self).wf(),
        ensures
            final(self).wf(),
            final(self)@ == old(self)@,
            final(self).committed_view() == old(self)@,
    {
        self.committed = self.pending.duplicate();
    }

    pub fn on_rollback(&mut self)
        requires
            old(self).wf(),
        ensures
            final(self).wf(),
            final(self)@ == old(self).committed_view(),
            final(self).committed_view() == old(self).committed_view(),
    {
        self.pending = self.committed.duplicate();
    }
}

impl<T: IndexModel> TransactionAwareIdxModelCache<T> {
    /// Stores the given index rows in turn.
    pub fn add_all(&mut self, rows: Vec<T>)
        requires
            old(self).wf(),
        ensures
            final(self).wf(),
            final(self)@ == inserted_all(old(self)@, rows@),
            final(self).committed_view() == old(self).committed_view(),
    {
        let n = rows.len();
        let mut i: usize = 0;
        while i < n
            invariant
                n == rows@.len(),
                i <= n,
                self.wf(),
                self@ == inserted_all(old(self)@, rows@.take(i as int)),
                self.committed_view() == old(self).committed_view(),
            decreases n - i,
        {
            assert(rows@.take(i as int + 1).drop_last() =~= rows@.take(i as int));
            self.add(rows[i].duplicate());
            i = i + 1;
        }
        assert(rows@.take(n as int) =~= rows@);
    }

    /// Drops the index rows with the given primary ids.
    pub fn remove_all(&mut self, ids: &[u128])
        requires
            old(self).wf(),
        ensures
            final(self).wf(),
            final(self)@ == removed_all(old(self)@, ids@),
            final(self).committed_view() == old(self).committed_view(),
    {
        let n = ids.len();
        let mut i: usize = 0;
        while i < n
            invariant
                n == ids@.len(),
                i <= n,
                self.wf(),
                forall|k: u128|
                    #[trigger] self@.contains_key(k) <==> (old(self)@.contains_key(k) && forall|j: int|
                        0 <= j < i ==> ids@[j] != k),
                forall|k: u128| #[trigger] self@.contains_key(k) ==> self@[k] == old(self)@[k],
                self.committed_view() == old(self).committed_view(),
            decreases n - i,
        {
            let id = ids[i];
            self.remove(id);
            assert forall|k: u128| #[trigger] self@.contains_key(k) <==> (old(self)@.contains_key(k)
                && forall|j: int| 0 <= j < i + 1 ==> ids@[j] != k) by {
                if k != id && old(self)@.contains_key(k) && (forall|j: int| 0 <= j < i ==> ids@[j] != k) {
                    assert forall|j: int| 0 <= j < i + 1 implies ids@[j] != k by {
                        if j == i {
                        }
                    }
                }
            }
            i = i + 1;
        }
        assert(self@ =~= removed_all(old(self)@, ids@));
    }
}

/// `m` without the entries stored under any of `ids`.
pub open spec fn removed_all<T>(m: Map<u128, T>, ids: Seq<u128>) -> Map<u128, T> {
    m.remove_keys(Set::new(|k: u128| ids.contains(k)))
}

impl<M: Keyed> TransactionAwareMainModelCache<M> {
    /// Stores the given records in turn.
    pub fn insert_all(&mut self, records: &Vec<M>)
        requires
            old(self).wf(),
        ensures
            final(self).wf(),
            final(self)@ == inserted_all(old(self)@, records@),
            final(self).committed_view() == old(self).committed_view(),
    {
        let n = records.len();
        let mut i: usize = 0;
        while i < n
            invariant
                n == records@.len(),
                i <= n,
                self.wf(),
                self@ == inserted_all(old(self)@, records@.take(i as int)),
                self.committed_view() == old(self).committed_view(),
            decreases n - i,
        {
            assert(records@.take(i as int + 1).drop_last() =~= records@.take(i as int));
            self.insert(records[i].duplicate());
            i = i + 1;
        }
        assert(records@.take(n as int) =~= records@);
    }

    /// Drops the records with the given primary ids.
    pub fn remove_all(&mut self, ids: &[u128])
        requires
            old(self).wf(),
        ensures
            final(self).wf(),
            final(self)@ == removed_all(old(self)@, ids@),
            final(self).committed_view() == old(self).committed_view(),
    {
        let n = ids.len();
        let mut i: usize = 0;
        while i < n
            invariant
                n == ids@.len(),
                i <= n,
                self.wf(),
                forall|k: u128|
                    #[trigger] self@.contains_key(k) <==> (old(self)@.contains_key(k) && forall|j: int|
                        0 <= j < i ==> ids@[j] != k),
                forall|k: u128| #[trigger] self@.contains_key(k) ==> self@[k] == old(self)@[k],
                self.committed_view() == old(self).committed_view(),
            decreases n - i,
        {
            let id = ids[i];
            self.remove(id);
            assert forall|k: u128| #[trigger] self@.contains_key(k) <==> (old(self)@.contains_key(k)
                && forall|j: int| 0 <= j < i + 1 ==> ids@[j] != k) by {
                if k != id && old(self)@.contains_key(k) && (forall|j: int| 0 <= j < i ==> ids@[j] != k) {
                    assert forall|j: int| 0 <= j < i + 1 implies ids@[j] != k by {
                        if j == i {
                        }
                    }
                }
            }
            i = i + 1;
        }
        assert(self@ =~= removed_all(old(self)@, ids@));
    }
}

/// The index of the last element of `s` with primary id `id`.
pub open spec fn last_index_of_id<T: Keyed>(s: Seq<T>, id: u128) -> int
    decreases s.len(),
{
    if s.len() == 0 {
        -1
    } else if s.last().id_value() == id {
        s.len() - 1
    } else {
        last_index_of_id(s.drop_last(), id)
    }
}

/// The values of `s` by primary id; a later value replaces an earlier one.
pub open spec fn keyed_map<T: Keyed>(s: Seq<T>) -> Map<u128, T> {
    Map::new(
        |k: u128| exists|i: int| 0 <= i < s.len() && (#[trigger] s[i]).id_value() == k,
        |k: u128| s[last_index_of_id(s, k)],
    )
}

proof fn lemma_keyed_map_from<T: Keyed>(m: Map<u128, T>, rows: Seq<T>)
    requires
        forall|k: u128|
            #[trigger] m.contains_key(k) <==> exists|i: int|
                0 <= i < rows.len() && (#[trigger] rows[i]).id_value() == k,
        forall|i: int|
            0 <= i < rows.len() ==> m[(#[trigger] rows[i]).id_value()] == rows[last_index_of_id(
                rows,
                rows[i].id_value(),
            )],
    ensures
        m == keyed_map(rows),
{
    assert forall|k: u128| #[trigger] m.contains_key(k) implies m[k] == keyed_map(rows)[k] by {
        let i = choose|i: int| 0 <= i < rows.len() && (#[trigger] rows[i]).id_value() == k;
        assert(m[rows[i].id_value()] == rows[last_index_of_id(rows, rows[i].id_value())]);
    }
    assert(m =~= keyed_map(rows));
}

/// Where some element of `s` has primary id `id`, the last such element is
/// one of them.
pub proof fn lemma_last_index_of_id_hit<T: Keyed>(s: Seq<T>, id: u128)
    requires
        exists|i: int| 0 <= i < s.len() && (#[trigger] s[i]).id_value() == id,
    ensures
        0 <= last_index_of_id(s, id) < s.len(),
        s[last_index_of_id(s, id)].id_value() == id,
    decreases s.len(),
{
    if s.last().id_value() != id {
        let i = choose|i: int| 0 <= i < s.len() && (#[trigger] s[i]).id_value() == id;
        assert(s.drop_last()[i] == s[i]);
        lemma_last_index_of_id_hit(s.drop_last(), id);
    }
}

/// Each value of `keyed_map(s)` is stored under its own id.
pub proof fn lemma_keyed_map_ids<T: Keyed>(s: Seq<T>, k: u128)
    requires
        keyed_map(s).contains_key(k),
    ensures
        keyed_map(s)[k].id_value() == k,
{
    lemma_last_index_of_id_hit(s, k);
}

/// After storing rows in turn, the id of each row is held, with the last row
/// stored under it; an id no row has keeps what it had.
pub proof fn law_inserted_all<T: Keyed>(m: Map<u128, T>, rows: Seq<T>)
    ensures
        forall|i: int|
            0 <= i < rows.len() ==> {
                &&& inserted_all(m, rows).contains_key((#[trigger] rows[i]).id_value())
                &&& 0 <= last_index_of_id(rows, rows[i].id_value()) < rows.len()
                &&& inserted_all(m, rows)[rows[i].id_value()] == rows[last_index_of_id(
                    rows,
                    rows[i].id_value(),
                )]
            },
        forall|k: u128|
            (forall|i: int| 0 <= i < rows.len() ==> (#[trigger] rows[i]).id_value() != k) ==> {
                &&& (#[trigger] inserted_all(m, rows).contains_key(k)) == m.contains_key(k)
                &&& m.contains_key(k) ==> inserted_all(m, rows)[k] == m[k]
            },
    decreases rows.len(),
{
    if rows.len() > 0 {
        let prefix = rows.drop_last();
        let x = rows.last();
        law_inserted_all(m, prefix);
        assert forall|i: int| 0 <= i < rows.len() implies {
            &&& inserted_all(m, rows).contains_key((#[trigger] rows[i]).id_value())
            &&& 0 <= last_index_of_id(rows, rows[i].id_value()) < rows.len()
            &&& inserted_all(m, rows)[rows[i].id_value()] == rows[last_index_of_id(
                rows,
                rows[i].id_value(),
            )]
        } by {
            if rows[i].id_value() == x.id_value() {
            } else {
                assert(i < prefix.len());
                assert(prefix[i] == rows[i]);
            }
        }
        assert forall|k: u128|
            (forall|i: int| 0 <= i < rows.len() ==> (#[trigger] rows[i]).id_value() != k) implies {
            &&& (#[trigger] inserted_all(m, rows).contains_key(k)) == m.contains_key(k)
            &&& m.contains_key(k) ==> inserted_all(m, rows)[k] == m[k]
        } by {
            assert(rows[rows.len() - 1].id_value() != k);
            assert forall|i: int| 0 <= i < prefix.len() implies (#[trigger] prefix[i]).id_value() != k by {
                assert(rows[i] == prefix[i]);
            }
            assert(inserted_all(m, prefix).contains_key(k) == m.contains_key(k));
            assert(inserted_all(m, rows) == inserted_all(m, prefix).insert(x.id_value(), x));
        }
    }
}

/// Mapping a sequence through a function that keeps ids keeps where the last
/// element with an id stands.
pub proof fn lemma_last_index_of_id_map<A: Keyed, B: Keyed>(s: Seq<A>, f: spec_fn(A) -> B, id: u128)
    requires
        forall|a: A| #[trigger] f(a).id_value() == a.id_value(),
    ensures
        last_index_of_id(s.map_values(f), id) == last_index_of_id(s, id),
    decreases s.len(),
{
    if s.len() > 0 {
        assert(s.map_values(f).drop_last() =~= s.drop_last().map_values(f));
        assert(s.map_values(f).last() == f(s.last()));
        lemma_last_index_of_id_map(s.drop_last(), f, id);
    }
}

/// Removing the rows of some ids leaves none of them.
pub proof fn law_removed_all_absent<T>(m: Map<u128, T>, ids: Seq<u128>)
    ensures
        forall|i: int| 0 <= i < ids.len() ==> !removed_all(m, ids).contains_key(#[trigger] ids[i]),
        forall|k: u128|
            !ids.contains(k) ==> (#[trigger] removed_all(m, ids).contains_key(k)) == m.contains_key(k),
{
    assert forall|i: int| 0 <= i < ids.len() implies !removed_all(m, ids).contains_key(#[trigger] ids[i]) by {
        assert(ids.contains(ids[i]));
    }
}

proof fn lemma_last_index_push_other<T: Keyed>(s: Seq<T>, x: T, id: u128, j: int)
    requires
        x.id_value() != id,
    ensures
        last_index_of_id(s.push(x), id) == last_index_of_id(s, id),
{
    assert(s.push(x).drop_last() =~= s);
}

proof fn lemma_last_index_push_same<T: Keyed>(s: Seq<T>, x: T)
    ensures
        last_index_of_id(s.push(x), x.id_value()) == s.len(),
{
}

} // verus!
