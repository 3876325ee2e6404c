//! The collection of records and the five operations on it.
//!
//! The model of a store is the sequence of its records' values, in insertion
//! order. Every operation is described as a function on that sequence.

use vstd::prelude::*;
use crate::record::{NotFound, Record, RecordView, missing};

verus! {

/// Some record of `s` carries `id`.
pub open spec fn has_id(s: Seq<RecordView>, id: u32) -> bool {
    exists|i: int| 0 <= i < s.len() && #[trigger] s[i].id == id
}

/// `i` is the position of the first record of `s` that carries `id`.
pub open spec fn is_first_match(s: Seq<RecordView>, id: u32, i: int) -> bool {
    &&& 0 <= i < s.len()
    &&& s[i].id == id
    &&& forall|j: int| 0 <= j < i ==> #[trigger] s[j].id != id
}

/// The position of the first record of `s` that carries `id`, where there is one.
pub open spec fn first_match(s: Seq<RecordView>, id: u32) -> int {
    choose|i: int| is_first_match(s, id, i)
}

/// The number of records of `s` that carry `id`.
pub open spec fn occurrences(s: Seq<RecordView>, id: u32) -> nat
    decreases s.len(),
{
    if s.len() == 0 {
        0
    } else {
        occurrences(s.drop_last(), id) + if s.last().id == id {
            1nat
        } else {
            0nat
        }
    }
}

/// The collection after a record was created.
pub open spec fn after_create(s: Seq<RecordView>, record: RecordView) -> Seq<RecordView> {
    s.push(record)
}

/// The collection after an update addressed to `id`: the first record that
/// carries `id` gives way to `record`, whatever id `record` itself carries.
pub open spec fn after_update(s: Seq<RecordView>, id: u32, record: RecordView) -> Seq<RecordView> {
    if has_id(s, id) {
        s.update(first_match(s, id), record)
    } else {
        s
    }
}

/// The collection after a delete addressed to `id`: the first record that
/// carries `id` leaves, and the others keep their order.
pub open spec fn after_delete(s: Seq<RecordView>, id: u32) -> Seq<RecordView> {
    if has_id(s, id) {
        s.remove(first_match(s, id))
    } else {
        s
    }
}

/// A first match is unique.
pub proof fn lemma_first_match_unique(s: Seq<RecordView>, id: u32, i: int, j: int)
    requires
        is_first_match(s, id, i),
        is_first_match(s, id, j),
    ensures
        i == j,
{
    if i < j {
        assert(s[i].id != id);
    } else if j < i {
        assert(s[j].id != id);
    }
}

/// Where some record carries `id`, `first_match` is the position of the first.
pub proof fn lemma_first_match_exists(s: Seq<RecordView>, id: u32)
    requires
        has_id(s, id),
    ensures
        is_first_match(s, id, first_match(s, id)),
{
    let k = choose|k: int| 0 <= k < s.len() && #[trigger] s[k].id == id;
    lemma_match_has_first(s, id, k);
}

/// A record that carries `id` at position `k` has a first match at or before it.
proof fn lemma_match_has_first(s: Seq<RecordView>, id: u32, k: int)
    requires
        0 <= k < s.len(),
        s[k].id == id,
    ensures
        exists|i: int| is_first_match(s, id, i),
    decreases k,
{
    if exists|j: int| 0 <= j < k && #[trigger] s[j].id == id {
        let j = choose|j: int| 0 <= j < k && #[trigger] s[j].id == id;
        lemma_match_has_first(s, id, j);
    } else {
        assert(is_first_match(s, id, k));
    }
}

/// The two records that a fresh service starts with.
pub open spec fn seed() -> Seq<RecordView> {
    seq![
        RecordView { id: 1, author: "Jane Doe"@ },
        RecordView { id: 2, author: "Patrick Star"@ },
    ]
}

/// An ordered collection of records. Ids may repeat; a lookup by id always
/// settles on the first record that carries it.
pub struct Store {
    records: Vec<Record>,
}

impl View for Store {
    type V = Seq<RecordView>;

    closed spec fn view(&self) -> Seq<RecordView> {
        self.records.deep_view()
    }
}

impl Store {
    /// A store that holds nothing.
    pub fn empty() -> (store: Store)
        ensures
            store@ == Seq::<RecordView>::empty(),
    {
        let store = Store { records: Vec::new() };
        assert(store@ =~= Seq::<RecordView>::empty());
        store
    }

    /// A store that holds the two seed records, in their order.
    pub fn seeded() -> (store: Store)
        ensures
            store@ == seed(),
    {
        let mut records: Vec<Record> = Vec::new();
        records.push(Record { id: 1, author: String::from_str("Jane Doe") });
        records.push(Record { id: 2, author: String::from_str("Patrick Star") });
        let store = Store { records };
        assert(store@ =~= seed());
        store
    }

    /// The number of records held.
    pub fn len(&self) -> (n: usize)
        ensures
            n == self@.len(),
    {
        self.records.len()
    }

    /// All records, in collection order.
    pub fn list(&self) -> (all: &Vec<Record>)
        ensures
            all.deep_view() == self@,
    {
        &self.records
    }

    /// Where the first record that carries `id` stands, if any does.
    pub fn position(&self, id: u32) -> (found: Option<usize>)
        ensures
            match found {
                Some(i) => has_id(self@, id) && i == first_match(self@, id) && is_first_match(
                    self@,
                    id,
                    i as int,
                ),
                None => !has_id(self@, id),
            },
    {
        let mut i: usize = 0;
        while i < self.records.len()
            invariant
                i <= self.records.len(),
                forall|j: int| 0 <= j < i ==> #[trigger] self@[j].id != id,
            decreases self.records.len() - i,
        {
            if self.records[i].id == id {
                proof {
                    assert(self@[i as int].id == id);
                    assert(is_first_match(self@, id, i as int));
                    lemma_first_match_exists(self@, id);
                    lemma_first_match_unique(self@, id, i as int, first_match(self@, id));
                }
                return Some(i);
            }
            i += 1;
        }
        None
    }

    /// Appends `record` at the end. No id is refused, present or not.
    pub fn create(&mut self, record: Record)
        ensures
            final(self)@ == after_create(old(self)@, record@),
    {
        self.records.push(record);
        assert(self@ =~= after_create(old(self)@, record@));
    }

    /// A copy of the first record that carries `id`.
    pub fn get(&self, id: u32) -> (outcome: Result<Record, NotFound>)
        ensures
            match outcome {
                Ok(record) => has_id(self@, id) && record@ == self@[first_match(self@, id)],
                Err(e) => !has_id(self@, id) && e@ == missing(id),
            },
            outcome is Ok ==> is_first_match(self@, id, first_match(self@, id)),
    {
        match self.position(id) {
            Some(i) => Ok(self.records[i].clone()),
            None => Err(NotFound::for_id(id)),
        }
    }

    /// Puts `record` in the place of the first record that carries `id`, and
    /// hands back a copy of what is now stored there. The stored id is that
    /// of `record`, which may differ from `id`.
    pub fn update(&mut self, id: u32, record: Record) -> (outcome: Result<Record, NotFound>)
        ensures
            final(self)@ == after_update(old(self)@, id, record@),
            match outcome {
                Ok(stored) => {
                    &&& has_id(old(self)@, id)
                    &&& stored@ == record@
                    &&& final(self)@ == old(self)@.update(first_match(old(self)@, id), record@)
                    &&& final(self)@[first_match(old(self)@, id)] == record@
                    &&& final(self)@.len() == old(self)@.len()
                },
                Err(e) => {
                    &&& !has_id(old(self)@, id)
                    &&& e@ == missing(id)
                    &&& final(self)@ == old(self)@
                },
            },
            outcome is Ok ==> is_first_match(old(self)@, id, first_match(old(self)@, id)),
    {
        match self.position(id) {
            Some(i) => {
                let stored = record.clone();
                self.records[i] = record;
                assert(self@ =~= old(self)@.update(i as int, record@));
                Ok(stored)
            },
            None => Err(NotFound::for_id(id)),
        }
    }

    /// Takes out the first record that carries `id` and hands it back. The
    /// records behind it move up by one; no other record changes place.
    pub fn delete(&mut self, id: u32) -> (outcome: Result<Record, NotFound>)
        ensures
            final(self)@ == after_delete(old(self)@, id),
            match outcome {
                Ok(removed) => {
                    &&& has_id(old(self)@, id)
                    &&& removed@ == old(self)@[first_match(old(self)@, id)]
                    &&& removed.id == id
                    &&& final(self)@ == old(self)@.remove(first_match(old(self)@, id))
                    &&& final(self)@.len() == old(self)@.len() - 1
                },
                Err(e) => {
                    &&& !has_id(old(self)@, id)
                    &&& e@ == missing(id)
                    &&& final(self)@ == old(self)@
                },
            },
            outcome is Ok ==> is_first_match(old(self)@, id, first_match(old(self)@, id)),
    {
        match self.position(id) {
            Some(i) => {
                let removed = self.records.remove(i);
                assert(self@ =~= old(self)@.remove(i as int));
                Ok(removed)
            },
            None => Err(NotFound::for_id(id)),
        }
    }
}

} // verus!
