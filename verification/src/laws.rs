//! What holds of the store's operations taken together, stated over the
//! model of the store and proved once for all collections.

use vstd::prelude::*;
use crate::record::{RecordView, missing};
use crate::service::{delete_response, error_response, get_response};
use crate::store::{
    after_create, after_delete, first_match, has_id, is_first_match, lemma_first_match_exists,
    occurrences,
};

verus! {

/// The collection after the records of `created` were created one after the
/// other, starting from `start`.
pub open spec fn after_creates(start: Seq<RecordView>, created: Seq<RecordView>) -> Seq<
    RecordView,
>
    decreases created.len(),
{
    if created.len() == 0 {
        start
    } else {
        after_create(after_creates(start, created.drop_last()), created.last())
    }
}

/// After any run of creations the collection is what it was, followed by the
/// created records in the order of their creation. Starting from nothing, it
/// is exactly the created records.
pub proof fn lemma_creates_are_listed_in_order(start: Seq<RecordView>, created: Seq<RecordView>)
    ensures
        after_creates(start, created) == start + created,
        after_creates(Seq::<RecordView>::empty(), created) == created,
    decreases created.len(),
{
    if created.len() == 0 {
        assert(start + created =~= start);
        assert(after_creates(Seq::<RecordView>::empty(), created) =~= created);
    } else {
        let earlier = created.drop_last();
        lemma_creates_are_listed_in_order(start, earlier);
        assert((start + earlier).push(created.last()) =~= start + created);
        assert(earlier.push(created.last()) =~= created);
    }
}

/// Some record carries `id` exactly when `id` occurs at least once.
pub proof fn lemma_has_id_counts(s: Seq<RecordView>, id: u32)
    ensures
        has_id(s, id) <==> occurrences(s, id) > 0,
    decreases s.len(),
{
    if s.len() > 0 {
        let front = s.drop_last();
        lemma_has_id_counts(front, id);
        if has_id(front, id) {
            let i = choose|i: int| 0 <= i < front.len() && #[trigger] front[i].id == id;
            assert(s[i].id == id);
        }
        if s.last().id == id {
            assert(s[s.len() - 1].id == id);
        }
        if has_id(s, id) && s.last().id != id {
            let i = choose|i: int| 0 <= i < s.len() && #[trigger] s[i].id == id;
            assert(front[i].id == id);
        }
    }
}

/// Taking out the record at `i` lowers the count of its id by one and leaves
/// the count of every other id as it was.
pub proof fn lemma_remove_counts(s: Seq<RecordView>, i: int, id: u32)
    requires
        0 <= i < s.len(),
    ensures
        occurrences(s.remove(i), id) == occurrences(s, id) - if s[i].id == id {
            1int
        } else {
            0int
        },
    decreases s.len(),
{
    let rest = s.remove(i);
    if i == s.len() - 1 {
        assert(rest =~= s.drop_last());
    } else {
        assert(rest.drop_last() =~= s.drop_last().remove(i));
        assert(rest.last() == s.last());
        lemma_remove_counts(s.drop_last(), i, id);
    }
}

/// A delete that finds its id takes out exactly one record, one that carries
/// that id: the collection is shorter by one, the id occurs once less, and
/// every other id occurs as often as before.
pub proof fn lemma_delete_removes_exactly_one(s: Seq<RecordView>, id: u32, other: u32)
    requires
        has_id(s, id),
        other != id,
    ensures
        after_delete(s, id).len() == s.len() - 1,
        occurrences(after_delete(s, id), id) == occurrences(s, id) - 1,
        occurrences(after_delete(s, id), other) == occurrences(s, other),
{
    lemma_first_match_exists(s, id);
    lemma_remove_counts(s, first_match(s, id), id);
    lemma_remove_counts(s, first_match(s, id), other);
}

/// A delete leaves the records before the one it takes out where they were,
/// and moves each record behind it up by one.
pub proof fn lemma_delete_keeps_order(s: Seq<RecordView>, id: u32, j: int)
    requires
        has_id(s, id),
        0 <= j < s.len() - 1,
    ensures
        is_first_match(s, id, first_match(s, id)),
        j < first_match(s, id) ==> after_delete(s, id)[j] == s[j],
        j >= first_match(s, id) ==> after_delete(s, id)[j] == s[j + 1],
{
    lemma_first_match_exists(s, id);
}

/// Where an id occurs exactly once, a delete of it succeeds and a second
/// delete of the same id, and a fetch of it, find nothing.
pub proof fn lemma_second_delete_finds_nothing(s: Seq<RecordView>, id: u32)
    requires
        occurrences(s, id) == 1,
    ensures
        has_id(s, id),
        !has_id(after_delete(s, id), id),
        after_delete(after_delete(s, id), id) == after_delete(s, id),
        delete_response(after_delete(s, id), id) == error_response(missing(id)),
        get_response(after_delete(s, id), id) == error_response(missing(id)),
{
    lemma_has_id_counts(s, id);
    lemma_first_match_exists(s, id);
    lemma_remove_counts(s, first_match(s, id), id);
    lemma_has_id_counts(after_delete(s, id), id);
}

/// A second delete of the same id succeeds exactly when the id occurred more
/// than once before the first.
pub proof fn lemma_second_delete_needs_duplicate(s: Seq<RecordView>, id: u32)
    requires
        has_id(s, id),
    ensures
        has_id(after_delete(s, id), id) <==> occurrences(s, id) >= 2,
{
    lemma_first_match_exists(s, id);
    lemma_remove_counts(s, first_match(s, id), id);
    lemma_has_id_counts(after_delete(s, id), id);
}

} // verus!
