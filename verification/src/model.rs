//! The collection as a mathematical sequence, and what each operation makes of it.

use vstd::prelude::*;
use crate::record::{record, InsertTodoView, TodoView};

verus! {

/// Identifiers grow strictly along the collection, so no two records share one.
pub open spec fn ids_increasing(s: Seq<TodoView>) -> bool {
    forall|i: int, j: int| 0 <= i < j < s.len() ==> s[i].id < s[j].id
}

/// The identifier that the next created record receives: one more than that of the
/// last record, or 1 in an empty collection. It goes by the last record, not by the
/// largest identifier ever given: once the last record is removed, its identifier is
/// given out again.
pub open spec fn next_id(s: Seq<TodoView>) -> nat {
    if s.len() == 0 {
        1
    } else {
        s.last().id + 1
    }
}

/// `i` is the first position in `s` whose record has the identifier `id`.
pub open spec fn is_first_match(s: Seq<TodoView>, id: nat, i: int) -> bool {
    &&& 0 <= i < s.len()
    &&& s[i].id == id
    &&& forall|j: int| 0 <= j < i ==> s[j].id != id
}

/// The first position in `s` whose record has the identifier `id`, if there is one.
pub open spec fn position(s: Seq<TodoView>, id: nat) -> Option<int> {
    if exists|i: int| is_first_match(s, id, i) {
        Some(choose|i: int| is_first_match(s, id, i))
    } else {
        None
    }
}

/// The collection after creating a record from `payload`.
pub open spec fn created(s: Seq<TodoView>, payload: InsertTodoView) -> Seq<TodoView> {
    s.push(record(next_id(s), payload))
}

/// The first record of `s` with the identifier `id`, if there is one.
pub open spec fn found(s: Seq<TodoView>, id: nat) -> Option<TodoView> {
    match position(s, id) {
        Some(i) => Some(s[i]),
        None => None,
    }
}

/// The collection after replacing the payload of the record `id`; unchanged if there is none.
pub open spec fn updated(s: Seq<TodoView>, id: nat, payload: InsertTodoView) -> Seq<TodoView> {
    match position(s, id) {
        Some(i) => s.update(i, record(id, payload)),
        None => s,
    }
}

/// The collection after removing the record `id`; unchanged if there is none.
pub open spec fn deleted(s: Seq<TodoView>, id: nat) -> Seq<TodoView> {
    match position(s, id) {
        Some(i) => s.remove(i),
        None => s,
    }
}

/// A first match is the position, and there is no other.
pub proof fn lemma_first_match_is_position(s: Seq<TodoView>, id: nat, i: int)
    requires
        is_first_match(s, id, i),
    ensures
        position(s, id) == Some(i),
{
    let k = choose|k: int| is_first_match(s, id, k);
    assert(is_first_match(s, id, k));
    if k < i {
        assert(s[k].id != id);
    } else if i < k {
        assert(s[i].id != id);
    }
}

/// Where some record has the identifier, there is a first one.
pub proof fn lemma_match_has_first(s: Seq<TodoView>, id: nat, k: int)
    requires
        0 <= k < s.len(),
        s[k].id == id,
    ensures
        exists|i: int| is_first_match(s, id, i),
    decreases k,
{
    if exists|j: int| 0 <= j < k && s[j].id == id {
        let j = choose|j: int| 0 <= j < k && s[j].id == id;
        lemma_match_has_first(s, id, j);
    } else {
        assert(is_first_match(s, id, k));
    }
}

/// The position is absent exactly when no record has the identifier.
pub proof fn lemma_position_none(s: Seq<TodoView>, id: nat)
    ensures
        position(s, id) is None <==> forall|k: int| 0 <= k < s.len() ==> s[k].id != id,
{
    if position(s, id) is None {
        assert forall|k: int| 0 <= k < s.len() implies s[k].id != id by {
            if s[k].id == id {
                lemma_match_has_first(s, id, k);
            }
        }
    } else {
        let i = position(s, id)->0;
        assert(is_first_match(s, id, i));
    }
}

} // verus!
