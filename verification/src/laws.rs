//! What holds of the operations taken together.

use vstd::prelude::*;
use crate::message::{applied, reply_to, run, APIError, TodoMessageView, TodoReplyView};
use crate::model::{
    created, deleted, found, ids_increasing, is_first_match, lemma_first_match_is_position,
    lemma_position_none, next_id, position, updated,
};
use crate::record::{record, InsertTodoView, TodoView};

verus! {

/// Every operation keeps the identifiers strictly increasing, and with that distinct.
pub proof fn lemma_applied_keeps_ids_increasing(s: Seq<TodoView>, msg: TodoMessageView)
    requires
        ids_increasing(s),
    ensures
        ids_increasing(applied(s, msg)),
        forall|i: int, j: int|
            0 <= i < applied(s, msg).len() && 0 <= j < applied(s, msg).len() && i != j
                ==> applied(s, msg)[i].id != applied(s, msg)[j].id,
{
    let t = applied(s, msg);
    match msg {
        TodoMessageView::Add(p) => {
            lemma_create_then_read(s, p);
        },
        TodoMessageView::Delete(id) => {
            if position(s, id) is Some {
                let k = position(s, id)->0;
                assert forall|i: int, j: int| 0 <= i < j < t.len() implies t[i].id < t[j].id by {
                    let a = if i < k { i } else { i + 1 };
                    let b = if j < k { j } else { j + 1 };
                    assert(t[i] == s[a] && t[j] == s[b]);
                }
            }
        },
        TodoMessageView::ReadAll => {},
        TodoMessageView::Read(_) => {},
        TodoMessageView::Update(p, id) => {
            if position(s, id) is Some {
                lemma_update_then_read(s, id, p);
            }
        },
    }
    assert forall|i: int, j: int| 0 <= i < t.len() && 0 <= j < t.len() && i != j implies t[i].id
        != t[j].id by {
        if i < j {
            assert(t[i].id < t[j].id);
        } else {
            assert(t[j].id < t[i].id);
        }
    }
}

/// At any point of any sequence of operations, no two records of the collection share an
/// identifier.
pub proof fn lemma_ids_stay_distinct(s: Seq<TodoView>, msgs: Seq<TodoMessageView>)
    requires
        ids_increasing(s),
    ensures
        ids_increasing(run(s, msgs)),
        forall|i: int, j: int|
            0 <= i < run(s, msgs).len() && 0 <= j < run(s, msgs).len() && i != j ==> run(
                s,
                msgs,
            )[i].id != run(s, msgs)[j].id,
    decreases msgs.len(),
{
    if msgs.len() > 0 {
        lemma_ids_stay_distinct(s, msgs.drop_last());
        lemma_applied_keeps_ids_increasing(run(s, msgs.drop_last()), msgs.last());
    } else {
        lemma_applied_keeps_ids_increasing(s, TodoMessageView::ReadAll);
    }
}

/// Reading the identifier that a creation has just assigned yields the created record:
/// that identifier with the given payload.
pub proof fn lemma_create_then_read(s: Seq<TodoView>, payload: InsertTodoView)
    requires
        ids_increasing(s),
    ensures
        ids_increasing(created(s, payload)),
        found(created(s, payload), next_id(s)) == Some(record(next_id(s), payload)),
{
    let t = created(s, payload);
    let n = s.len() as int;
    assert forall|j: int| 0 <= j < n implies t[j].id != next_id(s) by {
        assert(t[j] == s[j]);
        if j < n - 1 {
            assert(s[j].id < s[n - 1].id);
        }
    }
    assert(is_first_match(t, next_id(s), n));
    lemma_first_match_is_position(t, next_id(s), n);
}

/// Replacing the payload of a record that exists changes that record's payload and nothing
/// else: every record keeps its place and its identifier, the others their payload too,
/// and reading the identifier afterwards yields it with the new payload.
pub proof fn lemma_update_then_read(s: Seq<TodoView>, id: nat, payload: InsertTodoView)
    requires
        position(s, id) is Some,
    ensures
        updated(s, id, payload).len() == s.len(),
        forall|j: int| 0 <= j < s.len() ==> (#[trigger] updated(s, id, payload)[j]).id == s[j].id,
        forall|j: int|
            0 <= j < s.len() && j != position(s, id)->0 ==> #[trigger] updated(s, id, payload)[j]
                == s[j],
        found(updated(s, id, payload), id) == Some(record(id, payload)),
        ids_increasing(s) ==> ids_increasing(updated(s, id, payload)),
{
    let i = position(s, id)->0;
    let t = updated(s, id, payload);
    assert(is_first_match(s, id, i));
    assert forall|j: int| 0 <= j < i implies t[j].id != id by {
        assert(t[j] == s[j]);
    }
    assert(is_first_match(t, id, i));
    lemma_first_match_is_position(t, id, i);
    if ids_increasing(s) {
        assert forall|a: int, b: int| 0 <= a < b < t.len() implies t[a].id < t[b].id by {
            assert(t[a].id == s[a].id && t[b].id == s[b].id);
        }
    }
}

/// After removing a record its identifier is gone: reading it finds nothing, and removing
/// it once more changes nothing. Removing an identifier that no record has changes nothing
/// either.
pub proof fn lemma_delete_then_read(s: Seq<TodoView>, id: nat)
    requires
        ids_increasing(s),
    ensures
        found(deleted(s, id), id) is None,
        position(deleted(s, id), id) is None,
        deleted(deleted(s, id), id) == deleted(s, id),
        position(s, id) is None ==> deleted(s, id) == s,
        reply_to(deleted(s, id), TodoMessageView::Read(id)) == Err::<TodoReplyView, APIError>(
            APIError::NotFound,
        ),
        reply_to(deleted(s, id), TodoMessageView::Delete(id)) == Err::<TodoReplyView, APIError>(
            APIError::NotFound,
        ),
{
    let t = deleted(s, id);
    if position(s, id) is Some {
        let k = position(s, id)->0;
        assert(is_first_match(s, id, k));
        assert forall|j: int| 0 <= j < t.len() implies t[j].id != id by {
            if j < k {
                assert(t[j] == s[j]);
            } else {
                assert(t[j] == s[j + 1]);
                assert(s[k].id < s[j + 1].id);
            }
        }
    } else {
        lemma_position_none(s, id);
    }
    lemma_position_none(t, id);
}

/// Handling one more message of a sequence is applying it to what the ones before it left.
pub proof fn lemma_run_step(s: Seq<TodoView>, msgs: Seq<TodoMessageView>, k: int)
    requires
        0 <= k < msgs.len(),
    ensures
        run(s, msgs.take(k + 1)) == applied(run(s, msgs.take(k)), msgs[k]),
{
    assert(msgs.take(k + 1).drop_last() =~= msgs.take(k));
}

/// Operations take effect one at a time and in order: the collection after a sequence of
/// messages is what the later ones make of the collection that the earlier ones left.
pub proof fn lemma_run_in_order(
    s: Seq<TodoView>,
    earlier: Seq<TodoMessageView>,
    later: Seq<TodoMessageView>,
)
    ensures
        run(s, earlier + later) == run(run(s, earlier), later),
    decreases later.len(),
{
    if later.len() == 0 {
        assert(earlier + later =~= earlier);
    } else {
        assert((earlier + later).drop_last() =~= earlier + later.drop_last());
        lemma_run_in_order(s, earlier, later.drop_last());
    }
}

/// While nothing is removed, the identifier that the next creation will assign never falls.
proof fn lemma_next_id_never_falls(s: Seq<TodoView>, msgs: Seq<TodoMessageView>, a: int, b: int)
    requires
        forall|k: int| 0 <= k < msgs.len() ==> !(msgs[k] is Delete),
        0 <= a <= b <= msgs.len(),
    ensures
        next_id(run(s, msgs.take(a))) <= next_id(run(s, msgs.take(b))),
    decreases b - a,
{
    if a < b {
        lemma_next_id_never_falls(s, msgs, a, b - 1);
        lemma_run_step(s, msgs, b - 1);
        let before = run(s, msgs.take(b - 1));
        match msgs[b - 1] {
            TodoMessageView::Update(p, id) => {
                if position(before, id) is Some {
                    assert(is_first_match(before, id, position(before, id)->0));
                }
            },
            _ => {},
        }
    }
}

/// In a sequence of operations that removes nothing, from whatever collection it starts,
/// two creations are never assigned the same identifier: the later one gets the greater.
pub proof fn lemma_creations_assign_distinct_ids(
    s: Seq<TodoView>,
    msgs: Seq<TodoMessageView>,
    i: int,
    j: int,
)
    requires
        forall|k: int| 0 <= k < msgs.len() ==> !(msgs[k] is Delete),
        0 <= i < j < msgs.len(),
        msgs[i] is Add,
        msgs[j] is Add,
    ensures
        next_id(run(s, msgs.take(i))) < next_id(run(s, msgs.take(j))),
        reply_to(run(s, msgs.take(i)), msgs[i]) != reply_to(run(s, msgs.take(j)), msgs[j]),
{
    lemma_run_step(s, msgs, i);
    lemma_next_id_never_falls(s, msgs, i + 1, j);
}

/// On an empty store, creations alone assign 1, 2, 3 and so on.
pub proof fn lemma_creations_count_up(msgs: Seq<TodoMessageView>, k: int)
    requires
        forall|i: int| 0 <= i < msgs.len() ==> msgs[i] is Add,
        0 <= k <= msgs.len(),
    ensures
        next_id(run(Seq::empty(), msgs.take(k))) == k + 1,
    decreases k,
{
    if k > 0 {
        lemma_creations_count_up(msgs, k - 1);
        lemma_run_step(Seq::empty(), msgs, k - 1);
    }
}

/// How many of `msgs` create a record.
pub open spec fn creations(msgs: Seq<TodoMessageView>) -> nat
    decreases msgs.len(),
{
    if msgs.len() == 0 {
        0
    } else {
        creations(msgs.drop_last()) + if msgs.last() is Add {
            1nat
        } else {
            0nat
        }
    }
}

/// How many of `msgs`, handled in order from the collection `s`, remove a record: the
/// removals that are answered with success.
pub open spec fn removals(s: Seq<TodoView>, msgs: Seq<TodoMessageView>) -> nat
    decreases msgs.len(),
{
    if msgs.len() == 0 {
        0
    } else {
        removals(s, msgs.drop_last()) + if msgs.last() is Delete && reply_to(
            run(s, msgs.drop_last()),
            msgs.last(),
        ) is Ok {
            1nat
        } else {
            0nat
        }
    }
}

/// The number of records grows by one with each creation and shrinks by one with each
/// removal that succeeds, and no other operation changes it.
pub proof fn lemma_length_counts_creations_and_removals(
    s: Seq<TodoView>,
    msgs: Seq<TodoMessageView>,
)
    ensures
        run(s, msgs).len() == s.len() + creations(msgs) - removals(s, msgs),
    decreases msgs.len(),
{
    if msgs.len() > 0 {
        lemma_length_counts_creations_and_removals(s, msgs.drop_last());
        let before = run(s, msgs.drop_last());
        match msgs.last() {
            TodoMessageView::Delete(id) => {
                if position(before, id) is Some {
                    assert(is_first_match(before, id, position(before, id)->0));
                }
            },
            TodoMessageView::Update(p, id) => {
                if position(before, id) is Some {
                    assert(is_first_match(before, id, position(before, id)->0));
                }
            },
            _ => {},
        }
    }
}

/// After any sequence of operations on an empty store, reading all yields as many records
/// as were created, less those removed.
pub proof fn lemma_read_all_length(msgs: Seq<TodoMessageView>)
    ensures
        reply_to(run(Seq::empty(), msgs), TodoMessageView::ReadAll) == Ok::<TodoReplyView, APIError>(
            TodoReplyView::Records(run(Seq::empty(), msgs)),
        ),
        run(Seq::empty(), msgs).len() == creations(msgs) - removals(Seq::empty(), msgs),
{
    lemma_length_counts_creations_and_removals(Seq::empty(), msgs);
}

} // verus!
