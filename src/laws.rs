//! Properties that hold of every request and every table, proved over the models that
//! the contracts of the dispatcher and of the table speak of.
use vstd::prelude::*;

use crate::dispatch::{Outcome, outcome_of, rows_after};
use crate::error::ValidationError;
use crate::payload::{ActionView, PayloadView, decoded};
use crate::table::{MAX_TASK_ID, has_id, other_than, rows_valid, without_id};
use crate::task::TaskView;

verus! {

/// Rows below the next identifier to be handed out, as in a well-formed table.
pub open spec fn below(rows: Seq<TaskView>, next_id: int) -> bool {
    forall|k: int| 0 <= k < rows.len() ==> (#[trigger] rows[k]).id < next_id
}

/// Removing the rows of an identifier that no row has leaves the rows as they are.
proof fn lemma_without_absent(s: Seq<TaskView>, id: i64)
    requires
        !has_id(s, id),
    ensures
        without_id(s, id) == s,
    decreases s.len(),
{
    reveal(Seq::filter);
    if s.len() > 0 {
        assert(!has_id(s.drop_last(), id)) by {
            if has_id(s.drop_last(), id) {
                let k = choose|k: int| 0 <= k < s.drop_last().len() && #[trigger] s.drop_last()[k].id == id;
                assert(s[k].id == id);
            }
        }
        lemma_without_absent(s.drop_last(), id);
        assert(s.last().id != id) by {
            assert(s[s.len() - 1].id == s.last().id);
        }
        assert(s.drop_last().push(s.last()) =~= s);
    }
}

/// After removing the rows of an identifier, no row has it.
proof fn lemma_without_removes(s: Seq<TaskView>, id: i64)
    ensures
        !has_id(without_id(s, id), id),
{
    broadcast use Seq::lemma_filter_pred;

    if has_id(without_id(s, id), id) {
        let k = choose|k: int| 0 <= k < without_id(s, id).len() && #[trigger] without_id(s, id)[k].id == id;
        assert((other_than(id))(s.filter(other_than(id))[k]));
    }
}

/// A request to add a task with a non-empty description and a priority is accepted; the
/// table then holds one row more, with that description and priority and an identifier
/// that no earlier row had, and its rows are still valid.
pub proof fn law_add_creates_one_fresh_row(
    rows: Seq<TaskView>,
    next_id: int,
    p: PayloadView,
    description: Seq<char>,
    priority: u32,
)
    requires
        rows_valid(rows),
        below(rows, next_id),
        1 <= next_id <= MAX_TASK_ID,
        p.action == "add"@,
        p.task == Some(description),
        p.priority == Some(priority),
        description.len() > 0,
    ensures
        decoded(p) == Ok::<ActionView, ValidationError>(ActionView::Add { description, priority }),
        rows_after(rows, next_id, ActionView::Add { description, priority }).len() == rows.len() + 1,
        rows_after(rows, next_id, ActionView::Add { description, priority }).to_multiset()
            == rows.to_multiset().insert(TaskView { id: next_id as i64, description, priority }),
        !has_id(rows, next_id as i64),
        rows_valid(rows_after(rows, next_id, ActionView::Add { description, priority })),
{
    broadcast use vstd::seq_lib::group_to_multiset_ensures;

    reveal_strlit("add");
    reveal_strlit("delete");
    assert(p.action != "delete"@) by {
        assert(p.action.len() != "delete"@.len());
    }
    if has_id(rows, next_id as i64) {
        let k = choose|k: int| 0 <= k < rows.len() && #[trigger] rows[k].id == next_id as i64;
        assert(rows[k].id < next_id);
    }
    let after = rows_after(rows, next_id, ActionView::Add { description, priority });
    assert forall|a: int, b: int| 0 <= a < b < after.len() implies (#[trigger] after[a]).id < (
    #[trigger] after[b]).id by {
        if b < rows.len() {
            assert(rows[a].id < rows[b].id);
        } else {
            assert(rows[a].id < next_id);
        }
    }
}

/// A request to edit a task is accepted when it names an identifier, a non-empty
/// description and a priority. The row with that identifier, if any, takes the new
/// description and priority and keeps its identifier and its place; every other row stays
/// as it was. When no row has the identifier, the table is unchanged and no row is counted.
pub proof fn law_edit_replaces_in_place(
    rows: Seq<TaskView>,
    next_id: int,
    p: PayloadView,
    id: i64,
    description: Seq<char>,
    priority: u32,
)
    requires
        p.action == "edit"@,
        p.id == Some(id),
        p.task == Some(description),
        p.priority == Some(priority),
        description.len() > 0,
    ensures
        decoded(p) == Ok::<ActionView, ValidationError>(
            ActionView::Edit { id, description, priority },
        ),
        rows_after(rows, next_id, ActionView::Edit { id, description, priority }).len()
            == rows.len(),
        forall|k: int|
            0 <= k < rows.len() ==> {
                let t = #[trigger] rows_after(
                    rows,
                    next_id,
                    ActionView::Edit { id, description, priority },
                )[k];
                &&& t.id == rows[k].id
                &&& rows[k].id == id ==> t == TaskView { id, description, priority }
                &&& rows[k].id != id ==> t == rows[k]
            },
        !has_id(rows, id) ==> rows_after(rows, next_id, ActionView::Edit { id, description, priority })
            == rows && outcome_of(rows, next_id, ActionView::Edit { id, description, priority })
            == Outcome::Updated(0),
{
    reveal_strlit("add");
    reveal_strlit("edit");
    reveal_strlit("delete");
    assert(p.action != "delete"@) by {
        assert(p.action.len() != "delete"@.len());
    }
    assert(p.action != "add"@) by {
        assert(p.action[0] != "add"@[0]);
    }
    let a = ActionView::Edit { id, description, priority };
    if !has_id(rows, id) {
        assert(rows_after(rows, next_id, a) =~= rows);
    }
}

/// A request to delete names an identifier and is then accepted; afterwards no row has that
/// identifier, every other row is kept, and when no row had it the table is unchanged.
pub proof fn law_delete_removes_id(rows: Seq<TaskView>, next_id: int, p: PayloadView, id: i64)
    requires
        p.action == "delete"@,
        p.id == Some(id),
    ensures
        decoded(p) == Ok::<ActionView, ValidationError>(ActionView::Delete { id }),
        !has_id(rows_after(rows, next_id, ActionView::Delete { id }), id),
        forall|k: int|
            0 <= k < rows.len() && rows[k].id != id ==> rows_after(
                rows,
                next_id,
                ActionView::Delete { id },
            ).contains(#[trigger] rows[k]),
        !has_id(rows, id) ==> rows_after(rows, next_id, ActionView::Delete { id }) == rows,
{
    broadcast use Seq::lemma_filter_contains;

    lemma_without_removes(rows, id);
    if !has_id(rows, id) {
        lemma_without_absent(rows, id);
    }
    assert forall|k: int| 0 <= k < rows.len() && rows[k].id != id implies without_id(
        rows,
        id,
    ).contains(#[trigger] rows[k]) by {
        assert((other_than(id))(rows[k]));
    }
}

/// Deleting the same identifier twice: the second delete changes nothing and counts no row.
pub proof fn law_delete_twice(rows: Seq<TaskView>, next_id: int, id: i64)
    ensures
        ({
            let once = rows_after(rows, next_id, ActionView::Delete { id });
            &&& outcome_of(once, next_id, ActionView::Delete { id }) == Outcome::Deleted(0)
            &&& rows_after(once, next_id, ActionView::Delete { id }) == once
        }),
{
    let once = rows_after(rows, next_id, ActionView::Delete { id });
    lemma_without_removes(rows, id);
    lemma_without_absent(once, id);
}

/// A request to add a task whose description is present but empty is rejected as invalid,
/// before anything is stored.
pub proof fn law_add_empty_description_rejected(p: PayloadView)
    requires
        p.action == "add"@,
        p.task == Some(Seq::<char>::empty()),
        p.priority is Some,
    ensures
        decoded(p) == Err::<ActionView, ValidationError>(ValidationError::EmptyDescription),
{
    reveal_strlit("add");
    reveal_strlit("delete");
    assert(p.action != "delete"@) by {
        assert(p.action.len() != "delete"@.len());
    }
}

/// A request whose action tag is none of `add`, `edit` and `delete` is rejected as invalid,
/// whatever its other fields hold.
pub proof fn law_unknown_action_rejected(p: PayloadView)
    requires
        p.action != "add"@,
        p.action != "edit"@,
        p.action != "delete"@,
    ensures
        decoded(p) == Err::<ActionView, ValidationError>(ValidationError::UnknownAction),
{
}

} // verus!
