//! Applying a validated action, or a whole request, to the task table.
use vstd::prelude::*;

use crate::error::{StoreError, TaskError};
use crate::payload::{Action, ActionView, TaskPayload, action_valid, decoded};
use crate::table::{MAX_TASK_ID, TaskTable, has_id, replaced, without_id};
use crate::task::TaskView;

verus! {

/// What a successful request did.
#[derive(Clone, Copy, Debug, PartialEq, Eq, Structural)]
pub enum Outcome {
    /// A task was created with this identifier.
    Created(i64),
    /// This many rows were edited: 0 when no task had the identifier.
    Updated(u64),
    /// This many rows were removed: 0 when no task had the identifier.
    Deleted(u64),
}

/// The number of rows of `rows` that carry identifier `id`, in a table where identifiers
/// are unique.
pub open spec fn affected(rows: Seq<TaskView>, id: i64) -> u64 {
    if has_id(rows, id) {
        1
    } else {
        0
    }
}

/// The store cannot carry out `a` on a table whose next identifier is `next_id`.
pub open spec fn store_refuses(next_id: int, a: ActionView) -> bool {
    a is Add && next_id > MAX_TASK_ID
}

/// The rows after `a` is carried out on `rows`, the next identifier being `next_id`.
pub open spec fn rows_after(rows: Seq<TaskView>, next_id: int, a: ActionView) -> Seq<TaskView> {
    match a {
        ActionView::Add { description, priority } => rows.push(
            TaskView { id: next_id as i64, description, priority },
        ),
        ActionView::Edit { id, description, priority } => replaced(rows, id, description, priority),
        ActionView::Delete { id } => without_id(rows, id),
    }
}

/// What carrying out `a` on `rows` reports, the next identifier being `next_id`.
pub open spec fn outcome_of(rows: Seq<TaskView>, next_id: int, a: ActionView) -> Outcome {
    match a {
        ActionView::Add { .. } => Outcome::Created(next_id as i64),
        ActionView::Edit { id, .. } => Outcome::Updated(affected(rows, id)),
        ActionView::Delete { id } => Outcome::Deleted(affected(rows, id)),
    }
}

/// The next identifier after `a` is carried out.
pub open spec fn next_id_after(next_id: int, a: ActionView) -> int {
    if a is Add {
        next_id + 1
    } else {
        next_id
    }
}

/// Carries out one validated action on the table with a single store statement.
pub fn apply_action(table: &mut TaskTable, action: Action) -> (r: Result<Outcome, StoreError>)
    requires
        old(table).wf(),
        action_valid(action@),
    ensures
        final(table).wf(),
        r is Err <==> store_refuses(old(table).next_id(), action@),
        match r {
            Ok(o) => {
                &&& o == outcome_of(old(table)@, old(table).next_id(), action@)
                &&& final(table)@ == rows_after(old(table)@, old(table).next_id(), action@)
                &&& final(table).next_id() == next_id_after(old(table).next_id(), action@)
            },
            Err(e) => e == StoreError::IdsExhausted && *final(table) == *old(table),
        },
{
    match action {
        Action::Add { description, priority } => match table.create_task(description, priority) {
            Ok(id) => Ok(Outcome::Created(id)),
            Err(e) => Err(e),
        },
        Action::Edit { id, description, priority } => {
            let n = table.update_task(id, description, priority);
            Ok(Outcome::Updated(n))
        },
        Action::Delete { id } => {
            let n = table.delete_task(id);
            Ok(Outcome::Deleted(n))
        },
    }
}

impl TaskPayload {
    /// Validates the request and carries out the action it names on the table. A malformed
    /// request fails with a validation error and leaves the table untouched; a store failure
    /// is reported, never dropped.
    pub fn execute_action(&self, table: &mut TaskTable) -> (r: Result<Outcome, TaskError>)
        requires
            old(table).wf(),
        ensures
            final(table).wf(),
            match decoded(self@) {
                Err(e) => r == Err::<Outcome, TaskError>(TaskError::Validation(e)) && *final(table)
                    == *old(table),
                Ok(a) => if store_refuses(old(table).next_id(), a) {
                    &&& r == Err::<Outcome, TaskError>(TaskError::Store(StoreError::IdsExhausted))
                    &&& *final(table) == *old(table)
                } else {
                    &&& r == Ok::<Outcome, TaskError>(outcome_of(old(table)@, old(table).next_id(), a))
                    &&& final(table)@ == rows_after(old(table)@, old(table).next_id(), a)
                    &&& final(table).next_id() == next_id_after(old(table).next_id(), a)
                },
            },
    {
        match self.to_action() {
            Err(e) => Err(TaskError::Validation(e)),
            Ok(action) => match apply_action(table, action) {
                Ok(o) => Ok(o),
                Err(e) => Err(TaskError::Store(e)),
            },
        }
    }
}

} // verus!
