//! An in-memory task store: the table of task rows and its four statements.
use vstd::prelude::*;

use crate::error::StoreError;
use crate::task::{Task, TaskView, views, in_listing_order, order_for_listing};

verus! {

/// Largest identifier that the store can hand out.
pub const MAX_TASK_ID: u64 = 0x7fff_ffff_ffff_ffff;

/// Some row of `s` has identifier `id`.
pub open spec fn has_id(s: Seq<TaskView>, id: i64) -> bool {
    exists|k: int| 0 <= k < s.len() && #[trigger] s[k].id == id
}

/// `s` with the description and priority of the row with identifier `id` replaced.
pub open spec fn replaced(s: Seq<TaskView>, id: i64, description: Seq<char>, priority: u32) -> Seq<
    TaskView,
> {
    s.map_values(
        |t: TaskView|
            if t.id == id {
                TaskView { id, description, priority }
            } else {
                t
            },
    )
}

/// Holds of the rows whose identifier is not `id`.
pub open spec fn other_than(id: i64) -> spec_fn(TaskView) -> bool {
    |t: TaskView| t.id != id
}

/// `s` without the rows that have identifier `id`.
pub open spec fn without_id(s: Seq<TaskView>, id: i64) -> Seq<TaskView> {
    s.filter(other_than(id))
}

/// Rows as the store keeps them: identifiers positive and strictly ascending, descriptions
/// non-empty.
pub open spec fn rows_valid(s: Seq<TaskView>) -> bool {
    &&& forall|k: int| 0 <= k < s.len() ==> (#[trigger] s[k]).id >= 1 && s[k].description.len() > 0
    &&& forall|a: int, b: int| 0 <= a < b < s.len() ==> (#[trigger] s[a]).id < (#[trigger] s[b]).id
}

/// The table of tasks. Rows are kept in the order in which they were created, which is
/// the order of their identifiers; identifiers are never handed out twice.
pub struct TaskTable {
    rows: Vec<Task>,
    next_id: u64,
}

impl View for TaskTable {
    type V = Seq<TaskView>;

    closed spec fn view(&self) -> Seq<TaskView> {
        views(self.rows@)
    }
}

impl TaskTable {
    /// The identifier that the next created task will receive.
    pub closed spec fn next_id(&self) -> int {
        self.next_id as int
    }

    /// The table's invariant.
    pub closed spec fn wf(&self) -> bool {
        &&& 1 <= self.next_id <= MAX_TASK_ID + 1
        &&& rows_valid(self@)
        &&& forall|k: int| 0 <= k < self@.len() ==> (#[trigger] self@[k]).id < self.next_id
    }

    /// An empty table whose first task will get identifier 1.
    pub fn new() -> (r: TaskTable)
        ensures
            r.wf(),
            r@ == Seq::<TaskView>::empty(),
            r.next_id() == 1,
    {
        let r = TaskTable { rows: Vec::new(), next_id: 1 };
        assert(r@ =~= Seq::<TaskView>::empty());
        r
    }

    /// An empty table whose first task will get identifier `first_id`, as when the store
    /// resumes a counter kept elsewhere.
    pub fn with_first_id(first_id: u64) -> (r: TaskTable)
        requires
            1 <= first_id <= MAX_TASK_ID + 1,
        ensures
            r.wf(),
            r@ == Seq::<TaskView>::empty(),
            r.next_id() == first_id,
    {
        let r = TaskTable { rows: Vec::new(), next_id: first_id };
        assert(r@ =~= Seq::<TaskView>::empty());
        r
    }

    /// The number of tasks in the table.
    pub fn len(&self) -> (r: usize)
        ensures
            r == self@.len(),
    {
        self.rows.len()
    }

    /// Stores a new task and returns the identifier assigned to it, which no row has held.
    /// Fails, leaving the table as it was, once every identifier has been handed out.
    pub fn create_task(&mut self, description: String, priority: u32) -> (r: Result<i64, StoreError>)
        requires
            old(self).wf(),
            description@.len() > 0,
        ensures
            final(self).wf(),
            r is Err <==> old(self).next_id() > MAX_TASK_ID,
            match r {
                Ok(id) => {
                    &&& id == old(self).next_id()
                    &&& final(self).next_id() == id + 1
                    &&& final(self)@ == old(self)@.push(
                        TaskView { id, description: description@, priority },
                    )
                    &&& forall|k: int| 0 <= k < old(self)@.len() ==> (#[trigger] old(self)@[k]).id < id
                },
                Err(e) => e == StoreError::IdsExhausted && *final(self) == *old(self),
            },
    {
        if self.next_id > MAX_TASK_ID {
            return Err(StoreError::IdsExhausted);
        }
        let id = self.next_id as i64;
        let ghost before = self.rows@;
        self.rows.push(Task { id, description, priority });
        self.next_id = self.next_id + 1;
        assert(views(self.rows@) =~= views(before).push(self.rows@[before.len() as int]@));
        Ok(id)
    }

    /// Replaces the description and priority of the task with identifier `id` and returns
    /// the number of rows changed: 1, or 0 when no task has that identifier.
    pub fn update_task(&mut self, id: i64, description: String, priority: u32) -> (r: u64)
        requires
            old(self).wf(),
            description@.len() > 0,
        ensures
            final(self).wf(),
            final(self).next_id() == old(self).next_id(),
            final(self)@ == replaced(old(self)@, id, description@, priority),
            r == (if has_id(old(self)@, id) { 1u64 } else { 0u64 }),
    {
        let ghost before = self@;
        let mut i: usize = 0;
        while i < self.rows.len() && self.rows[i].id != id
            invariant
                i <= self.rows@.len(),
                self@ == before,
                forall|k: int| 0 <= k < i ==> (#[trigger] self@[k]).id != id,
            decreases self.rows@.len() - i,
        {
            i = i + 1;
        }
        if i == self.rows.len() {
            assert(before =~= replaced(before, id, description@, priority));
            return 0;
        }
        let ghost d = description@;
        self.rows.set(i, Task { id, description, priority });
        assert(self@ =~= replaced(before, id, d, priority)) by {
            assert forall|k: int| 0 <= k < before.len() && k != i implies before[k].id != id by {
                if k < i {
                } else {
                    assert(before[i as int].id < before[k].id);
                }
            }
        }
        assert(has_id(before, id)) by {
            assert(before[i as int].id == id);
        }
        1
    }

    /// Removes the task with identifier `id` and returns the number of rows removed: 1, or
    /// 0 when no task has that identifier.
    pub fn delete_task(&mut self, id: i64) -> (r: u64)
        requires
            old(self).wf(),
        ensures
            final(self).wf(),
            final(self).next_id() == old(self).next_id(),
            final(self)@ == without_id(old(self)@, id),
            r == (if has_id(old(self)@, id) { 1u64 } else { 0u64 }),
    {
        let ghost before = self@;
        let mut kept: Vec<Task> = Vec::new();
        let mut found = false;
        let mut i: usize = 0;
        while i < self.rows.len()
            invariant
                self.wf(),
                self@ == before,
                i <= self.rows@.len(),
                views(kept@) == without_id(before.take(i as int), id),
                found == (exists|k: int| 0 <= k < i && #[trigger] before[k].id == id),
                rows_valid(views(kept@)),
                forall|k: int| 0 <= k < kept@.len() ==> (#[trigger] kept@[k]).id < self.next_id,
                forall|k: int, m: int|
                    0 <= k < kept@.len() && i <= m < before.len() ==> (#[trigger] kept@[k]).id
                        < (#[trigger] before[m]).id,
            decreases self.rows@.len() - i,
        {
            assert(before.take(i + 1) =~= before.take(i as int).push(before[i as int]));
            proof {
                before.take(i as int).lemma_filter_push(before[i as int], other_than(id));
            }
            assert(without_id(before.take(i + 1), id) == if before[i as int].id != id {
                without_id(before.take(i as int), id).push(before[i as int])
            } else {
                without_id(before.take(i as int), id)
            });
            if self.rows[i].id != id {
                let ghost prev = kept@;
                kept.push(self.rows[i].duplicate());
                assert(views(kept@) =~= views(prev).push(before[i as int]));
            } else {
                found = true;
            }
            i = i + 1;
        }
        assert(before.take(i as int) =~= before);
        self.rows = kept;
        found as u64
    }

    /// All tasks, in listing order: ascending priority, ties broken by ascending identifier.
    pub fn list_tasks(&self) -> (r: Vec<Task>)
        requires
            self.wf(),
        ensures
            in_listing_order(views(r@)),
            views(r@).to_multiset() == self@.to_multiset(),
    {
        let mut copy: Vec<Task> = Vec::new();
        let mut i: usize = 0;
        while i < self.rows.len()
            invariant
                i <= self.rows@.len(),
                copy@ == self.rows@.take(i as int),
            decreases self.rows@.len() - i,
        {
            copy.push(self.rows[i].duplicate());
            assert(self.rows@.take(i + 1) =~= self.rows@.take(i as int).push(self.rows@[i as int]));
            i = i + 1;
        }
        assert(copy@ =~= self.rows@);
        order_for_listing(copy)
    }
}

} // verus!
