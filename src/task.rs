//! The task record and the order in which tasks are listed.
use vstd::prelude::*;

verus! {

/// One to-do record: an identifier assigned by the store, a description and a priority.
#[derive(Debug)]
pub struct Task {
    pub id: i64,
    pub description: String,
    pub priority: u32,
}

/// What a task holds, as mathematical values.
pub struct TaskView {
    pub id: i64,
    pub description: Seq<char>,
    pub priority: u32,
}

impl View for Task {
    type V = TaskView;

    open spec fn view(&self) -> TaskView {
        TaskView { id: self.id, description: self.description@, priority: self.priority }
    }
}

/// The views of a sequence of tasks, position by position.
pub open spec fn views(s: Seq<Task>) -> Seq<TaskView> {
    s.map_values(|t: Task| t@)
}

/// `a` may be listed before `b`: lower priority first, then lower identifier.
pub open spec fn listed_no_later(a: TaskView, b: TaskView) -> bool {
    a.priority < b.priority || (a.priority == b.priority && a.id <= b.id)
}

/// Every task of `s` may be listed before every task that follows it.
pub open spec fn in_listing_order(s: Seq<TaskView>) -> bool {
    forall|i: int, j: int| 0 <= i < j < s.len() ==> listed_no_later(#[trigger] s[i], #[trigger] s[j])
}

impl Task {
    /// A task with the same identifier, description and priority.
    pub fn duplicate(&self) -> (r: Task)
        ensures
            r == *self,
    {
        Task { id: self.id, description: self.description.clone(), priority: self.priority }
    }

    /// Compares by priority, then by identifier.
    pub fn listed_no_later_than(&self, other: &Task) -> (r: bool)
        ensures
            r == listed_no_later(self@, other@),
    {
        self.priority < other.priority || (self.priority == other.priority && self.id <= other.id)
    }
}

/// Inserting one element anywhere adds it once to the multiset of a sequence.
proof fn lemma_insert_to_multiset<A>(s: Seq<A>, i: int, a: A)
    requires
        0 <= i <= s.len(),
    ensures
        s.insert(i, a).to_multiset() =~= s.to_multiset().insert(a),
{
    broadcast use vstd::seq_lib::group_to_multiset_ensures;

    let t = s.insert(i, a);
    assert(t.remove(i) =~= s);
    assert(t[i] == a);
    assert(t.to_multiset().count(a) > 0) by {
        assert(t.contains(a));
    }
}

/// Puts tasks in listing order: ascending priority, ties broken by ascending identifier.
/// The result holds the same tasks as the input, each as often.
pub fn order_for_listing(rows: Vec<Task>) -> (r: Vec<Task>)
    ensures
        in_listing_order(views(r@)),
        views(r@).to_multiset() == views(rows@).to_multiset(),
{
    broadcast use vstd::seq_lib::group_to_multiset_ensures;

    let mut rest = rows;
    let mut out: Vec<Task> = Vec::new();
    while rest.len() > 0
        invariant
            in_listing_order(views(out@)),
            views(out@).to_multiset().add(views(rest@).to_multiset()) == views(
                rows@,
            ).to_multiset(),
        decreases rest.len(),
    {
        let ghost before = rest@;
        let x = rest.pop().unwrap();
        assert(views(before) =~= views(rest@).push(x@));
        let mut j: usize = 0;
        while j < out.len() && !x.listed_no_later_than(&out[j])
            invariant
                j <= out.len(),
                forall|k: int| 0 <= k < j ==> listed_no_later(#[trigger] out@[k]@, x@),
            decreases out.len() - j,
        {
            j = j + 1;
        }
        let ghost prev = out@;
        proof {
            lemma_insert_to_multiset(views(prev), j as int, x@);
        }
        out.insert(j, x);
        assert(views(out@) =~= views(prev).insert(j as int, x@));
        proof {
            vstd::seq_lib::to_multiset_build(views(rest@), x@);
        }
        assert(views(before).to_multiset() =~= views(rest@).to_multiset().insert(x@));
        assert(views(out@).to_multiset() =~= views(prev).to_multiset().insert(x@));
        assert(views(out@).to_multiset().add(views(rest@).to_multiset()) =~= views(
            prev,
        ).to_multiset().add(views(before).to_multiset()));
        assert forall|a: int, b: int| 0 <= a < b < out@.len() implies listed_no_later(
            #[trigger] views(out@)[a],
            #[trigger] views(out@)[b],
        ) by {
            if b < j {
                assert(views(prev)[a] == views(out@)[a] && views(prev)[b] == views(out@)[b]);
            } else if a == j {
                if b > j {
                    assert(views(prev)[j as int] == prev[j as int]@);
                    assert(views(prev)[b - 1] == prev[b - 1]@);
                }
            } else if a > j {
                assert(views(prev)[a - 1] == views(out@)[a] && views(prev)[b - 1] == views(out@)[b]);
            } else if b == j {
            } else {
                assert(views(prev)[a] == views(out@)[a]);
                assert(views(prev)[b - 1] == views(out@)[b]);
                assert(views(prev)[j as int] == prev[j as int]@);
            }
        }
    }
    out
}

} // verus!
