//! The mutation request as it arrives, and its validation into one of three actions.
use vstd::prelude::*;
use vstd::string::StrSliceExecFns;

use crate::error::ValidationError;

verus! {

/// A mutation request as decoded from a submitted form: an action tag and the fields that
/// some actions need.
pub struct TaskPayload {
    pub action: String,
    pub id: Option<i64>,
    pub task: Option<String>,
    pub priority: Option<u32>,
}

/// What a request holds, as mathematical values.
pub struct PayloadView {
    pub action: Seq<char>,
    pub id: Option<i64>,
    pub task: Option<Seq<char>>,
    pub priority: Option<u32>,
}

impl View for TaskPayload {
    type V = PayloadView;

    open spec fn view(&self) -> PayloadView {
        PayloadView {
            action: self.action@,
            id: self.id,
            task: match self.task {
                Some(t) => Some(t@),
                None => None,
            },
            priority: self.priority,
        }
    }
}

/// A validated request: exactly one of the three mutations, with every field it needs.
pub enum Action {
    Add { description: String, priority: u32 },
    Edit { id: i64, description: String, priority: u32 },
    Delete { id: i64 },
}

/// What an action holds, as mathematical values.
pub enum ActionView {
    Add { description: Seq<char>, priority: u32 },
    Edit { id: i64, description: Seq<char>, priority: u32 },
    Delete { id: i64 },
}

impl View for Action {
    type V = ActionView;

    open spec fn view(&self) -> ActionView {
        match self {
            Action::Add { description, priority } => ActionView::Add {
                description: description@,
                priority: *priority,
            },
            Action::Edit { id, description, priority } => ActionView::Edit {
                id: *id,
                description: description@,
                priority: *priority,
            },
            Action::Delete { id } => ActionView::Delete { id: *id },
        }
    }
}

/// Every description that the action carries is non-empty.
pub open spec fn action_valid(a: ActionView) -> bool {
    match a {
        ActionView::Add { description, .. } => description.len() > 0,
        ActionView::Edit { description, .. } => description.len() > 0,
        ActionView::Delete { .. } => true,
    }
}

/// A description and a priority, both present, the description non-empty.
pub open spec fn decoded_content(task: Option<Seq<char>>, priority: Option<u32>) -> Result<
    (Seq<char>, u32),
    ValidationError,
> {
    match task {
        None => Err(ValidationError::MissingDescription),
        Some(d) => match priority {
            None => Err(ValidationError::MissingPriority),
            Some(q) => if d.len() == 0 {
                Err(ValidationError::EmptyDescription)
            } else {
                Ok((d, q))
            },
        },
    }
}

/// The action that a request asks for, or the first thing wrong with it. Fields that the
/// action does not need are ignored.
pub open spec fn decoded(p: PayloadView) -> Result<ActionView, ValidationError> {
    if p.action == "delete"@ {
        match p.id {
            None => Err(ValidationError::MissingId),
            Some(id) => Ok(ActionView::Delete { id }),
        }
    } else if p.action == "add"@ {
        match decoded_content(p.task, p.priority) {
            Err(e) => Err(e),
            Ok((description, priority)) => Ok(ActionView::Add { description, priority }),
        }
    } else if p.action == "edit"@ {
        match p.id {
            None => Err(ValidationError::MissingId),
            Some(id) => match decoded_content(p.task, p.priority) {
                Err(e) => Err(e),
                Ok((description, priority)) => Ok(ActionView::Edit { id, description, priority }),
            },
        }
    } else {
        Err(ValidationError::UnknownAction)
    }
}

/// Whether two texts hold the same characters.
fn same_text(s: &str, t: &str) -> (r: bool)
    ensures
        r == (s@ == t@),
{
    let n = s.unicode_len();
    if n != t.unicode_len() {
        return false;
    }
    let mut i: usize = 0;
    while i < n
        invariant
            n == s@.len() == t@.len(),
            i <= n,
            forall|k: int| 0 <= k < i ==> s@[k] == t@[k],
        decreases n - i,
    {
        if s.get_char(i) != t.get_char(i) {
            return false;
        }
        i = i + 1;
    }
    assert(s@ =~= t@);
    true
}

/// Checks a description and a priority that an action needs.
fn content(task: &Option<String>, priority: Option<u32>) -> (r: Result<(String, u32), ValidationError>)
    ensures
        match r {
            Ok((d, q)) => decoded_content(
                match task {
                    Some(t) => Some(t@),
                    None => None,
                },
                priority,
            ) == Ok::<(Seq<char>, u32), ValidationError>((d@, q)),
            Err(e) => decoded_content(
                match task {
                    Some(t) => Some(t@),
                    None => None,
                },
                priority,
            ) == Err::<(Seq<char>, u32), ValidationError>(e),
        },
{
    match task {
        None => Err(ValidationError::MissingDescription),
        Some(t) => match priority {
            None => Err(ValidationError::MissingPriority),
            Some(q) => if t.as_str().is_empty() {
                Err(ValidationError::EmptyDescription)
            } else {
                Ok((t.clone(), q))
            },
        },
    }
}

impl TaskPayload {
    /// Validates the request: the action it names, with every field that action needs, or
    /// the first thing wrong with it.
    pub fn to_action(&self) -> (r: Result<Action, ValidationError>)
        ensures
            match r {
                Ok(a) => decoded(self@) == Ok::<ActionView, ValidationError>(a@),
                Err(e) => decoded(self@) == Err::<ActionView, ValidationError>(e),
            },
            r is Ok ==> action_valid(r->Ok_0@),
    {
        let tag = self.action.as_str();
        if same_text(tag, "delete") {
            match self.id {
                None => Err(ValidationError::MissingId),
                Some(id) => Ok(Action::Delete { id }),
            }
        } else if same_text(tag, "add") {
            match content(&self.task, self.priority) {
                Err(e) => Err(e),
                Ok((description, priority)) => Ok(Action::Add { description, priority }),
            }
        } else if same_text(tag, "edit") {
            match self.id {
                None => Err(ValidationError::MissingId),
                Some(id) => match content(&self.task, self.priority) {
                    Err(e) => Err(e),
                    Ok((description, priority)) => Ok(Action::Edit { id, description, priority }),
                },
            }
        } else {
            Err(ValidationError::UnknownAction)
        }
    }
}

} // verus!
