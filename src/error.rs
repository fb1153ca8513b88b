//! The ways in which a request can fail.
use vstd::prelude::*;

verus! {

/// A request that is malformed: it fails before anything is stored.
#[derive(Clone, Copy, Debug, PartialEq, Eq, Structural)]
pub enum ValidationError {
    /// The action needs a task identifier and none was given.
    MissingId,
    /// The action needs a description and none was given.
    MissingDescription,
    /// The action needs a priority and none was given.
    MissingPriority,
    /// The description was given but holds no character.
    EmptyDescription,
    /// The action tag is none of `add`, `edit` and `delete`.
    UnknownAction,
}

/// The store could not carry out a statement.
#[derive(Clone, Copy, Debug, PartialEq, Eq, Structural)]
pub enum StoreError {
    /// Every identifier that a task can have has already been handed out.
    IdsExhausted,
    /// The storage engine behind the store rejected the statement.
    Backend,
}

/// Why a request failed: bad input, or a failure of the store.
#[derive(Clone, Copy, Debug, PartialEq, Eq, Structural)]
pub enum TaskError {
    Validation(ValidationError),
    Store(StoreError),
}

} // verus!
