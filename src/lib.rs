//! A task list: tasks ordered by priority, changed by one request at a time that adds,
//! edits or deletes a task. Requests are validated into actions, and actions are carried
//! out against a table of task rows.
pub mod dispatch;
pub mod error;
pub mod laws;
pub mod payload;
pub mod table;
pub mod task;
