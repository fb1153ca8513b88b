use todo_tasks::dispatch::{Outcome, apply_action};
use todo_tasks::error::{StoreError, TaskError, ValidationError};
use todo_tasks::payload::{Action, TaskPayload};
use todo_tasks::table::{MAX_TASK_ID, TaskTable};
use todo_tasks::task::{Task, order_for_listing};

fn payload(action: &str, id: Option<i64>, task: Option<&str>, priority: Option<u32>) -> TaskPayload {
    TaskPayload {
        action: action.to_string(),
        id,
        task: task.map(|t| t.to_string()),
        priority,
    }
}

fn add(table: &mut TaskTable, description: &str, priority: u32) -> i64 {
    match payload("add", None, Some(description), Some(priority)).execute_action(table) {
        Ok(Outcome::Created(id)) => id,
        other => panic!("add failed: {:?}", other),
    }
}

fn listed(table: &TaskTable) -> Vec<(i64, String, u32)> {
    table
        .list_tasks()
        .into_iter()
        .map(|t| (t.id, t.description, t.priority))
        .collect()
}

fn ids(table: &TaskTable) -> Vec<i64> {
    table.list_tasks().iter().map(|t| t.id).collect()
}

#[test]
fn add_creates_one_row_with_fresh_id() {
    let mut table = TaskTable::new();
    let first = add(&mut table, "buy milk", 2);
    let second = add(&mut table, "buy milk", 2);
    assert_eq!(first, 1);
    assert_eq!(second, 2);
    assert_eq!(
        listed(&table),
        vec![(1, "buy milk".to_string(), 2), (2, "buy milk".to_string(), 2)]
    );
    let third = add(&mut table, "walk dog", 0);
    assert_eq!(third, 3);
    assert_eq!(table.len(), 3);
    assert_eq!(listed(&table)[0], (3, "walk dog".to_string(), 0));
}

#[test]
fn edit_existing_replaces_fields_and_keeps_id() {
    let mut table = TaskTable::new();
    let a = add(&mut table, "a", 1);
    let b = add(&mut table, "b", 2);
    let r = payload("edit", Some(a), Some("a2"), Some(5)).execute_action(&mut table);
    assert_eq!(r, Ok(Outcome::Updated(1)));
    assert_eq!(
        listed(&table),
        vec![(b, "b".to_string(), 2), (a, "a2".to_string(), 5)]
    );
}

#[test]
fn edit_unknown_id_changes_nothing() {
    let mut table = TaskTable::new();
    add(&mut table, "a", 1);
    let before = listed(&table);
    let r = payload("edit", Some(42), Some("z"), Some(0)).execute_action(&mut table);
    assert_eq!(r, Ok(Outcome::Updated(0)));
    assert_eq!(listed(&table), before);
}

#[test]
fn edit_empty_description_rejected() {
    let mut table = TaskTable::new();
    let a = add(&mut table, "a", 1);
    let r = payload("edit", Some(a), Some(""), Some(1)).execute_action(&mut table);
    assert_eq!(r, Err(TaskError::Validation(ValidationError::EmptyDescription)));
    assert_eq!(listed(&table), vec![(a, "a".to_string(), 1)]);
}

#[test]
fn delete_removes_target() {
    let mut table = TaskTable::new();
    let a = add(&mut table, "a", 1);
    let b = add(&mut table, "b", 1);
    let r = payload("delete", Some(a), None, None).execute_action(&mut table);
    assert_eq!(r, Ok(Outcome::Deleted(1)));
    assert_eq!(ids(&table), vec![b]);
}

#[test]
fn delete_unknown_id_leaves_table() {
    let mut table = TaskTable::new();
    add(&mut table, "a", 1);
    add(&mut table, "b", 0);
    let before = listed(&table);
    let r = payload("delete", Some(99), None, None).execute_action(&mut table);
    assert_eq!(r, Ok(Outcome::Deleted(0)));
    assert_eq!(listed(&table), before);
}

#[test]
fn delete_twice_second_affects_nothing() {
    let mut table = TaskTable::new();
    let a = add(&mut table, "a", 1);
    let b = add(&mut table, "b", 1);
    let first = payload("delete", Some(a), None, None).execute_action(&mut table);
    let second = payload("delete", Some(a), None, None).execute_action(&mut table);
    assert_eq!(first, Ok(Outcome::Deleted(1)));
    assert_eq!(second, Ok(Outcome::Deleted(0)));
    assert_eq!(ids(&table), vec![b]);
}

#[test]
fn listing_orders_by_priority_then_id() {
    let mut table = TaskTable::with_first_id(10);
    assert_eq!(add(&mut table, "p3", 3), 10);
    assert_eq!(add(&mut table, "p1", 1), 11);
    assert_eq!(add(&mut table, "p2", 2), 12);
    assert_eq!(ids(&table), vec![11, 12, 10]);
}

#[test]
fn listing_breaks_priority_ties_by_id() {
    let mut table = TaskTable::new();
    add(&mut table, "x", 2);
    add(&mut table, "y", 1);
    add(&mut table, "z", 2);
    add(&mut table, "w", 1);
    assert_eq!(ids(&table), vec![2, 4, 1, 3]);
}

#[test]
fn add_empty_description_rejected() {
    let mut table = TaskTable::new();
    add(&mut table, "a", 1);
    let r = payload("add", None, Some(""), Some(1)).execute_action(&mut table);
    assert_eq!(r, Err(TaskError::Validation(ValidationError::EmptyDescription)));
    assert_eq!(table.len(), 1);
    // The failed request consumed no identifier.
    assert_eq!(add(&mut table, "b", 1), 2);
}

#[test]
fn unknown_action_rejected() {
    let mut table = TaskTable::new();
    add(&mut table, "a", 1);
    let before = listed(&table);
    let r = payload("foo", Some(1), Some("x"), Some(1)).execute_action(&mut table);
    assert_eq!(r, Err(TaskError::Validation(ValidationError::UnknownAction)));
    assert_eq!(listed(&table), before);
    assert_eq!(add(&mut table, "b", 1), 2);
}

#[test]
fn action_tag_is_case_sensitive() {
    let mut table = TaskTable::new();
    let r = payload("Add", None, Some("x"), Some(1)).execute_action(&mut table);
    assert_eq!(r, Err(TaskError::Validation(ValidationError::UnknownAction)));
    assert_eq!(table.len(), 0);
}

#[test]
fn delete_second_of_three_keeps_others_in_order() {
    let mut table = TaskTable::new();
    let first = add(&mut table, "one", 1);
    let second = add(&mut table, "two", 2);
    let third = add(&mut table, "three", 3);
    let r = payload("delete", Some(second), None, None).execute_action(&mut table);
    assert_eq!(r, Ok(Outcome::Deleted(1)));
    assert_eq!(
        listed(&table),
        vec![(first, "one".to_string(), 1), (third, "three".to_string(), 3)]
    );
}

#[test]
fn missing_fields_rejected() {
    let mut table = TaskTable::new();
    let cases = [
        (payload("delete", None, Some("x"), Some(1)), ValidationError::MissingId),
        (payload("edit", None, Some("x"), Some(1)), ValidationError::MissingId),
        (payload("edit", Some(1), None, Some(1)), ValidationError::MissingDescription),
        (payload("edit", Some(1), Some("x"), None), ValidationError::MissingPriority),
        (payload("add", None, None, Some(1)), ValidationError::MissingDescription),
        (payload("add", None, Some("x"), None), ValidationError::MissingPriority),
        (payload("add", None, Some(""), None), ValidationError::MissingPriority),
    ];
    for (p, e) in cases.iter() {
        assert_eq!(p.execute_action(&mut table), Err(TaskError::Validation(*e)));
    }
    assert_eq!(table.len(), 0);
}

#[test]
fn fields_an_action_does_not_need_are_ignored() {
    let mut table = TaskTable::new();
    let a = add(&mut table, "a", 1);
    let r = payload("add", Some(a), Some("b"), Some(0)).execute_action(&mut table);
    assert_eq!(r, Ok(Outcome::Created(2)));
    let r = payload("delete", Some(a), Some("c"), Some(9)).execute_action(&mut table);
    assert_eq!(r, Ok(Outcome::Deleted(1)));
    assert_eq!(listed(&table), vec![(2, "b".to_string(), 0)]);
}

#[test]
fn ids_are_not_reused_after_delete() {
    let mut table = TaskTable::new();
    let a = add(&mut table, "a", 1);
    let b = add(&mut table, "b", 1);
    payload("delete", Some(b), None, None).execute_action(&mut table).unwrap();
    let c = add(&mut table, "c", 1);
    assert_eq!((a, b, c), (1, 2, 3));
}

#[test]
fn store_fails_once_ids_run_out() {
    let mut table = TaskTable::with_first_id(MAX_TASK_ID);
    assert_eq!(add(&mut table, "last", 1), i64::MAX);
    let r = payload("add", None, Some("more"), Some(1)).execute_action(&mut table);
    assert_eq!(r, Err(TaskError::Store(StoreError::IdsExhausted)));
    assert_eq!(ids(&table), vec![i64::MAX]);
    let r = payload("edit", Some(i64::MAX), Some("still"), Some(4)).execute_action(&mut table);
    assert_eq!(r, Ok(Outcome::Updated(1)));
}

#[test]
fn to_action_builds_each_variant() {
    match payload("add", None, Some("t"), Some(7)).to_action() {
        Ok(Action::Add { description, priority }) => {
            assert_eq!(description, "t");
            assert_eq!(priority, 7);
        }
        _ => panic!("expected an add"),
    }
    match payload("edit", Some(3), Some("u"), Some(0)).to_action() {
        Ok(Action::Edit { id, description, priority }) => {
            assert_eq!((id, description.as_str(), priority), (3, "u", 0));
        }
        _ => panic!("expected an edit"),
    }
    assert!(matches!(
        payload("delete", Some(-5), None, None).to_action(),
        Ok(Action::Delete { id: -5 })
    ));
}

#[test]
fn apply_action_reports_outcomes() {
    let mut table = TaskTable::new();
    let r = apply_action(&mut table, Action::Add { description: "a".to_string(), priority: 4 });
    assert_eq!(r, Ok(Outcome::Created(1)));
    let r = apply_action(&mut table, Action::Edit { id: 1, description: "b".to_string(), priority: 0 });
    assert_eq!(r, Ok(Outcome::Updated(1)));
    let r = apply_action(&mut table, Action::Delete { id: 1 });
    assert_eq!(r, Ok(Outcome::Deleted(1)));
    assert_eq!(table.len(), 0);
}

#[test]
fn table_statements_directly() {
    let mut table = TaskTable::new();
    assert_eq!(table.create_task("a".to_string(), 2), Ok(1));
    assert_eq!(table.create_task("b".to_string(), 1), Ok(2));
    assert_eq!(table.update_task(1, "a!".to_string(), 0), 1);
    assert_eq!(table.update_task(7, "none".to_string(), 0), 0);
    assert_eq!(table.delete_task(2), 1);
    assert_eq!(table.delete_task(2), 0);
    assert_eq!(listed(&table), vec![(1, "a!".to_string(), 0)]);
}

#[test]
fn order_for_listing_sorts_any_rows() {
    let rows = vec![
        Task { id: 5, description: "e".to_string(), priority: 2 },
        Task { id: 3, description: "c".to_string(), priority: 0 },
        Task { id: 9, description: "i".to_string(), priority: 2 },
        Task { id: 1, description: "a".to_string(), priority: 2 },
        Task { id: 4, description: "d".to_string(), priority: 7 },
    ];
    let out: Vec<i64> = order_for_listing(rows).iter().map(|t| t.id).collect();
    assert_eq!(out, vec![3, 1, 5, 9, 4]);
    assert!(order_for_listing(Vec::new()).is_empty());
}

#[test]
fn listing_empty_table() {
    let table = TaskTable::new();
    assert!(table.list_tasks().is_empty());
    assert_eq!(table.len(), 0);
}
