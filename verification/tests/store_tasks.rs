//! Task-table behaviour: creation with server-stamped timestamps,
//! partial updates, deletion, link management, and the composition of a
//! task with its linked todos.

use taskstore::{
    create_mock_data, task, ApiError, CreateTask, Store, UpdateTask, MOCK_TASK_DUE,
};

fn empty_update() -> UpdateTask {
    UpdateTask { name: None, description: None, due: None, done: None }
}

#[test]
fn insert_task_returns_incrementing_ids() {
    let mut store = Store::new();
    let a = store.insert_task("one".to_owned(), "d1".to_owned(), 10, false, 5).unwrap();
    let b = store.insert_task("two".to_owned(), "d2".to_owned(), 20, true, 6).unwrap();
    assert_eq!(a, 1);
    assert_eq!(b, 2);
    let row = store.select_task(2).unwrap();
    assert_eq!(row.name, "two");
    assert_eq!(row.description, "d2");
    assert_eq!(row.due, 20);
    assert_eq!(row.created, 6);
    assert!(row.done);
}

#[test]
fn create_task_stamps_the_clock_and_starts_open() {
    let mut store = Store::new();
    let id = task::create_task(&mut store, &CreateTask { name: "plan".to_owned() }).unwrap();
    assert_eq!(id, 1);
    let row = store.select_task(1).unwrap();
    assert_eq!(row.name, "plan");
    assert_eq!(row.description, "");
    assert!(!row.done);
    assert!(row.created >= 0);
    assert!(row.due >= 0);
}

#[test]
fn task_headers_list_id_and_name_in_order() {
    let mut store = Store::new();
    store.insert_task("alpha".to_owned(), String::new(), 0, false, 0).unwrap();
    store.insert_task("beta".to_owned(), String::new(), 0, false, 0).unwrap();
    let headers = task::get_all_headers(&store);
    assert_eq!(headers.len(), 2);
    assert_eq!((headers[0].id, headers[0].name.as_str()), (1, "alpha"));
    assert_eq!((headers[1].id, headers[1].name.as_str()), (2, "beta"));
}

#[test]
fn partial_task_update_keeps_absent_fields_and_created() {
    let mut store = Store::new();
    store.insert_task("n".to_owned(), "d".to_owned(), 100, false, 77).unwrap();
    let patch = UpdateTask { done: Some(true), due: Some(200), ..empty_update() };
    task::update_task(&mut store, 1, &patch).unwrap();
    let row = store.select_task(1).unwrap();
    assert_eq!(row.name, "n");
    assert_eq!(row.description, "d");
    assert_eq!(row.due, 200);
    assert_eq!(row.created, 77);
    assert!(row.done);

    let rename = UpdateTask { name: Some("renamed".to_owned()), ..empty_update() };
    task::update_task(&mut store, 1, &rename).unwrap();
    let row = store.select_task(1).unwrap();
    assert_eq!(row.name, "renamed");
    assert!(row.done);
    assert_eq!(row.created, 77);
}

#[test]
fn partial_task_update_missing_id_is_not_found() {
    let mut store = Store::new();
    assert_eq!(task::update_task(&mut store, 1, &empty_update()), Err(ApiError::NotFound));
}

#[test]
fn get_task_by_id_composes_exactly_the_linked_todos() {
    let mut store = Store::new();
    let task_id = store.insert_task("t".to_owned(), String::new(), 0, false, 0).unwrap();
    let a = store.insert_todo("a".to_owned()).unwrap();
    let b = store.insert_todo("b".to_owned()).unwrap();
    store.insert_todo("unlinked".to_owned()).unwrap();
    task::add_todo(&mut store, task_id, a).unwrap();
    task::add_todo(&mut store, task_id, b).unwrap();

    let model = task::get_by_id(&store, task_id).unwrap();
    let mut ids: Vec<i64> = model.todos.iter().map(|t| t.id).collect();
    ids.sort();
    assert_eq!(ids, vec![a, b]);

    task::remove_todo(&mut store, task_id, a).unwrap();
    let model = task::get_by_id(&store, task_id).unwrap();
    assert_eq!(model.todos.iter().map(|t| t.id).collect::<Vec<_>>(), vec![b]);
}

#[test]
fn get_task_by_id_missing_task_is_not_found() {
    let store = Store::new();
    assert_eq!(task::get_by_id(&store, 3).err(), Some(ApiError::NotFound));
}

#[test]
fn duplicate_link_is_a_store_error() {
    let mut store = Store::new();
    store.insert_task("t".to_owned(), String::new(), 0, false, 0).unwrap();
    store.insert_todo("a".to_owned()).unwrap();
    assert_eq!(task::add_todo(&mut store, 1, 1), Ok(()));
    assert_eq!(task::add_todo(&mut store, 1, 1), Err(ApiError::StoreError));
}

#[test]
fn removing_a_missing_link_is_success() {
    let mut store = Store::new();
    assert_eq!(task::remove_todo(&mut store, 8, 9), Ok(()));
}

#[test]
fn links_survive_task_deletion_and_joins_skip_orphans() {
    let mut store = Store::new();
    store.insert_task("t".to_owned(), String::new(), 0, false, 0).unwrap();
    store.insert_todo("a".to_owned()).unwrap();
    task::add_todo(&mut store, 1, 1).unwrap();
    task::delete_task(&mut store, 1).unwrap();
    assert_eq!(store.select_task(1).err(), Some(ApiError::NotFound));
    // the orphaned link row is still there: re-adding the same pair
    // still violates the composite key
    assert_eq!(store.add_todo_link(1, 1), Err(ApiError::StoreError));
    // and a join against a deleted todo skips the orphan silently
    store.delete_todo(1);
    assert_eq!(store.select_linked_todos(1).len(), 0);
}

#[test]
fn deleting_a_missing_task_is_success() {
    let mut store = Store::new();
    assert_eq!(task::delete_task(&mut store, 11), Ok(()));
}

#[test]
fn seeded_store_composes_the_first_task() {
    let mut store = Store::new();
    create_mock_data(&mut store).unwrap();

    let model = task::get_by_id(&store, 1).unwrap();
    assert_eq!(model.id, 1);
    assert_eq!(model.name, "Implement all tables");
    assert_eq!(model.due, MOCK_TASK_DUE);
    assert!(!model.done);
    let names: Vec<&str> = model.todos.iter().map(|t| t.name.as_str()).collect();
    assert_eq!(names, vec!["Kiss Jana", "Add One to many from tasks to todos"]);
    assert!(model.todos.iter().all(|t| !t.done));
}

#[test]
fn fresh_task_and_todo_link_up_as_inserted() {
    let mut store = Store::new();
    let task_id = store
        .insert_task(
            "Implement all tables".to_owned(),
            "Need to add tables for all data rows, as well as mapping tables".to_owned(),
            MOCK_TASK_DUE,
            false,
            0,
        )
        .unwrap();
    assert_eq!(task_id, 1);
    let todo_id = store.insert_todo("Kiss Jana".to_owned()).unwrap();
    assert_eq!(todo_id, 1);
    store.add_todo_link(1, 1).unwrap();

    let model = task::get_by_id(&store, 1).unwrap();
    assert_eq!(model.todos.len(), 1);
    assert_eq!(model.todos[0].id, 1);
    assert_eq!(model.todos[0].name, "Kiss Jana");
    assert!(!model.todos[0].done);
}

#[test]
fn users_get_incrementing_ids() {
    let mut store = Store::new();
    let u1 = store.insert_user("lando".to_owned()).unwrap();
    let u2 = store.insert_user("jana".to_owned()).unwrap();
    assert_eq!((u1.id, u1.username.as_str()), (1, "lando"));
    assert_eq!((u2.id, u2.username.as_str()), (2, "jana"));
}
