//! Todo-table behaviour: creation, filtering, partial updates, toggling
//! and deletion.

use taskstore::{todo, ApiError, CreateTodo, Store, TodoQuery, UpdateTodo};

fn store_with(names: &[&str]) -> Store {
    let mut store = Store::new();
    for name in names {
        store.insert_todo((*name).to_owned()).unwrap();
    }
    store
}

#[test]
fn created_todo_starts_not_done_with_incrementing_ids() {
    let mut store = Store::new();
    let a = store.insert_todo("first".to_owned()).unwrap();
    let b = store.insert_todo("second".to_owned()).unwrap();
    let c = store.insert_todo("third".to_owned()).unwrap();
    assert_eq!(a, 1);
    assert_eq!(b, 2);
    assert_eq!(c, 3);
    let rows = store.select_all_todos();
    assert_eq!(rows.len(), 3);
    for row in &rows {
        assert!(!row.done);
    }
    // every id is unique
    assert!(rows[0].id != rows[1].id && rows[1].id != rows[2].id && rows[0].id != rows[2].id);
}

#[test]
fn created_todo_id_stays_fresh_after_deletes() {
    let mut store = Store::new();
    store.insert_todo("a".to_owned()).unwrap();
    store.insert_todo("b".to_owned()).unwrap();
    store.delete_todo(2);
    // the freed id is not reused: the counter only moves forward
    let c = store.insert_todo("c".to_owned()).unwrap();
    assert_eq!(c, 3);
}

#[test]
fn model_create_reports_the_stored_row() {
    let mut store = Store::new();
    let id = todo::create(&mut store, &CreateTodo { name: "wash up".to_owned() }).unwrap();
    let row = todo::get_by_id(&store, id).unwrap();
    assert_eq!(row.id, 1);
    assert_eq!(row.name, "wash up");
    assert!(!row.done);
}

#[test]
fn double_toggle_restores_the_original_state() {
    let mut store = store_with(&["a", "b"]);
    store.update_todo_partial(2, None, Some(true)).unwrap();
    let before = store.select_todo(2).unwrap();
    let once = store.toggle_todo(2).unwrap();
    assert_eq!(once.done, !before.done);
    let twice = store.toggle_todo(2).unwrap();
    assert_eq!(twice.done, before.done);
    assert_eq!(store.select_todo(2).unwrap(), before);
}

#[test]
fn toggle_missing_id_is_not_found() {
    let mut store = store_with(&["a"]);
    assert_eq!(store.toggle_todo(9), Err(ApiError::NotFound));
}

#[test]
fn partial_update_with_done_only_keeps_name() {
    let mut store = store_with(&["laundry"]);
    store.update_todo_partial(1, None, Some(true)).unwrap();
    let row = store.select_todo(1).unwrap();
    assert_eq!(row.name, "laundry");
    assert!(row.done);
}

#[test]
fn partial_update_with_name_only_keeps_done() {
    let mut store = store_with(&["laundry"]);
    store.update_todo_partial(1, None, Some(true)).unwrap();
    store.update_todo_partial(1, Some("x".to_owned()), None).unwrap();
    let row = store.select_todo(1).unwrap();
    assert_eq!(row.name, "x");
    assert!(row.done);
}

#[test]
fn partial_update_touches_no_other_row() {
    let mut store = store_with(&["a", "b", "c"]);
    store.update_todo_partial(2, Some("renamed".to_owned()), Some(true)).unwrap();
    assert_eq!(store.select_todo(1).unwrap().name, "a");
    assert!(!store.select_todo(1).unwrap().done);
    assert_eq!(store.select_todo(3).unwrap().name, "c");
    assert!(!store.select_todo(3).unwrap().done);
}

#[test]
fn partial_update_missing_id_is_not_found() {
    let mut store = store_with(&["a"]);
    assert_eq!(store.update_todo_partial(5, None, Some(true)), Err(ApiError::NotFound));
}

#[test]
fn model_update_sets_done_and_keeps_absent_name() {
    let mut store = store_with(&["keep me"]);
    todo::update(&mut store, 1, &UpdateTodo { name: None, done: true }).unwrap();
    let row = store.select_todo(1).unwrap();
    assert_eq!(row.name, "keep me");
    assert!(row.done);
}

#[test]
fn filtered_select_returns_exactly_the_matching_subset() {
    let mut store = store_with(&["a", "b", "c", "d"]);
    store.update_todo_partial(2, None, Some(true)).unwrap();
    store.update_todo_partial(4, None, Some(true)).unwrap();

    let done_rows = store.select_filtered_todos(Some(true));
    assert_eq!(done_rows.iter().map(|t| t.id).collect::<Vec<_>>(), vec![2, 4]);
    assert!(done_rows.iter().all(|t| t.done));

    let open_rows = store.select_filtered_todos(Some(false));
    assert_eq!(open_rows.iter().map(|t| t.id).collect::<Vec<_>>(), vec![1, 3]);
    assert!(open_rows.iter().all(|t| !t.done));

    let all_rows = store.select_filtered_todos(None);
    assert_eq!(all_rows.iter().map(|t| t.id).collect::<Vec<_>>(), vec![1, 2, 3, 4]);
}

#[test]
fn model_get_all_matching_follows_the_query() {
    let mut store = store_with(&["a", "b"]);
    store.update_todo_partial(1, None, Some(true)).unwrap();
    let done_rows = todo::get_all_matching(&store, &TodoQuery { done: Some(true) });
    assert_eq!(done_rows.len(), 1);
    assert_eq!(done_rows[0].id, 1);
    let everything = todo::get_all_matching(&store, &TodoQuery { done: None });
    assert_eq!(everything.len(), 2);
    assert_eq!(todo::get_all(&store).len(), 2);
}

#[test]
fn deleting_a_missing_id_is_success() {
    let mut store = store_with(&["a", "b"]);
    store.delete_todo(42);
    assert_eq!(store.select_all_todos().len(), 2);
    assert_eq!(todo::delete(&mut store, 42), Ok(()));
    assert_eq!(store.select_all_todos().len(), 2);
}

#[test]
fn deleting_an_existing_id_removes_only_that_row() {
    let mut store = store_with(&["a", "b", "c"]);
    todo::delete(&mut store, 2).unwrap();
    let rows = store.select_all_todos();
    assert_eq!(rows.iter().map(|t| t.id).collect::<Vec<_>>(), vec![1, 3]);
    assert_eq!(store.select_todo(2), Err(ApiError::NotFound));
}

#[test]
fn select_missing_id_is_not_found() {
    let store = store_with(&["a"]);
    assert_eq!(store.select_todo(2), Err(ApiError::NotFound));
    assert_eq!(todo::get_by_id(&store, 0), Err(ApiError::NotFound));
}
