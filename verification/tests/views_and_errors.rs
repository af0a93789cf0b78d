//! View building, filter parsing, form decoding, error-to-status
//! mapping and configuration defaults.

use taskstore::{
    tasks, todo, todos, ApiError, Config, CreateTodo, Store, TaskHeaders, TodoItems, TodoQuery,
    TodosFilter, UpdateTodo, UpdateTodoRaw,
};

fn store_with(names: &[&str]) -> Store {
    let mut store = Store::new();
    for name in names {
        store.insert_todo((*name).to_owned()).unwrap();
    }
    store
}

#[test]
fn filter_keywords_parse_case_insensitively() {
    assert_eq!(TodosFilter::try_from("all".to_owned()), Ok(TodosFilter::All));
    assert_eq!(TodosFilter::try_from("ALL".to_owned()), Ok(TodosFilter::All));
    assert_eq!(TodosFilter::try_from("Active".to_owned()), Ok(TodosFilter::Active));
    assert_eq!(TodosFilter::try_from("aCtIvE".to_owned()), Ok(TodosFilter::Active));
    assert_eq!(TodosFilter::try_from("Completed".to_owned()), Ok(TodosFilter::Completed));
}

#[test]
fn bogus_filter_is_a_validation_error() {
    assert_eq!(TodosFilter::try_from("bogus".to_owned()), Err(ApiError::ValidationError));
    assert_eq!(TodosFilter::try_from("".to_owned()), Err(ApiError::ValidationError));
    assert_eq!(TodosFilter::try_from("allx".to_owned()), Err(ApiError::ValidationError));
    assert_eq!(TodosFilter::try_from("al".to_owned()), Err(ApiError::ValidationError));
}

#[test]
fn filter_variants_select_their_subset() {
    let mut store = store_with(&["a", "b", "c"]);
    store.update_todo_partial(2, None, Some(true)).unwrap();
    assert_eq!(TodosFilter::All.select(&store).len(), 3);
    let active = TodosFilter::Active.select(&store);
    assert_eq!(active.iter().map(|t| t.id).collect::<Vec<_>>(), vec![1, 3]);
    let completed = TodosFilter::Completed.select(&store);
    assert_eq!(completed.iter().map(|t| t.id).collect::<Vec<_>>(), vec![2]);
    assert_eq!(TodosFilter::Completed.done_filter(), Some(true));
    assert_eq!(TodosFilter::Active.done_filter(), Some(false));
    assert_eq!(TodosFilter::All.done_filter(), None);
}

#[test]
fn filtered_list_view_keeps_the_keyword_as_sent() {
    let mut store = store_with(&["a", "b"]);
    store.update_todo_partial(1, None, Some(true)).unwrap();
    let view = todos::get_filtered_todos(&store, "Completed".to_owned()).unwrap();
    assert_eq!(view.filter, "Completed");
    assert_eq!(view.todos.iter().map(|t| t.id).collect::<Vec<_>>(), vec![1]);
    assert_eq!(
        todos::get_filtered_todos(&store, "nonsense".to_owned()).err(),
        Some(ApiError::ValidationError)
    );
}

#[test]
fn query_views_carry_the_matching_label() {
    let mut store = store_with(&["a", "b"]);
    store.update_todo_partial(2, None, Some(true)).unwrap();

    let view = todos::todos_by_query_view(&store, &TodoQuery { done: Some(true) });
    assert_eq!(view.filter, "completed");
    assert_eq!(view.todos.iter().map(|t| t.id).collect::<Vec<_>>(), vec![2]);

    let view = todos::todos_by_query_view(&store, &TodoQuery { done: Some(false) });
    assert_eq!(view.filter, "active");
    assert_eq!(view.todos.iter().map(|t| t.id).collect::<Vec<_>>(), vec![1]);

    let view = todos::todos_by_query_view(&store, &TodoQuery { done: None });
    assert_eq!(view.filter, "all");
    assert_eq!(view.todos.len(), 2);

    assert_eq!(todos::index_view().filter, "all");
    assert_eq!(todos::all_todos_view(&store).todos.len(), 2);
}

#[test]
fn create_from_form_renders_the_stored_row() {
    let mut store = Store::new();
    let view = todos::create_from_form(&mut store, &CreateTodo { name: "new".to_owned() })
        .unwrap();
    assert_eq!(view.todo.id, 1);
    assert_eq!(view.todo.name, "new");
    assert!(!view.todo.done);
    // the rendered row is exactly what a re-read returns
    assert_eq!(store.select_todo(1).unwrap(), view.todo);
}

#[test]
fn toggle_view_renders_the_stored_row() {
    let mut store = store_with(&["a"]);
    let view = todos::toggle_and_view(&mut store, 1).unwrap();
    assert!(view.todo.done);
    assert_eq!(store.select_todo(1).unwrap(), view.todo);
    assert_eq!(todos::toggle_and_view(&mut store, 7).err(), Some(ApiError::NotFound));
}

#[test]
fn todo_by_index_view_reads_the_row() {
    let store = store_with(&["a"]);
    let view = todos::todo_by_index_view(&store, 1).unwrap();
    assert_eq!(view.todo.name, "a");
    assert_eq!(todos::todo_by_index_view(&store, 2).err(), Some(ApiError::NotFound));
}

#[test]
fn task_views_compose_the_task() {
    let mut store = Store::new();
    store.insert_task("t".to_owned(), "d".to_owned(), 9, false, 4).unwrap();
    store.insert_todo("a".to_owned()).unwrap();
    store.add_todo_link(1, 1).unwrap();
    let listing = tasks::tasks_view(&store);
    assert_eq!(listing.tasks.len(), 1);
    assert_eq!(listing.tasks[0].name, "t");
    let edit = tasks::task_edit_view(&store, 1).unwrap();
    assert_eq!(edit.task.name, "t");
    assert_eq!(edit.task.todos.len(), 1);
    let details = tasks::task_details_view(&store, 1).unwrap();
    assert_eq!(details.task.due, 9);
    assert_eq!(tasks::task_edit_view(&store, 2).err(), Some(ApiError::NotFound));
}

#[test]
fn raw_form_update_decodes_the_checkbox() {
    let on = UpdateTodo::from(UpdateTodoRaw {
        name: Some("n".to_owned()),
        done: Some("on".to_owned()),
    });
    assert_eq!(on.name.as_deref(), Some("n"));
    assert!(on.done);

    let absent = UpdateTodo::from(UpdateTodoRaw { name: None, done: None });
    assert_eq!(absent.name, None);
    assert!(!absent.done);

    let other = UpdateTodo::from(UpdateTodoRaw { name: None, done: Some("off".to_owned()) });
    assert!(!other.done);
}

#[test]
fn errors_map_to_their_status_codes() {
    assert_eq!(ApiError::NotFound.status_code(), 404);
    assert_eq!(ApiError::StoreError.status_code(), 500);
    assert_eq!(ApiError::ValidationError.status_code(), 400);
    assert_eq!(ApiError::RenderError.status_code(), 500);
}

#[test]
fn config_defaults_point_at_the_bundled_paths() {
    let config = Config::default();
    assert_eq!(config.backup_dir, "./");
    assert_eq!(config.assets_dir, "./appserver/assets");
}

#[test]
fn response_wrappers_carry_rows() {
    let mut store = store_with(&["a"]);
    store.insert_task("t".to_owned(), String::new(), 0, false, 0).unwrap();
    let items = TodoItems { items: todo::get_all(&store) };
    assert_eq!(items.items.len(), 1);
    let headers = TaskHeaders { tasks: taskstore::task::get_all_headers(&store) };
    assert_eq!(headers.tasks.len(), 1);
}
