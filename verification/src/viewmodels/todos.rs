//! Todo view models and their builders.

use crate::error::ApiError;
use crate::models::todo::TodosFilter;
use crate::models::todo;
use crate::store::{with_todos, Store};
use crate::types::todo::{
    filtered_todos, flipped_todo, has_todo, lemma_todo_push_lookup, lemma_todo_update_lookup,
    todo_at, todo_view, toggled_todos, CreateTodo, TodoItem, TodoQuery,
};
use vstd::prelude::*;
use vstd::std_specs::convert::TryFromSpec;

verus! {

/// A single rendered todo row.
#[derive(Clone, Debug, PartialEq, Eq)]
pub struct TodoModel {
    pub todo: TodoItem,
}

/// A rendered todo row opened for editing.
#[derive(Clone, Debug, PartialEq, Eq)]
pub struct EditTodoModel {
    pub todo: TodoItem,
}

/// A rendered todo list under the filter label it was selected with.
#[derive(Clone, Debug, PartialEq, Eq)]
pub struct TodoListModel {
    pub filter: String,
    pub todos: Vec<TodoItem>,
}

/// The todo index page, opened on a filter label.
#[derive(Clone, Debug, PartialEq, Eq)]
pub struct TodoIndex {
    pub filter: String,
}

/// The label rendered for a query's completion value.
pub open spec fn spec_filter_label(done: Option<bool>) -> Seq<char> {
    match done {
        Some(true) => "completed"@,
        Some(false) => "active"@,
        None => "all"@,
    }
}

/// The index page, opened on the label that admits every row.
pub fn index_view() -> (r: TodoIndex)
    ensures
        r.filter@ == "all"@,
{
    TodoIndex { filter: "all".to_owned() }
}

/// The list of every todo row, labelled accordingly.
pub fn all_todos_view(store: &Store) -> (r: TodoListModel)
    ensures
        r.filter@ == "all"@,
        r.todos.deep_view() == store@.todos,
{
    TodoListModel { filter: "all".to_owned(), todos: todo::get_all(store) }
}

/// The list of the rows admitted by the query's completion value,
/// labelled with that value's name.
pub fn todos_by_query_view(store: &Store, query: &TodoQuery) -> (r: TodoListModel)
    ensures
        r.filter@ == spec_filter_label(query.done),
        r.todos.deep_view() == filtered_todos(store@.todos, query.done),
{
    let label: String = match query.done {
        Some(true) => "completed".to_owned(),
        Some(false) => "active".to_owned(),
        None => "all".to_owned(),
    };
    TodoListModel { filter: label, todos: todo::get_all_matching(store, query) }
}

/// The single row with this id, or `NotFound`.
pub fn todo_by_index_view(store: &Store, id: i64) -> (r: Result<TodoModel, ApiError>)
    requires
        store.wf(),
    ensures
        r is Ok <==> has_todo(store@.todos, id as int),
        match r {
            Ok(m) => m.todo@ == todo_at(store@.todos, id as int),
            Err(e) => e == ApiError::NotFound,
        },
{
    match todo::get_by_id(store, id) {
        Ok(t) => Ok(TodoModel { todo: t }),
        Err(e) => Err(e),
    }
}

/// The list admitted by a filter keyword from the request path, parsed
/// case-insensitively; any other keyword is rejected as a validation
/// error. The label keeps the keyword as it was sent.
pub fn get_filtered_todos(store: &Store, filter: String) -> (r: Result<TodoListModel, ApiError>)
    ensures
        r is Ok <==> TodosFilter::try_from_spec(filter) is Ok,
        match r {
            Ok(m) => {
                &&& m.filter@ == filter@
                &&& m.todos.deep_view() == filtered_todos(
                    store@.todos,
                    TodosFilter::try_from_spec(filter)->Ok_0.spec_done_filter(),
                )
            },
            Err(e) => e == ApiError::ValidationError,
        },
{
    match TodosFilter::try_from(filter.clone()) {
        Ok(parsed) => {
            let todos = parsed.select(store);
            Ok(TodoListModel { filter, todos })
        },
        Err(e) => Err(e),
    }
}

/// Creates a todo from a submitted form, then re-reads the stored row
/// and renders the view from it. Fails only when the id space is
/// exhausted.
pub fn create_from_form(store: &mut Store, payload: &CreateTodo) -> (r: Result<
    TodoModel,
    ApiError,
>)
    requires
        old(store).wf(),
    ensures
        final(store).wf(),
        r is Ok <==> old(store)@.next_todo_id < i64::MAX,
        match r {
            Ok(m) => {
                &&& final(store)@ == with_todos(
                    old(store)@,
                    old(store)@.todos.push(
                        todo_view(old(store)@.next_todo_id, payload.name@, false),
                    ),
                    old(store)@.next_todo_id + 1,
                )
                &&& m.todo@ == todo_view(old(store)@.next_todo_id, payload.name@, false)
            },
            Err(e) => e == ApiError::StoreError && *final(store) == *old(store),
        },
{
    match todo::create(store, payload) {
        Ok(id) => {
            proof {
                lemma_todo_push_lookup(
                    old(store)@.todos,
                    old(store)@.next_todo_id,
                    todo_view(old(store)@.next_todo_id, payload.name@, false),
                );
            }
            match todo::get_by_id(store, id) {
                Ok(t) => Ok(TodoModel { todo: t }),
                Err(_) => unreached(),
            }
        },
        Err(e) => Err(e),
    }
}

/// Toggles the row with this id, then re-reads the stored row and
/// renders the view from it. `NotFound` when no row has the id.
pub fn toggle_and_view(store: &mut Store, id: i64) -> (r: Result<TodoModel, ApiError>)
    requires
        old(store).wf(),
    ensures
        final(store).wf(),
        r is Ok <==> has_todo(old(store)@.todos, id as int),
        match r {
            Ok(m) => {
                &&& m.todo@ == flipped_todo(todo_at(old(store)@.todos, id as int))
                &&& final(store)@ == with_todos(
                    old(store)@,
                    toggled_todos(old(store)@.todos, id as int),
                    old(store)@.next_todo_id,
                )
            },
            Err(e) => e == ApiError::NotFound && *final(store) == *old(store),
        },
{
    match todo::toggle_state(store, id) {
        Ok(_) => {
            proof {
                lemma_todo_update_lookup(
                    old(store)@.todos,
                    id as int,
                    flipped_todo(todo_at(old(store)@.todos, id as int)),
                );
            }
            match todo::get_by_id(store, id) {
                Ok(t) => Ok(TodoModel { todo: t }),
                Err(_) => unreached(),
            }
        },
        Err(e) => Err(e),
    }
}

} // verus!
