//! Request-shaped todo operations: listing, filtering, reading by id,
//! creating, updating, toggling and deleting rows of the store.

use crate::error::ApiError;
use crate::store::{with_todos, Store};
use crate::text::{eq_ignore_ascii_case, keyword_matches};
use crate::types::todo::{
    filtered_todos, flipped_todo, has_todo, opt_name_view, patched_todos, removed_todo, todo_at,
    todo_view, toggled_todos, CreateTodo, TodoItem, TodoQuery, UpdateTodo,
};
use vstd::prelude::*;

verus! {

/// The three-valued completion filter of the todo listing: every row,
/// the rows still open, or the rows already done.
#[derive(Clone, Copy, Debug, PartialEq, Eq, Structural)]
pub enum TodosFilter {
    All,
    Active,
    Completed,
}

impl TodosFilter {
    /// The optional completion value this variant selects by.
    pub open spec fn spec_done_filter(self) -> Option<bool> {
        match self {
            TodosFilter::All => None,
            TodosFilter::Active => Some(false),
            TodosFilter::Completed => Some(true),
        }
    }

    /// The optional completion value this variant selects by.
    pub fn done_filter(&self) -> (r: Option<bool>)
        ensures
            r == self.spec_done_filter(),
    {
        match self {
            TodosFilter::All => None,
            TodosFilter::Active => Some(false),
            TodosFilter::Completed => Some(true),
        }
    }

    /// The rows this filter admits, in table order.
    pub fn select(&self, store: &Store) -> (r: Vec<TodoItem>)
        ensures
            r.deep_view() == filtered_todos(store@.todos, self.spec_done_filter()),
    {
        store.select_filtered_todos(self.done_filter())
    }
}

impl TryFrom<String> for TodosFilter {
    type Error = ApiError;

    /// Parses a filter keyword case-insensitively; any other value is
    /// rejected as a validation error.
    fn try_from(value: String) -> (r: Result<TodosFilter, ApiError>) {
        if eq_ignore_ascii_case(value.as_str(), "all") {
            Ok(TodosFilter::All)
        } else if eq_ignore_ascii_case(value.as_str(), "active") {
            Ok(TodosFilter::Active)
        } else if eq_ignore_ascii_case(value.as_str(), "completed") {
            Ok(TodosFilter::Completed)
        } else {
            Err(ApiError::ValidationError)
        }
    }
}

impl vstd::std_specs::convert::TryFromSpecImpl<String> for TodosFilter {
    open spec fn obeys_try_from_spec() -> bool {
        true
    }

    open spec fn try_from_spec(v: String) -> Result<TodosFilter, ApiError> {
        if keyword_matches(v@, "all"@) {
            Ok(TodosFilter::All)
        } else if keyword_matches(v@, "active"@) {
            Ok(TodosFilter::Active)
        } else if keyword_matches(v@, "completed"@) {
            Ok(TodosFilter::Completed)
        } else {
            Err(ApiError::ValidationError)
        }
    }
}

/// Every todo row, in table order.
pub fn get_all(store: &Store) -> (r: Vec<TodoItem>)
    ensures
        r.deep_view() == store@.todos,
{
    store.select_all_todos()
}

/// The rows matching the query's optional completion value: all of them
/// when it is absent, exactly the matching subset when it is present.
pub fn get_all_matching(store: &Store, query: &TodoQuery) -> (r: Vec<TodoItem>)
    ensures
        r.deep_view() == filtered_todos(store@.todos, query.done),
{
    store.select_filtered_todos(query.done)
}

/// The row with this id, or `NotFound`.
pub fn get_by_id(store: &Store, id: i64) -> (r: Result<TodoItem, ApiError>)
    requires
        store.wf(),
    ensures
        r is Ok <==> has_todo(store@.todos, id as int),
        match r {
            Ok(t) => t@ == todo_at(store@.todos, id as int),
            Err(e) => e == ApiError::NotFound,
        },
{
    store.select_todo(id)
}

/// Creates a todo from the request body: the row starts not done and
/// gets the next generated id, which is returned.
pub fn create(store: &mut Store, payload: &CreateTodo) -> (r: Result<i64, ApiError>)
    requires
        old(store).wf(),
    ensures
        final(store).wf(),
        r is Ok <==> old(store)@.next_todo_id < i64::MAX,
        match r {
            Ok(id) => {
                &&& id == old(store)@.next_todo_id
                &&& final(store)@ == with_todos(
                    old(store)@,
                    old(store)@.todos.push(todo_view(id as int, payload.name@, false)),
                    old(store)@.next_todo_id + 1,
                )
            },
            Err(e) => e == ApiError::StoreError && *final(store) == *old(store),
        },
{
    store.insert_todo(payload.name.clone())
}

/// Applies an update body to the row with this id: a supplied name
/// overwrites the stored one, an absent name keeps it, and the
/// completion flag is set to the body's value. `NotFound` when no row
/// has the id.
pub fn update(store: &mut Store, id: i64, payload: &UpdateTodo) -> (r: Result<(), ApiError>)
    requires
        old(store).wf(),
    ensures
        final(store).wf(),
        r is Ok <==> has_todo(old(store)@.todos, id as int),
        match r {
            Ok(_) => final(store)@ == with_todos(
                old(store)@,
                patched_todos(
                    old(store)@.todos,
                    id as int,
                    opt_name_view(payload.name),
                    Some(payload.done),
                ),
                old(store)@.next_todo_id,
            ),
            Err(e) => e == ApiError::NotFound && *final(store) == *old(store),
        },
{
    let name = match &payload.name {
        Some(n) => Some(n.clone()),
        None => None,
    };
    store.update_todo_partial(id, name, Some(payload.done))
}

/// Deletes the row with this id. Deleting an id that no row has affects
/// zero rows and is still success, so this always returns `Ok`.
pub fn delete(store: &mut Store, id: i64) -> (r: Result<(), ApiError>)
    requires
        old(store).wf(),
    ensures
        final(store).wf(),
        r is Ok,
        final(store)@ == with_todos(
            old(store)@,
            removed_todo(old(store)@.todos, id as int),
            old(store)@.next_todo_id,
        ),
{
    store.delete_todo(id);
    Ok(())
}

/// Reads the row with this id, flips its completion flag, writes it
/// back and returns the new state. `NotFound` when no row has the id.
pub fn toggle_state(store: &mut Store, id: i64) -> (r: Result<TodoItem, ApiError>)
    requires
        old(store).wf(),
    ensures
        final(store).wf(),
        r is Ok <==> has_todo(old(store)@.todos, id as int),
        match r {
            Ok(t) => {
                &&& t@ == flipped_todo(todo_at(old(store)@.todos, id as int))
                &&& final(store)@ == with_todos(
                    old(store)@,
                    toggled_todos(old(store)@.todos, id as int),
                    old(store)@.next_todo_id,
                )
            },
            Err(e) => e == ApiError::NotFound && *final(store) == *old(store),
        },
{
    store.toggle_todo(id)
}

} // verus!
