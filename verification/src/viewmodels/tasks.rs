//! Task view models and their builders.

use crate::error::ApiError;
use crate::models::task;
use crate::store::Store;
use crate::types::link::linked_todos;
use crate::types::task::{
    has_task, headers_of, task_at, task_model_view, TaskHeader, TaskModel,
};
use vstd::prelude::*;

verus! {

/// The task index page.
#[derive(Clone, Copy, Debug, PartialEq, Eq, Structural)]
pub struct TaskIndex;

/// The rendered task listing.
#[derive(Clone, Debug, PartialEq, Eq)]
pub struct Tasks {
    pub tasks: Vec<TaskHeader>,
}

/// A task opened for editing, with its linked todos.
#[derive(Clone, Debug, PartialEq, Eq)]
pub struct TaskEdit {
    pub task: TaskModel,
}

/// A task's detail view, with its linked todos.
#[derive(Clone, Debug, PartialEq, Eq)]
pub struct TaskDetails {
    pub task: TaskModel,
}

/// The listing of every task's id and name, in table order.
pub fn tasks_view(store: &Store) -> (r: Tasks)
    ensures
        r.tasks.deep_view() == headers_of(store@.tasks),
{
    Tasks { tasks: task::get_all_headers(store) }
}

/// The edit view of the task with this id, composed with its linked
/// todos, or `NotFound`.
pub fn task_edit_view(store: &Store, id: i64) -> (r: Result<TaskEdit, ApiError>)
    requires
        store.wf(),
    ensures
        r is Ok <==> has_task(store@.tasks, id as int),
        match r {
            Ok(m) => m.task@ == task_model_view(
                task_at(store@.tasks, id as int),
                linked_todos(store@.todos, store@.links, id as int),
            ),
            Err(e) => e == ApiError::NotFound,
        },
{
    match task::get_by_id(store, id) {
        Ok(t) => Ok(TaskEdit { task: t }),
        Err(e) => Err(e),
    }
}

/// The detail view of the task with this id, composed with its linked
/// todos, or `NotFound`.
pub fn task_details_view(store: &Store, id: i64) -> (r: Result<TaskDetails, ApiError>)
    requires
        store.wf(),
    ensures
        r is Ok <==> has_task(store@.tasks, id as int),
        match r {
            Ok(m) => m.task@ == task_model_view(
                task_at(store@.tasks, id as int),
                linked_todos(store@.todos, store@.links, id as int),
            ),
            Err(e) => e == ApiError::NotFound,
        },
{
    match task::get_by_id(store, id) {
        Ok(t) => Ok(TaskDetails { task: t }),
        Err(e) => Err(e),
    }
}

} // verus!
