//! Request-shaped task operations: the header listing, the composition
//! of a task with its linked todos, creation with server-stamped
//! timestamps, partial updates, deletion, and link management.

use crate::clock::now_unix;
use crate::error::ApiError;
use crate::store::{with_links, with_tasks, Store};
use crate::types::link::{has_link, link_view, linked_todos, removed_link};
use crate::types::task::{
    has_task, headers_of, patched_tasks, removed_task, task_at, task_created, task_model_view,
    CreateTask, TaskHeader, TaskModel, UpdateTask,
};
use vstd::prelude::*;

verus! {

/// The id and name of every task, in table order.
pub fn get_all_headers(store: &Store) -> (r: Vec<TaskHeader>)
    ensures
        r.deep_view() == headers_of(store@.tasks),
{
    store.select_task_headers()
}

/// Composes the task with this id together with its linked todos: the
/// task row is read first, then the join — so a missing task fails with
/// `NotFound` before the todo query runs.
pub fn get_by_id(store: &Store, id: i64) -> (r: Result<TaskModel, ApiError>)
    requires
        store.wf(),
    ensures
        r is Ok <==> has_task(store@.tasks, id as int),
        match r {
            Ok(m) => m@ == task_model_view(
                task_at(store@.tasks, id as int),
                linked_todos(store@.todos, store@.links, id as int),
            ),
            Err(e) => e == ApiError::NotFound,
        },
{
    match store.select_task(id) {
        Ok(row) => {
            let todos = store.select_linked_todos(id);
            let m = TaskModel {
                id: row.id,
                name: row.name,
                description: row.description,
                created: row.created,
                due: row.due,
                done: row.done,
                todos,
            };
            proof {
                assert(m@ =~= task_model_view(
                    task_at(store@.tasks, id as int),
                    linked_todos(store@.todos, store@.links, id as int),
                ));
            }
            Ok(m)
        },
        Err(e) => Err(e),
    }
}

/// Creates a task from the request body: the row is named as requested,
/// has an empty description, is not done, and both timestamps are
/// stamped from the server clock — the caller's input never sets them.
/// Returns the generated id.
pub fn create_task(store: &mut Store, payload: &CreateTask) -> (r: Result<i64, ApiError>)
    requires
        old(store).wf(),
    ensures
        final(store).wf(),
        r is Ok <==> old(store)@.next_task_id < i64::MAX,
        match r {
            Ok(id) => {
                &&& id == old(store)@.next_task_id
                &&& task_created(old(store)@.tasks, final(store)@.tasks, id as int, payload.name@)
                &&& final(store)@ == with_tasks(
                    old(store)@,
                    final(store)@.tasks,
                    old(store)@.next_task_id + 1,
                )
            },
            Err(e) => e == ApiError::StoreError && *final(store) == *old(store),
        },
{
    let due = now_unix();
    let created = now_unix();
    let r = store.insert_task(payload.name.clone(), String::new(), due, false, created);
    proof {
        if r is Ok {
            assert(final(store)@.tasks.drop_last() =~= old(store)@.tasks);
        }
    }
    r
}

/// Applies a partial-update body to the task with this id: each
/// supplied field overwrites, each absent field keeps its stored value,
/// and the creation stamp never changes. `NotFound` when no task has
/// the id.
pub fn update_task(store: &mut Store, id: i64, payload: &UpdateTask) -> (r: Result<(), ApiError>)
    requires
        old(store).wf(),
    ensures
        final(store).wf(),
        r is Ok <==> has_task(old(store)@.tasks, id as int),
        match r {
            Ok(_) => final(store)@ == with_tasks(
                old(store)@,
                patched_tasks(old(store)@.tasks, id as int, payload@),
                old(store)@.next_task_id,
            ),
            Err(e) => e == ApiError::NotFound && *final(store) == *old(store),
        },
{
    store.update_task_partial(id, payload)
}

/// Deletes the task with this id; an absent id affects zero rows and is
/// still success. Link rows are not cascaded: orphaned links stay
/// behind and later joins skip them.
pub fn delete_task(store: &mut Store, id: i64) -> (r: Result<(), ApiError>)
    requires
        old(store).wf(),
    ensures
        final(store).wf(),
        r is Ok,
        final(store)@ == with_tasks(
            old(store)@,
            removed_task(old(store)@.tasks, id as int),
            old(store)@.next_task_id,
        ),
{
    store.delete_task(id);
    Ok(())
}

/// Links a todo to a task, validating neither id. Linking an already
/// linked pair breaks the composite key and fails as a store error.
pub fn add_todo(store: &mut Store, task_id: i64, todo_id: i64) -> (r: Result<(), ApiError>)
    requires
        old(store).wf(),
    ensures
        final(store).wf(),
        r is Ok <==> !has_link(old(store)@.links, task_id as int, todo_id as int),
        match r {
            Ok(_) => final(store)@ == with_links(
                old(store)@,
                old(store)@.links.push(link_view(task_id as int, todo_id as int)),
            ),
            Err(e) => e == ApiError::StoreError && *final(store) == *old(store),
        },
{
    store.add_todo_link(task_id, todo_id)
}

/// Unlinks a todo from a task; an absent pair affects zero rows and is
/// still success.
pub fn remove_todo(store: &mut Store, task_id: i64, todo_id: i64) -> (r: Result<(), ApiError>)
    requires
        old(store).wf(),
    ensures
        final(store).wf(),
        r is Ok,
        final(store)@ == with_links(
            old(store)@,
            removed_link(old(store)@.links, task_id as int, todo_id as int),
        ),
{
    store.remove_todo_link(task_id, todo_id);
    Ok(())
}

} // verus!
