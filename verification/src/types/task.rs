//! Task rows: the stored shape, the request/response shapes, and the
//! spec-level model of the task table. Timestamps are carried as Unix
//! seconds so that contracts can speak about them as plain integers.

use crate::types::todo::TodoView;
use vstd::prelude::*;

verus! {

/// The mathematical value of one stored task row.
#[verifier::ext_equal]
pub ghost struct TaskView {
    pub id: int,
    pub name: Seq<char>,
    pub description: Seq<char>,
    pub created: int,
    pub due: int,
    pub done: bool,
}

/// One row of the task table, without its linked todos.
#[derive(Clone, Debug, PartialEq, Eq)]
pub struct TaskRow {
    pub id: i64,
    pub name: String,
    pub description: String,
    /// Unix seconds, stamped by the server at insert and never changed.
    pub created: i64,
    /// Unix seconds.
    pub due: i64,
    pub done: bool,
}

impl View for TaskRow {
    type V = TaskView;

    open spec fn view(&self) -> TaskView {
        TaskView {
            id: self.id as int,
            name: self.name@,
            description: self.description@,
            created: self.created as int,
            due: self.due as int,
            done: self.done,
        }
    }
}

impl DeepView for TaskRow {
    type V = TaskView;

    open spec fn deep_view(&self) -> TaskView {
        self.view()
    }
}

/// The mathematical value of a task listing entry.
#[verifier::ext_equal]
pub ghost struct TaskHeaderView {
    pub id: int,
    pub name: Seq<char>,
}

/// A lightweight listing entry: just the id and name of a task.
#[derive(Clone, Debug, PartialEq, Eq)]
pub struct TaskHeader {
    pub id: i64,
    pub name: String,
}

impl View for TaskHeader {
    type V = TaskHeaderView;

    open spec fn view(&self) -> TaskHeaderView {
        TaskHeaderView { id: self.id as int, name: self.name@ }
    }
}

impl DeepView for TaskHeader {
    type V = TaskHeaderView;

    open spec fn deep_view(&self) -> TaskHeaderView {
        self.view()
    }
}

/// A list of task headers, as carried in a response body.
#[derive(Clone, Debug, PartialEq, Eq)]
pub struct TaskHeaders {
    pub tasks: Vec<TaskHeader>,
}

/// The mathematical value of a task composed with its linked todos.
#[verifier::ext_equal]
pub ghost struct TaskModelView {
    pub id: int,
    pub name: Seq<char>,
    pub description: Seq<char>,
    pub created: int,
    pub due: int,
    pub done: bool,
    pub todos: Seq<TodoView>,
}

/// A task together with the todos linked to it: the aggregate handed to
/// views and serialized in responses.
#[derive(Clone, Debug, PartialEq, Eq)]
pub struct TaskModel {
    pub id: i64,
    pub name: String,
    pub description: String,
    /// Unix seconds, stamped by the server at insert.
    pub created: i64,
    /// Unix seconds.
    pub due: i64,
    pub done: bool,
    pub todos: Vec<crate::types::todo::TodoItem>,
}

impl View for TaskModel {
    type V = TaskModelView;

    open spec fn view(&self) -> TaskModelView {
        TaskModelView {
            id: self.id as int,
            name: self.name@,
            description: self.description@,
            created: self.created as int,
            due: self.due as int,
            done: self.done,
            todos: self.todos.deep_view(),
        }
    }
}

/// Decoded request body for creating a task: only the name is supplied;
/// the server stamps the timestamps.
#[derive(Clone, Debug, PartialEq, Eq)]
pub struct CreateTask {
    pub name: String,
}

/// The view of a partial-update body for a task.
#[verifier::ext_equal]
pub ghost struct UpdateTaskView {
    pub name: Option<Seq<char>>,
    pub description: Option<Seq<char>>,
    pub due: Option<int>,
    pub done: Option<bool>,
}

/// Decoded partial-update body for a task: every absent field keeps its
/// stored value.
#[derive(Clone, Debug, PartialEq, Eq)]
pub struct UpdateTask {
    pub name: Option<String>,
    pub description: Option<String>,
    /// Unix seconds.
    pub due: Option<i64>,
    pub done: Option<bool>,
}

impl View for UpdateTask {
    type V = UpdateTaskView;

    open spec fn view(&self) -> UpdateTaskView {
        UpdateTaskView {
            name: match self.name {
                Some(n) => Some(n@),
                None => None,
            },
            description: match self.description {
                Some(d) => Some(d@),
                None => None,
            },
            due: match self.due {
                Some(d) => Some(d as int),
                None => None,
            },
            done: self.done,
        }
    }
}

/// Builds the view of a task row, for use in contracts.
pub open spec fn task_view(
    id: int,
    name: Seq<char>,
    description: Seq<char>,
    created: int,
    due: int,
    done: bool,
) -> TaskView {
    TaskView { id, name, description, created, due, done }
}

/// The listing entry of a task row.
pub open spec fn header_of(t: TaskView) -> TaskHeaderView {
    TaskHeaderView { id: t.id, name: t.name }
}

/// The listing of a whole task table, in table order.
pub open spec fn headers_of(s: Seq<TaskView>) -> Seq<TaskHeaderView> {
    s.map_values(|t: TaskView| header_of(t))
}

/// Whether the table holds a task with this id.
pub open spec fn has_task(s: Seq<TaskView>, id: int) -> bool {
    exists|i: int| 0 <= i < s.len() && #[trigger] s[i].id == id
}

/// The position of the task with this id (meaningful when `has_task`
/// holds and ids are distinct).
pub open spec fn task_index(s: Seq<TaskView>, id: int) -> int {
    choose|i: int| 0 <= i < s.len() && #[trigger] s[i].id == id
}

/// The task with this id.
pub open spec fn task_at(s: Seq<TaskView>, id: int) -> TaskView {
    s[task_index(s, id)]
}

/// Task ids are strictly increasing along the table.
pub open spec fn task_ids_increasing(s: Seq<TaskView>) -> bool {
    forall|i: int, j: int| #![trigger s[i].id, s[j].id] 0 <= i < j < s.len() ==> s[i].id < s[j].id
}

/// Every task id is at least 1 and below the id counter.
pub open spec fn task_ids_below(s: Seq<TaskView>, next_id: int) -> bool {
    forall|i: int| 0 <= i < s.len() ==> 1 <= #[trigger] s[i].id < next_id
}

/// A well-formed task table under a given id counter.
pub open spec fn tasks_wf(s: Seq<TaskView>, next_id: int) -> bool {
    &&& task_ids_increasing(s)
    &&& task_ids_below(s, next_id)
    &&& 1 <= next_id
}

/// The task after a partial update: each supplied field overwrites, each
/// absent field keeps the stored value; id and creation stamp never change.
pub open spec fn patched_task(t: TaskView, p: UpdateTaskView) -> TaskView {
    TaskView {
        id: t.id,
        name: match p.name {
            Some(n) => n,
            None => t.name,
        },
        description: match p.description {
            Some(d) => d,
            None => t.description,
        },
        created: t.created,
        due: match p.due {
            Some(d) => d,
            None => t.due,
        },
        done: match p.done {
            Some(d) => d,
            None => t.done,
        },
    }
}

/// The table after a partial update of the task with this id.
pub open spec fn patched_tasks(s: Seq<TaskView>, id: int, p: UpdateTaskView) -> Seq<TaskView> {
    s.update(task_index(s, id), patched_task(task_at(s, id), p))
}

/// The aggregate of a task row with the todos linked to it.
pub open spec fn task_model_view(t: TaskView, todos: Seq<TodoView>) -> TaskModelView {
    TaskModelView {
        id: t.id,
        name: t.name,
        description: t.description,
        created: t.created,
        due: t.due,
        done: t.done,
        todos,
    }
}

/// The task table after creating a task: one row appended under the
/// given id, named as requested, with an empty description and not done.
/// Its timestamps come from the server clock, so only their presence is
/// stated.
pub open spec fn task_created(
    pre: Seq<TaskView>,
    post: Seq<TaskView>,
    id: int,
    name: Seq<char>,
) -> bool {
    &&& post.len() == pre.len() + 1
    &&& post.drop_last() == pre
    &&& post.last().id == id
    &&& post.last().name == name
    &&& post.last().description == Seq::<char>::empty()
    &&& post.last().done == false
    &&& 0 <= post.last().created
    &&& 0 <= post.last().due
}

/// The table after deleting the task with this id; deleting an absent id
/// changes nothing.
pub open spec fn removed_task(s: Seq<TaskView>, id: int) -> Seq<TaskView> {
    if has_task(s, id) {
        s.remove(task_index(s, id))
    } else {
        s
    }
}

} // verus!
