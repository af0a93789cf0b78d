//! The task-todo link table: many-to-many membership of todos in tasks,
//! with a composite key over the two ids.

use crate::types::todo::TodoView;
use vstd::prelude::*;

verus! {

/// The mathematical value of one link row.
#[verifier::ext_equal]
pub ghost struct LinkView {
    pub task_id: int,
    pub todo_id: int,
}

/// One row of the link table: membership of a todo in a task. Both ids
/// are foreign keys; the pair is the composite primary key.
#[derive(Clone, Copy, Debug, PartialEq, Eq, Structural)]
pub struct TaskTodoLink {
    pub task_id: i64,
    pub todo_id: i64,
}

impl View for TaskTodoLink {
    type V = LinkView;

    open spec fn view(&self) -> LinkView {
        LinkView { task_id: self.task_id as int, todo_id: self.todo_id as int }
    }
}

impl DeepView for TaskTodoLink {
    type V = LinkView;

    open spec fn deep_view(&self) -> LinkView {
        self.view()
    }
}

/// Builds the view of a link row, for use in contracts.
pub open spec fn link_view(task_id: int, todo_id: int) -> LinkView {
    LinkView { task_id, todo_id }
}

/// Whether the link table holds this pair.
pub open spec fn has_link(s: Seq<LinkView>, task_id: int, todo_id: int) -> bool {
    exists|i: int|
        0 <= i < s.len() && (#[trigger] s[i]) == (LinkView { task_id, todo_id })
}

/// The position of this pair in the link table.
pub open spec fn link_index(s: Seq<LinkView>, task_id: int, todo_id: int) -> int {
    choose|i: int| 0 <= i < s.len() && (#[trigger] s[i]) == (LinkView { task_id, todo_id })
}

/// No pair occurs twice: the composite key is honoured.
pub open spec fn links_wf(s: Seq<LinkView>) -> bool {
    forall|i: int, j: int| #![trigger s[i], s[j]] 0 <= i < j < s.len() ==> s[i] != s[j]
}

/// The link table after removing this pair; removing an absent pair
/// changes nothing.
pub open spec fn removed_link(s: Seq<LinkView>, task_id: int, todo_id: int) -> Seq<LinkView> {
    if has_link(s, task_id, todo_id) {
        s.remove(link_index(s, task_id, todo_id))
    } else {
        s
    }
}

/// The todos that belong to a task: the rows of the todo table, in table
/// order, whose id is linked to the task. Link rows whose todo id matches
/// no row are skipped silently.
pub open spec fn linked_todos(
    todos: Seq<TodoView>,
    links: Seq<LinkView>,
    task_id: int,
) -> Seq<TodoView> {
    todos.filter(|t: TodoView| has_link(links, task_id, t.id))
}

} // verus!
