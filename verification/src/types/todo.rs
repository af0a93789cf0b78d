//! Todo rows: the stored shape, the request/response shapes, and the
//! spec-level model of a todo table as a sequence of row views.

use vstd::prelude::*;

verus! {

/// The mathematical value of one stored todo row.
#[verifier::ext_equal]
pub ghost struct TodoView {
    pub id: int,
    pub name: Seq<char>,
    pub done: bool,
}

/// One row of the todo table: a single actionable item.
#[derive(Clone, Debug, PartialEq, Eq)]
pub struct TodoItem {
    pub id: i64,
    pub name: String,
    pub done: bool,
}

impl View for TodoItem {
    type V = TodoView;

    open spec fn view(&self) -> TodoView {
        TodoView { id: self.id as int, name: self.name@, done: self.done }
    }
}

impl DeepView for TodoItem {
    type V = TodoView;

    open spec fn deep_view(&self) -> TodoView {
        self.view()
    }
}

/// A list of todo rows, as carried in a response body.
#[derive(Clone, Debug, PartialEq, Eq)]
pub struct TodoItems {
    pub items: Vec<TodoItem>,
}

/// Decoded request body for creating a todo: only the name is supplied.
#[derive(Clone, Debug, PartialEq, Eq)]
pub struct CreateTodo {
    pub name: String,
}

/// Raw form-encoded update body: a checked checkbox arrives as the
/// string "on", an unchecked one is absent.
#[derive(Clone, Debug, PartialEq, Eq)]
pub struct UpdateTodoRaw {
    pub name: Option<String>,
    pub done: Option<String>,
}

/// Decoded update body for a todo: an absent name keeps the stored one.
#[derive(Clone, Debug, PartialEq, Eq)]
pub struct UpdateTodo {
    pub name: Option<String>,
    pub done: bool,
}

impl From<UpdateTodoRaw> for UpdateTodo {
    /// Decodes the raw form body: `done` is true exactly when the
    /// checkbox value "on" was sent.
    fn from(value: UpdateTodoRaw) -> (r: UpdateTodo) {
        let done = match &value.done {
            Some(s) => {
                let on: String = "on".to_owned();
                *s == on
            },
            None => false,
        };
        UpdateTodo { name: value.name, done }
    }
}

impl vstd::std_specs::convert::FromSpecImpl<UpdateTodoRaw> for UpdateTodo {
    open spec fn obeys_from_spec() -> bool {
        true
    }

    open spec fn from_spec(t: UpdateTodoRaw) -> UpdateTodo {
        UpdateTodo {
            name: t.name,
            done: match t.done {
                Some(s) => s@ == "on"@,
                None => false,
            },
        }
    }
}

/// Query-string shape for a filtered todo listing.
#[derive(Clone, Copy, Debug, PartialEq, Eq, Structural)]
pub struct TodoQuery {
    pub done: Option<bool>,
}

/// Builds the view of a row, for use in contracts.
pub open spec fn todo_view(id: int, name: Seq<char>, done: bool) -> TodoView {
    TodoView { id, name, done }
}

/// The view of an optional name, for partial updates.
pub open spec fn opt_name_view(name: Option<String>) -> Option<Seq<char>> {
    match name {
        Some(n) => Some(n@),
        None => None,
    }
}

/// Whether the table holds a row with this id.
pub open spec fn has_todo(s: Seq<TodoView>, id: int) -> bool {
    exists|i: int| 0 <= i < s.len() && #[trigger] s[i].id == id
}

/// The position of the row with this id (meaningful when `has_todo` holds
/// and ids are distinct).
pub open spec fn todo_index(s: Seq<TodoView>, id: int) -> int {
    choose|i: int| 0 <= i < s.len() && #[trigger] s[i].id == id
}

/// The row with this id.
pub open spec fn todo_at(s: Seq<TodoView>, id: int) -> TodoView {
    s[todo_index(s, id)]
}

/// Row ids are strictly increasing along the table, so every id occurs
/// at most once and rows stay in insertion order.
pub open spec fn todo_ids_increasing(s: Seq<TodoView>) -> bool {
    forall|i: int, j: int| #![trigger s[i].id, s[j].id] 0 <= i < j < s.len() ==> s[i].id < s[j].id
}

/// Every row id is at least 1 and below the id counter.
pub open spec fn todo_ids_below(s: Seq<TodoView>, next_id: int) -> bool {
    forall|i: int| 0 <= i < s.len() ==> 1 <= #[trigger] s[i].id < next_id
}

/// A well-formed todo table under a given id counter.
pub open spec fn todos_wf(s: Seq<TodoView>, next_id: int) -> bool {
    &&& todo_ids_increasing(s)
    &&& todo_ids_below(s, next_id)
    &&& 1 <= next_id
}

/// Whether a row passes an optional completion filter: an absent filter
/// admits every row.
pub open spec fn done_matches(t: TodoView, filter: Option<bool>) -> bool {
    match filter {
        Some(d) => t.done == d,
        None => true,
    }
}

/// The rows that pass the filter, in table order.
pub open spec fn filtered_todos(s: Seq<TodoView>, filter: Option<bool>) -> Seq<TodoView> {
    s.filter(|t: TodoView| done_matches(t, filter))
}

/// The row after a partial update: each supplied field overwrites, each
/// absent field keeps the stored value; the id never changes.
pub open spec fn patched_todo(t: TodoView, name: Option<Seq<char>>, done: Option<bool>) -> TodoView {
    TodoView {
        id: t.id,
        name: match name {
            Some(n) => n,
            None => t.name,
        },
        done: match done {
            Some(d) => d,
            None => t.done,
        },
    }
}

/// The row with its completion flag flipped.
pub open spec fn flipped_todo(t: TodoView) -> TodoView {
    TodoView { id: t.id, name: t.name, done: !t.done }
}

/// The table after a partial update of the row with this id.
pub open spec fn patched_todos(
    s: Seq<TodoView>,
    id: int,
    name: Option<Seq<char>>,
    done: Option<bool>,
) -> Seq<TodoView> {
    s.update(todo_index(s, id), patched_todo(todo_at(s, id), name, done))
}

/// The table after toggling the row with this id.
pub open spec fn toggled_todos(s: Seq<TodoView>, id: int) -> Seq<TodoView> {
    s.update(todo_index(s, id), flipped_todo(todo_at(s, id)))
}

/// The table after deleting the row with this id; deleting an absent id
/// changes nothing.
pub open spec fn removed_todo(s: Seq<TodoView>, id: int) -> Seq<TodoView> {
    if has_todo(s, id) {
        s.remove(todo_index(s, id))
    } else {
        s
    }
}

/// In a table with strictly increasing ids, looking a row up by its own
/// id finds exactly that row.
pub proof fn lemma_todo_index_of(s: Seq<TodoView>, i: int)
    requires
        todo_ids_increasing(s),
        0 <= i < s.len(),
    ensures
        has_todo(s, s[i].id),
        todo_index(s, s[i].id) == i,
        todo_at(s, s[i].id) == s[i],
{
    assert(has_todo(s, s[i].id));
    let k = todo_index(s, s[i].id);
    assert(0 <= k < s.len() && s[k].id == s[i].id);
    if k < i {
        assert(s[k].id < s[i].id);
    }
    if i < k {
        assert(s[i].id < s[k].id);
    }
}

/// Appending a fresh row leaves it findable under its id, and every
/// stored row findable unchanged.
pub proof fn lemma_todo_push_lookup(s: Seq<TodoView>, next: int, t: TodoView)
    requires
        todos_wf(s, next),
        t.id == next,
    ensures
        has_todo(s.push(t), t.id),
        todo_at(s.push(t), t.id) == t,
        todo_index(s.push(t), t.id) == s.len(),
{
    let s2 = s.push(t);
    assert forall|i: int, j: int| #![trigger s2[i].id, s2[j].id] 0 <= i < j < s2.len() implies s2[i].id
        < s2[j].id by {
        if j == s.len() {
            assert(s2[i] == s[i]);
            assert(s[i].id < next);
        }
    }
    assert(s2[s.len() as int].id == t.id);
    lemma_todo_index_of(s2, s.len() as int);
}

/// Replacing the row with this id by one carrying the same id leaves
/// the replacement findable under the id, and every other row
/// untouched.
pub proof fn lemma_todo_update_lookup(s: Seq<TodoView>, id: int, t: TodoView)
    requires
        todo_ids_increasing(s),
        has_todo(s, id),
        t.id == id,
    ensures
        ({
            let s2 = s.update(todo_index(s, id), t);
            &&& s2.len() == s.len()
            &&& has_todo(s2, id)
            &&& todo_index(s2, id) == todo_index(s, id)
            &&& todo_at(s2, id) == t
            &&& forall|j: int|
                0 <= j < s.len() && (#[trigger] s[j].id) != id ==> s2[j] == s[j]
        }),
{
    let k = todo_index(s, id);
    assert(0 <= k < s.len() && s[k].id == id);
    let s2 = s.update(k, t);
    assert forall|i: int, j: int| #![trigger s2[i].id, s2[j].id] 0 <= i < j < s2.len() implies s2[i].id
        < s2[j].id by {
        assert(s[i].id < s[j].id);
    }
    assert(s2[k].id == id);
    lemma_todo_index_of(s2, k);
}

} // verus!
