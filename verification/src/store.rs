//! The relational store held as typed in-memory tables — todos, tasks,
//! users and the task-todo link table — with the row-level operations of
//! the data-access layer. Every operation is specified against the
//! store's mathematical view: sequences of row views plus the id
//! counters that the tables' generated primary keys advance.

use crate::error::ApiError;
use crate::types::link::{
    has_link, link_view, linked_todos, links_wf, removed_link, LinkView, TaskTodoLink,
};
use crate::types::task::{
    has_task, headers_of, patched_tasks, removed_task, task_at, task_index, task_view, tasks_wf,
    TaskHeader, TaskRow, TaskView, UpdateTask,
};
use crate::types::todo::{
    done_matches, filtered_todos, flipped_todo, has_todo, opt_name_view, patched_todos,
    removed_todo, todo_at, todo_index, todo_view, todos_wf, toggled_todos, TodoItem, TodoView,
};
use crate::types::user::{user_view, users_wf, User, UserView};
use vstd::prelude::*;

verus! {

/// The mathematical value of the whole store: one sequence of row views
/// per table, and the next generated id of each table that has one.
#[verifier::ext_equal]
pub ghost struct StoreView {
    pub todos: Seq<TodoView>,
    pub next_todo_id: int,
    pub tasks: Seq<TaskView>,
    pub next_task_id: int,
    pub links: Seq<LinkView>,
    pub users: Seq<UserView>,
    pub next_user_id: int,
}

/// The store after replacing the todo table and its id counter.
pub open spec fn with_todos(s: StoreView, todos: Seq<TodoView>, next_todo_id: int) -> StoreView {
    StoreView { todos, next_todo_id, ..s }
}

/// The store after replacing the task table and its id counter.
pub open spec fn with_tasks(s: StoreView, tasks: Seq<TaskView>, next_task_id: int) -> StoreView {
    StoreView { tasks, next_task_id, ..s }
}

/// The store after replacing the link table.
pub open spec fn with_links(s: StoreView, links: Seq<LinkView>) -> StoreView {
    StoreView { links, ..s }
}

/// The store after replacing the user table and its id counter.
pub open spec fn with_users(s: StoreView, users: Seq<UserView>, next_user_id: int) -> StoreView {
    StoreView { users, next_user_id, ..s }
}

/// A well-formed store: each table's ids are strictly increasing and
/// below its counter, and no link pair occurs twice.
pub open spec fn store_wf(s: StoreView) -> bool {
    &&& todos_wf(s.todos, s.next_todo_id)
    &&& tasks_wf(s.tasks, s.next_task_id)
    &&& links_wf(s.links)
    &&& users_wf(s.users, s.next_user_id)
}

/// The value of a store with no rows, as a fresh database presents it.
pub open spec fn empty_store() -> StoreView {
    StoreView {
        todos: Seq::<TodoView>::empty(),
        next_todo_id: 1,
        tasks: Seq::<TaskView>::empty(),
        next_task_id: 1,
        links: Seq::<LinkView>::empty(),
        users: Seq::<UserView>::empty(),
        next_user_id: 1,
    }
}

/// The in-memory relational store. Generated ids start at 1 and
/// increment on every insert, as the underlying tables' integer primary
/// keys do.
pub struct Store {
    todos: Vec<TodoItem>,
    next_todo_id: i64,
    tasks: Vec<TaskRow>,
    next_task_id: i64,
    links: Vec<TaskTodoLink>,
    users: Vec<User>,
    next_user_id: i64,
}

impl View for Store {
    type V = StoreView;

    closed spec fn view(&self) -> StoreView {
        StoreView {
            todos: self.todos.deep_view(),
            next_todo_id: self.next_todo_id as int,
            tasks: self.tasks.deep_view(),
            next_task_id: self.next_task_id as int,
            links: self.links.deep_view(),
            users: self.users.deep_view(),
            next_user_id: self.next_user_id as int,
        }
    }
}

/// Pushing onto a vector appends the element's view to the vector's
/// deep view.
proof fn lemma_push_deep_view<T: DeepView>(pre: Vec<T>, post: Vec<T>, t: T)
    requires
        post@ == pre@.push(t),
    ensures
        post.deep_view() =~= pre.deep_view().push(t.deep_view()),
{
    assert forall|j: int| 0 <= j < post@.len() implies post.deep_view()[j] == pre.deep_view().push(
        t.deep_view(),
    )[j] by {
        assert(post@[j] == pre@.push(t)[j]);
    }
}

/// Overwriting one element of a vector updates the same position of its
/// deep view.
proof fn lemma_update_deep_view<T: DeepView>(pre: Vec<T>, post: Vec<T>, i: int, t: T)
    requires
        0 <= i < pre@.len(),
        post@ == pre@.update(i, t),
    ensures
        post.deep_view() =~= pre.deep_view().update(i, t.deep_view()),
{
    assert forall|j: int| 0 <= j < post@.len() implies post.deep_view()[j] == pre.deep_view().update(
        i,
        t.deep_view(),
    )[j] by {
        assert(post@[j] == pre@.update(i, t)[j]);
    }
}

/// Removing one element of a vector removes the same position of its
/// deep view.
proof fn lemma_remove_deep_view<T: DeepView>(pre: Vec<T>, post: Vec<T>, i: int)
    requires
        0 <= i < pre@.len(),
        post@ == pre@.remove(i),
    ensures
        post.deep_view() =~= pre.deep_view().remove(i),
{
    pre@.remove_ensures(i);
    pre.deep_view().remove_ensures(i);
    assert forall|j: int| 0 <= j < post@.len() implies post.deep_view()[j] == pre.deep_view().remove(
        i,
    )[j] by {
        assert(post@[j] == pre@.remove(i)[j]);
    }
}

/// Appending a row with the next id keeps a todo table well formed under
/// the advanced counter.
proof fn lemma_todos_push_wf(s: Seq<TodoView>, next: int, t: TodoView)
    requires
        todos_wf(s, next),
        t.id == next,
    ensures
        todos_wf(s.push(t), next + 1),
{
    let s2 = s.push(t);
    assert forall|i: int, j: int| 0 <= i < j < s2.len() implies s2[i].id < s2[j].id by {
        if j == s.len() {
            assert(s2[i] == s[i]);
            assert(s[i].id < next);
        }
    }
    assert forall|i: int| 0 <= i < s2.len() implies 1 <= (#[trigger] s2[i]).id < next + 1 by {
        if i < s.len() {
            assert(s2[i] == s[i]);
        }
    }
}

/// Replacing a row by one with the same id keeps a todo table well
/// formed.
proof fn lemma_todos_update_wf(s: Seq<TodoView>, next: int, i: int, t: TodoView)
    requires
        todos_wf(s, next),
        0 <= i < s.len(),
        t.id == s[i].id,
    ensures
        todos_wf(s.update(i, t), next),
{
    let s2 = s.update(i, t);
    assert forall|a: int, b: int| 0 <= a < b < s2.len() implies s2[a].id < s2[b].id by {
        assert(s[a].id < s[b].id);
    }
    assert forall|a: int| 0 <= a < s2.len() implies 1 <= (#[trigger] s2[a]).id < next by {
        assert(1 <= s[a].id < next);
    }
}

/// Removing a row keeps a todo table well formed.
proof fn lemma_todos_remove_wf(s: Seq<TodoView>, next: int, i: int)
    requires
        todos_wf(s, next),
        0 <= i < s.len(),
    ensures
        todos_wf(s.remove(i), next),
{
    s.remove_ensures(i);
    let s2 = s.remove(i);
    assert forall|a: int, b: int| 0 <= a < b < s2.len() implies s2[a].id < s2[b].id by {
        let a0 = if a < i { a } else { a + 1 };
        let b0 = if b < i { b } else { b + 1 };
        assert(s2[a] == s[a0]);
        assert(s2[b] == s[b0]);
        assert(s[a0].id < s[b0].id);
    }
    assert forall|a: int| 0 <= a < s2.len() implies 1 <= (#[trigger] s2[a]).id < next by {
        let a0 = if a < i { a } else { a + 1 };
        assert(s2[a] == s[a0]);
    }
}

/// Appending a row with the next id keeps a task table well formed under
/// the advanced counter.
proof fn lemma_tasks_push_wf(s: Seq<TaskView>, next: int, t: TaskView)
    requires
        tasks_wf(s, next),
        t.id == next,
    ensures
        tasks_wf(s.push(t), next + 1),
{
    let s2 = s.push(t);
    assert forall|i: int, j: int| 0 <= i < j < s2.len() implies s2[i].id < s2[j].id by {
        if j == s.len() {
            assert(s2[i] == s[i]);
            assert(s[i].id < next);
        }
    }
    assert forall|i: int| 0 <= i < s2.len() implies 1 <= (#[trigger] s2[i]).id < next + 1 by {
        if i < s.len() {
            assert(s2[i] == s[i]);
        }
    }
}

/// Replacing a row by one with the same id keeps a task table well
/// formed.
proof fn lemma_tasks_update_wf(s: Seq<TaskView>, next: int, i: int, t: TaskView)
    requires
        tasks_wf(s, next),
        0 <= i < s.len(),
        t.id == s[i].id,
    ensures
        tasks_wf(s.update(i, t), next),
{
    let s2 = s.update(i, t);
    assert forall|a: int, b: int| 0 <= a < b < s2.len() implies s2[a].id < s2[b].id by {
        assert(s[a].id < s[b].id);
    }
    assert forall|a: int| 0 <= a < s2.len() implies 1 <= (#[trigger] s2[a]).id < next by {
        assert(1 <= s[a].id < next);
    }
}

/// Removing a row keeps a task table well formed.
proof fn lemma_tasks_remove_wf(s: Seq<TaskView>, next: int, i: int)
    requires
        tasks_wf(s, next),
        0 <= i < s.len(),
    ensures
        tasks_wf(s.remove(i), next),
{
    s.remove_ensures(i);
    let s2 = s.remove(i);
    assert forall|a: int, b: int| 0 <= a < b < s2.len() implies s2[a].id < s2[b].id by {
        let a0 = if a < i { a } else { a + 1 };
        let b0 = if b < i { b } else { b + 1 };
        assert(s2[a] == s[a0]);
        assert(s2[b] == s[b0]);
        assert(s[a0].id < s[b0].id);
    }
    assert forall|a: int| 0 <= a < s2.len() implies 1 <= (#[trigger] s2[a]).id < next by {
        let a0 = if a < i { a } else { a + 1 };
        assert(s2[a] == s[a0]);
    }
}

/// Appending a row with the next id keeps a user table well formed under
/// the advanced counter.
proof fn lemma_users_push_wf(s: Seq<UserView>, next: int, u: UserView)
    requires
        users_wf(s, next),
        u.id == next,
    ensures
        users_wf(s.push(u), next + 1),
{
    let s2 = s.push(u);
    assert forall|i: int, j: int| 0 <= i < j < s2.len() implies s2[i].id < s2[j].id by {
        if j == s.len() {
            assert(s2[i] == s[i]);
            assert(s[i].id < next);
        }
    }
    assert forall|i: int| 0 <= i < s2.len() implies 1 <= (#[trigger] s2[i]).id < next + 1 by {
        if i < s.len() {
            assert(s2[i] == s[i]);
        }
    }
}

/// Appending a pair that is not yet present keeps the link table free of
/// duplicates.
proof fn lemma_links_push_wf(s: Seq<LinkView>, l: LinkView)
    requires
        links_wf(s),
        !has_link(s, l.task_id, l.todo_id),
    ensures
        links_wf(s.push(l)),
{
    let s2 = s.push(l);
    assert forall|i: int, j: int| 0 <= i < j < s2.len() implies s2[i] != s2[j] by {
        if j == s.len() {
            assert(s2[i] == s[i]);
            assert(s[i] != (LinkView { task_id: l.task_id, todo_id: l.todo_id }));
        }
    }
}

/// Removing a pair keeps the link table free of duplicates.
proof fn lemma_links_remove_wf(s: Seq<LinkView>, i: int)
    requires
        links_wf(s),
        0 <= i < s.len(),
    ensures
        links_wf(s.remove(i)),
{
    s.remove_ensures(i);
    let s2 = s.remove(i);
    assert forall|a: int, b: int| 0 <= a < b < s2.len() implies s2[a] != s2[b] by {
        let a0 = if a < i { a } else { a + 1 };
        let b0 = if b < i { b } else { b + 1 };
        assert(s2[a] == s[a0]);
        assert(s2[b] == s[b0]);
    }
}

/// A fresh copy of a stored todo row, equal to the original.
fn copy_todo(t: &TodoItem) -> (r: TodoItem)
    ensures
        r == *t,
{
    TodoItem { id: t.id, name: t.name.clone(), done: t.done }
}

/// A fresh copy of a stored task row, equal to the original.
fn copy_task(t: &TaskRow) -> (r: TaskRow)
    ensures
        r == *t,
{
    TaskRow {
        id: t.id,
        name: t.name.clone(),
        description: t.description.clone(),
        created: t.created,
        due: t.due,
        done: t.done,
    }
}

impl Store {
    /// A well-formed store.
    pub open spec fn wf(&self) -> bool {
        store_wf(self@)
    }

    /// Opens an empty store, the state a fresh database is in once the
    /// schema exists.
    pub fn new() -> (s: Store)
        ensures
            s.wf(),
            s@ == empty_store(),
    {
        let s = Store {
            todos: Vec::new(),
            next_todo_id: 1,
            tasks: Vec::new(),
            next_task_id: 1,
            links: Vec::new(),
            users: Vec::new(),
            next_user_id: 1,
        };
        proof {
            assert(s@ =~= empty_store());
        }
        s
    }

    /// The position of the todo row with this id, if any.
    fn find_todo(&self, id: i64) -> (r: Option<usize>)
        requires
            self.wf(),
        ensures
            match r {
                Some(i) => {
                    &&& has_todo(self@.todos, id as int)
                    &&& todo_index(self@.todos, id as int) == i as int
                    &&& 0 <= (i as int) < self@.todos.len()
                    &&& self@.todos[i as int].id == id as int
                },
                None => !has_todo(self@.todos, id as int),
            },
    {
        let n = self.todos.len();
        let mut i: usize = 0;
        while i < n
            invariant
                n == self.todos.len(),
                i <= n,
                self.wf(),
                forall|j: int| 0 <= j < i ==> (#[trigger] self@.todos[j].id) != id as int,
            decreases n - i,
        {
            if self.todos[i].id == id {
                proof {
                    let s = self@.todos;
                    assert(s[i as int].id == id as int);
                    assert(has_todo(s, id as int));
                    let k = todo_index(s, id as int);
                    assert(0 <= k < s.len() && s[k].id == id as int);
                    assert(k == i as int);
                }
                return Some(i);
            }
            i += 1;
        }
        None
    }

    /// `selectById` for todos: the row with this id, or `NotFound`.
    pub fn select_todo(&self, id: i64) -> (r: Result<TodoItem, ApiError>)
        requires
            self.wf(),
        ensures
            r is Ok <==> has_todo(self@.todos, id as int),
            match r {
                Ok(t) => t@ == todo_at(self@.todos, id as int),
                Err(e) => e == ApiError::NotFound,
            },
    {
        match self.find_todo(id) {
            Some(i) => Ok(copy_todo(&self.todos[i])),
            None => Err(ApiError::NotFound),
        }
    }

    /// `selectAll` for todos: every row, in table order.
    pub fn select_all_todos(&self) -> (r: Vec<TodoItem>)
        ensures
            r.deep_view() == self@.todos,
    {
        let n = self.todos.len();
        let mut out: Vec<TodoItem> = Vec::new();
        let mut i: usize = 0;
        while i < n
            invariant
                n == self.todos.len(),
                i <= n,
                out.deep_view() =~= self@.todos.take(i as int),
            decreases n - i,
        {
            let t = copy_todo(&self.todos[i]);
            let ghost prev = out;
            let ghost tv = t;
            out.push(t);
            proof {
                lemma_push_deep_view(prev, out, tv);
                assert(self@.todos.take(i + 1) =~= self@.todos.take(i as int).push(
                    self@.todos[i as int],
                ));
                assert(out.deep_view() =~= self@.todos.take(i + 1));
            }
            i += 1;
        }
        proof {
            assert(out.deep_view() =~= self@.todos);
        }
        out
    }

    /// `selectFiltered` for todos: with a filter, exactly the rows whose
    /// completion flag matches it; without one, every row — in table
    /// order either way.
    pub fn select_filtered_todos(&self, filter: Option<bool>) -> (r: Vec<TodoItem>)
        ensures
            r.deep_view() == filtered_todos(self@.todos, filter),
    {
        let n = self.todos.len();
        let mut out: Vec<TodoItem> = Vec::new();
        let mut i: usize = 0;
        while i < n
            invariant
                n == self.todos.len(),
                i <= n,
                out.deep_view() =~= filtered_todos(self@.todos.take(i as int), filter),
            decreases n - i,
        {
            let keep = match &filter {
                Some(d) => self.todos[i].done == *d,
                None => true,
            };
            proof {
                assert(keep == done_matches(self@.todos[i as int], filter));
            }
            if keep {
                let t = copy_todo(&self.todos[i]);
                let ghost prev = out;
                let ghost tv = t;
                out.push(t);
                proof {
                    lemma_push_deep_view(prev, out, tv);
                }
            }
            proof {
                reveal(Seq::filter);
                let s = self@.todos;
                assert(s.take(i + 1).drop_last() =~= s.take(i as int));
                assert(s.take(i + 1).last() == s[i as int]);
                assert(out.deep_view() =~= filtered_todos(s.take(i + 1), filter));
            }
            i += 1;
        }
        proof {
            assert(self@.todos.take(n as int) =~= self@.todos);
        }
        out
    }

    /// `insert` for todos: appends a row named as requested, not yet
    /// done, under the next generated id, and returns that id. Fails
    /// only when the id space is exhausted.
    pub fn insert_todo(&mut self, name: String) -> (r: Result<i64, ApiError>)
        requires
            old(self).wf(),
        ensures
            final(self).wf(),
            r is Ok <==> old(self)@.next_todo_id < i64::MAX,
            match r {
                Ok(id) => {
                    &&& id == old(self)@.next_todo_id
                    &&& final(self)@ == with_todos(
                        old(self)@,
                        old(self)@.todos.push(todo_view(id as int, name@, false)),
                        old(self)@.next_todo_id + 1,
                    )
                },
                Err(e) => e == ApiError::StoreError && *final(self) == *old(self),
            },
    {
        if self.next_todo_id == i64::MAX {
            return Err(ApiError::StoreError);
        }
        let id = self.next_todo_id;
        let row = TodoItem { id, name, done: false };
        let ghost prev = self.todos;
        let ghost rowv = row;
        self.todos.push(row);
        self.next_todo_id = id + 1;
        proof {
            lemma_push_deep_view(prev, self.todos, rowv);
            lemma_todos_push_wf(old(self)@.todos, old(self)@.next_todo_id, rowv@);
            assert(self@ =~= with_todos(
                old(self)@,
                old(self)@.todos.push(todo_view(id as int, rowv.name@, false)),
                old(self)@.next_todo_id + 1,
            ));
        }
        Ok(id)
    }

    /// `updatePartial` for todos: reads the stored row, then overwrites
    /// it with each supplied field, keeping the stored value of each
    /// absent one. `NotFound` when no row has the id.
    pub fn update_todo_partial(
        &mut self,
        id: i64,
        name: Option<String>,
        done: Option<bool>,
    ) -> (r: Result<(), ApiError>)
        requires
            old(self).wf(),
        ensures
            final(self).wf(),
            r is Ok <==> has_todo(old(self)@.todos, id as int),
            match r {
                Ok(_) => final(self)@ == with_todos(
                    old(self)@,
                    patched_todos(old(self)@.todos, id as int, opt_name_view(name), done),
                    old(self)@.next_todo_id,
                ),
                Err(e) => e == ApiError::NotFound && *final(self) == *old(self),
            },
    {
        match self.find_todo(id) {
            Some(i) => {
                let stored = copy_todo(&self.todos[i]);
                let new_name = match name {
                    Some(n) => n,
                    None => stored.name,
                };
                let new_done = match done {
                    Some(d) => d,
                    None => stored.done,
                };
                let row = TodoItem { id: stored.id, name: new_name, done: new_done };
                let ghost prev = self.todos;
                let ghost rowv = row;
                self.todos[i] = row;
                proof {
                    lemma_update_deep_view(prev, self.todos, i as int, rowv);
                    lemma_todos_update_wf(old(self)@.todos, old(self)@.next_todo_id, i as int, rowv@);
                    assert(self@ =~= with_todos(
                        old(self)@,
                        patched_todos(old(self)@.todos, id as int, opt_name_view(name), done),
                        old(self)@.next_todo_id,
                    ));
                }
                Ok(())
            },
            None => Err(ApiError::NotFound),
        }
    }

    /// `toggleDone` for todos: reads the row, flips its completion flag,
    /// writes it back and returns the new state. `NotFound` when no row
    /// has the id.
    pub fn toggle_todo(&mut self, id: i64) -> (r: Result<TodoItem, ApiError>)
        requires
            old(self).wf(),
        ensures
            final(self).wf(),
            r is Ok <==> has_todo(old(self)@.todos, id as int),
            match r {
                Ok(t) => {
                    &&& t@ == flipped_todo(todo_at(old(self)@.todos, id as int))
                    &&& final(self)@ == with_todos(
                        old(self)@,
                        toggled_todos(old(self)@.todos, id as int),
                        old(self)@.next_todo_id,
                    )
                },
                Err(e) => e == ApiError::NotFound && *final(self) == *old(self),
            },
    {
        match self.find_todo(id) {
            Some(i) => {
                let stored = copy_todo(&self.todos[i]);
                let row = TodoItem { id: stored.id, name: stored.name, done: !stored.done };
                let result = copy_todo(&row);
                let ghost prev = self.todos;
                let ghost rowv = row;
                self.todos[i] = row;
                proof {
                    lemma_update_deep_view(prev, self.todos, i as int, rowv);
                    lemma_todos_update_wf(old(self)@.todos, old(self)@.next_todo_id, i as int, rowv@);
                    assert(self@ =~= with_todos(
                        old(self)@,
                        toggled_todos(old(self)@.todos, id as int),
                        old(self)@.next_todo_id,
                    ));
                }
                Ok(result)
            },
            None => Err(ApiError::NotFound),
        }
    }

    /// `delete` for todos: removes the row with this id; deleting an
    /// absent id affects zero rows and is still success, so this never
    /// fails.
    pub fn delete_todo(&mut self, id: i64)
        requires
            old(self).wf(),
        ensures
            final(self).wf(),
            final(self)@ == with_todos(
                old(self)@,
                removed_todo(old(self)@.todos, id as int),
                old(self)@.next_todo_id,
            ),
    {
        match self.find_todo(id) {
            Some(i) => {
                let ghost prev = self.todos;
                self.todos.remove(i);
                proof {
                    lemma_remove_deep_view(prev, self.todos, i as int);
                    lemma_todos_remove_wf(old(self)@.todos, old(self)@.next_todo_id, i as int);
                    assert(self@ =~= with_todos(
                        old(self)@,
                        removed_todo(old(self)@.todos, id as int),
                        old(self)@.next_todo_id,
                    ));
                }
            },
            None => {
                proof {
                    assert(self@ =~= with_todos(
                        old(self)@,
                        removed_todo(old(self)@.todos, id as int),
                        old(self)@.next_todo_id,
                    ));
                }
            },
        }
    }

    /// The position of the task row with this id, if any.
    fn find_task(&self, id: i64) -> (r: Option<usize>)
        requires
            self.wf(),
        ensures
            match r {
                Some(i) => {
                    &&& has_task(self@.tasks, id as int)
                    &&& task_index(self@.tasks, id as int) == i as int
                    &&& 0 <= (i as int) < self@.tasks.len()
                    &&& self@.tasks[i as int].id == id as int
                },
                None => !has_task(self@.tasks, id as int),
            },
    {
        let n = self.tasks.len();
        let mut i: usize = 0;
        while i < n
            invariant
                n == self.tasks.len(),
                i <= n,
                self.wf(),
                forall|j: int| 0 <= j < i ==> (#[trigger] self@.tasks[j].id) != id as int,
            decreases n - i,
        {
            if self.tasks[i].id == id {
                proof {
                    let s = self@.tasks;
                    assert(s[i as int].id == id as int);
                    assert(has_task(s, id as int));
                    let k = task_index(s, id as int);
                    assert(0 <= k < s.len() && s[k].id == id as int);
                    assert(k == i as int);
                }
                return Some(i);
            }
            i += 1;
        }
        None
    }

    /// `selectById` for tasks: the row with this id, without its linked
    /// todos, or `NotFound`.
    pub fn select_task(&self, id: i64) -> (r: Result<TaskRow, ApiError>)
        requires
            self.wf(),
        ensures
            r is Ok <==> has_task(self@.tasks, id as int),
            match r {
                Ok(t) => t@ == task_at(self@.tasks, id as int),
                Err(e) => e == ApiError::NotFound,
            },
    {
        match self.find_task(id) {
            Some(i) => Ok(copy_task(&self.tasks[i])),
            None => Err(ApiError::NotFound),
        }
    }

    /// `selectHeaders` for tasks: the id and name of every task, in
    /// table order.
    pub fn select_task_headers(&self) -> (r: Vec<TaskHeader>)
        ensures
            r.deep_view() == headers_of(self@.tasks),
    {
        let n = self.tasks.len();
        let mut out: Vec<TaskHeader> = Vec::new();
        let mut i: usize = 0;
        while i < n
            invariant
                n == self.tasks.len(),
                i <= n,
                out.deep_view() =~= headers_of(self@.tasks.take(i as int)),
            decreases n - i,
        {
            let h = TaskHeader { id: self.tasks[i].id, name: self.tasks[i].name.clone() };
            let ghost prev = out;
            let ghost hv = h;
            out.push(h);
            proof {
                lemma_push_deep_view(prev, out, hv);
                assert(self@.tasks.take(i + 1) =~= self@.tasks.take(i as int).push(
                    self@.tasks[i as int],
                ));
                assert(out.deep_view() =~= headers_of(self@.tasks.take(i + 1)));
            }
            i += 1;
        }
        proof {
            assert(self@.tasks.take(n as int) =~= self@.tasks);
        }
        out
    }

    /// `insert` for tasks: appends a row with the supplied fields and
    /// the given creation stamp, under the next generated id, and
    /// returns that id. Fails only when the id space is exhausted.
    pub fn insert_task(
        &mut self,
        name: String,
        description: String,
        due: i64,
        done: bool,
        created: i64,
    ) -> (r: Result<i64, ApiError>)
        requires
            old(self).wf(),
        ensures
            final(self).wf(),
            r is Ok <==> old(self)@.next_task_id < i64::MAX,
            match r {
                Ok(id) => {
                    &&& id == old(self)@.next_task_id
                    &&& final(self)@ == with_tasks(
                        old(self)@,
                        old(self)@.tasks.push(
                            task_view(id as int, name@, description@, created as int, due as int, done),
                        ),
                        old(self)@.next_task_id + 1,
                    )
                },
                Err(e) => e == ApiError::StoreError && *final(self) == *old(self),
            },
    {
        if self.next_task_id == i64::MAX {
            return Err(ApiError::StoreError);
        }
        let id = self.next_task_id;
        let row = TaskRow { id, name, description, created, due, done };
        let ghost prev = self.tasks;
        let ghost rowv = row;
        self.tasks.push(row);
        self.next_task_id = id + 1;
        proof {
            lemma_push_deep_view(prev, self.tasks, rowv);
            lemma_tasks_push_wf(old(self)@.tasks, old(self)@.next_task_id, rowv@);
            assert(self@ =~= with_tasks(
                old(self)@,
                old(self)@.tasks.push(
                    task_view(
                        id as int,
                        rowv.name@,
                        rowv.description@,
                        created as int,
                        due as int,
                        done,
                    ),
                ),
                old(self)@.next_task_id + 1,
            ));
        }
        Ok(id)
    }

    /// `updatePartial` for tasks: reads the stored row, then overwrites
    /// it with each supplied field, keeping the stored value of each
    /// absent one; the creation stamp never changes. `NotFound` when no
    /// row has the id.
    pub fn update_task_partial(&mut self, id: i64, patch: &UpdateTask) -> (r: Result<
        (),
        ApiError,
    >)
        requires
            old(self).wf(),
        ensures
            final(self).wf(),
            r is Ok <==> has_task(old(self)@.tasks, id as int),
            match r {
                Ok(_) => final(self)@ == with_tasks(
                    old(self)@,
                    patched_tasks(old(self)@.tasks, id as int, patch@),
                    old(self)@.next_task_id,
                ),
                Err(e) => e == ApiError::NotFound && *final(self) == *old(self),
            },
    {
        match self.find_task(id) {
            Some(i) => {
                let stored = copy_task(&self.tasks[i]);
                let new_name = match &patch.name {
                    Some(n) => n.clone(),
                    None => stored.name,
                };
                let new_description = match &patch.description {
                    Some(d) => d.clone(),
                    None => stored.description,
                };
                let new_due = match &patch.due {
                    Some(d) => *d,
                    None => stored.due,
                };
                let new_done = match &patch.done {
                    Some(d) => *d,
                    None => stored.done,
                };
                let row = TaskRow {
                    id: stored.id,
                    name: new_name,
                    description: new_description,
                    created: stored.created,
                    due: new_due,
                    done: new_done,
                };
                let ghost prev = self.tasks;
                let ghost rowv = row;
                self.tasks[i] = row;
                proof {
                    lemma_update_deep_view(prev, self.tasks, i as int, rowv);
                    lemma_tasks_update_wf(old(self)@.tasks, old(self)@.next_task_id, i as int, rowv@);
                    assert(self@ =~= with_tasks(
                        old(self)@,
                        patched_tasks(old(self)@.tasks, id as int, patch@),
                        old(self)@.next_task_id,
                    ));
                }
                Ok(())
            },
            None => Err(ApiError::NotFound),
        }
    }

    /// `delete` for tasks: removes the row with this id; an absent id
    /// affects zero rows and is still success. The link table is left
    /// untouched, so link rows of a deleted task stay behind as orphans —
    /// the join skips them, since it only returns rows present in the
    /// todo table.
    pub fn delete_task(&mut self, id: i64)
        requires
            old(self).wf(),
        ensures
            final(self).wf(),
            final(self)@ == with_tasks(
                old(self)@,
                removed_task(old(self)@.tasks, id as int),
                old(self)@.next_task_id,
            ),
    {
        match self.find_task(id) {
            Some(i) => {
                let ghost prev = self.tasks;
                self.tasks.remove(i);
                proof {
                    lemma_remove_deep_view(prev, self.tasks, i as int);
                    lemma_tasks_remove_wf(old(self)@.tasks, old(self)@.next_task_id, i as int);
                    assert(self@ =~= with_tasks(
                        old(self)@,
                        removed_task(old(self)@.tasks, id as int),
                        old(self)@.next_task_id,
                    ));
                }
            },
            None => {
                proof {
                    assert(self@ =~= with_tasks(
                        old(self)@,
                        removed_task(old(self)@.tasks, id as int),
                        old(self)@.next_task_id,
                    ));
                }
            },
        }
    }

    /// The position of this link pair, if present.
    fn find_link(&self, task_id: i64, todo_id: i64) -> (r: Option<usize>)
        requires
            self.wf(),
        ensures
            match r {
                Some(i) => {
                    &&& has_link(self@.links, task_id as int, todo_id as int)
                    &&& 0 <= (i as int) < self@.links.len()
                    &&& self@.links[i as int] == link_view(task_id as int, todo_id as int)
                },
                None => !has_link(self@.links, task_id as int, todo_id as int),
            },
    {
        let n = self.links.len();
        let mut i: usize = 0;
        while i < n
            invariant
                n == self.links.len(),
                i <= n,
                self.wf(),
                forall|j: int|
                    0 <= j < i ==> (#[trigger] self@.links[j]) != link_view(
                        task_id as int,
                        todo_id as int,
                    ),
            decreases n - i,
        {
            if self.links[i].task_id == task_id && self.links[i].todo_id == todo_id {
                proof {
                    assert(self@.links[i as int] == link_view(task_id as int, todo_id as int));
                }
                return Some(i);
            }
            i += 1;
        }
        None
    }

    /// `addTodoLink`: records membership of a todo in a task, validating
    /// neither id. Inserting a pair that is already present breaks the
    /// composite primary key and fails as a store error.
    pub fn add_todo_link(&mut self, task_id: i64, todo_id: i64) -> (r: Result<(), ApiError>)
        requires
            old(self).wf(),
        ensures
            final(self).wf(),
            r is Ok <==> !has_link(old(self)@.links, task_id as int, todo_id as int),
            match r {
                Ok(_) => final(self)@ == with_links(
                    old(self)@,
                    old(self)@.links.push(link_view(task_id as int, todo_id as int)),
                ),
                Err(e) => e == ApiError::StoreError && *final(self) == *old(self),
            },
    {
        match self.find_link(task_id, todo_id) {
            Some(_) => Err(ApiError::StoreError),
            None => {
                let l = TaskTodoLink { task_id, todo_id };
                let ghost prev = self.links;
                self.links.push(l);
                proof {
                    lemma_push_deep_view(prev, self.links, l);
                    lemma_links_push_wf(old(self)@.links, l@);
                    assert(self@ =~= with_links(
                        old(self)@,
                        old(self)@.links.push(link_view(task_id as int, todo_id as int)),
                    ));
                }
                Ok(())
            },
        }
    }

    /// `removeTodoLink`: removes membership of a todo in a task;
    /// removing an absent pair affects zero rows and is still success.
    pub fn remove_todo_link(&mut self, task_id: i64, todo_id: i64)
        requires
            old(self).wf(),
        ensures
            final(self).wf(),
            final(self)@ == with_links(
                old(self)@,
                removed_link(old(self)@.links, task_id as int, todo_id as int),
            ),
    {
        match self.find_link(task_id, todo_id) {
            Some(i) => {
                let ghost prev = self.links;
                self.links.remove(i);
                proof {
                    lemma_remove_deep_view(prev, self.links, i as int);
                    lemma_links_remove_wf(old(self)@.links, i as int);
                    let s = old(self)@.links;
                    let tid = task_id as int;
                    let oid = todo_id as int;
                    let k = crate::types::link::link_index(s, tid, oid);
                    assert(0 <= k < s.len() && s[k] == link_view(tid, oid));
                    assert(s[i as int] == link_view(tid, oid));
                    assert(k == i as int);
                    assert(self@ =~= with_links(old(self)@, removed_link(s, tid, oid)));
                }
            },
            None => {
                proof {
                    assert(self@ =~= with_links(
                        old(self)@,
                        removed_link(old(self)@.links, task_id as int, todo_id as int),
                    ));
                }
            },
        }
    }

    /// `selectLinkedTodos`: the inner join of the todo table with the
    /// link table on a task id — the todo rows whose id the task is
    /// linked to, in todo-table order. Orphaned link rows match nothing
    /// and are skipped.
    pub fn select_linked_todos(&self, task_id: i64) -> (r: Vec<TodoItem>)
        requires
            self.wf(),
        ensures
            r.deep_view() == linked_todos(self@.todos, self@.links, task_id as int),
    {
        let n = self.todos.len();
        let mut out: Vec<TodoItem> = Vec::new();
        let mut i: usize = 0;
        while i < n
            invariant
                n == self.todos.len(),
                i <= n,
                self.wf(),
                out.deep_view() =~= linked_todos(
                    self@.todos.take(i as int),
                    self@.links,
                    task_id as int,
                ),
            decreases n - i,
        {
            let keep = match self.find_link(task_id, self.todos[i].id) {
                Some(_) => true,
                None => false,
            };
            proof {
                assert(keep == has_link(self@.links, task_id as int, self@.todos[i as int].id));
            }
            if keep {
                let t = copy_todo(&self.todos[i]);
                let ghost prev = out;
                let ghost tv = t;
                out.push(t);
                proof {
                    lemma_push_deep_view(prev, out, tv);
                }
            }
            proof {
                reveal(Seq::filter);
                let s = self@.todos;
                assert(s.take(i + 1).drop_last() =~= s.take(i as int));
                assert(s.take(i + 1).last() == s[i as int]);
                assert(out.deep_view() =~= linked_todos(s.take(i + 1), self@.links, task_id as int));
            }
            i += 1;
        }
        proof {
            assert(self@.todos.take(n as int) =~= self@.todos);
        }
        out
    }

    /// `insert` for users: appends a row under the next generated id and
    /// returns the stored row. Fails only when the id space is
    /// exhausted.
    pub fn insert_user(&mut self, username: String) -> (r: Result<User, ApiError>)
        requires
            old(self).wf(),
        ensures
            final(self).wf(),
            r is Ok <==> old(self)@.next_user_id < i64::MAX,
            match r {
                Ok(u) => {
                    &&& u@ == user_view(old(self)@.next_user_id, username@)
                    &&& final(self)@ == with_users(
                        old(self)@,
                        old(self)@.users.push(user_view(old(self)@.next_user_id, username@)),
                        old(self)@.next_user_id + 1,
                    )
                },
                Err(e) => e == ApiError::StoreError && *final(self) == *old(self),
            },
    {
        if self.next_user_id == i64::MAX {
            return Err(ApiError::StoreError);
        }
        let id = self.next_user_id;
        let row = User { id, username };
        let result = User { id: row.id, username: row.username.clone() };
        let ghost prev = self.users;
        let ghost rowv = row;
        self.users.push(row);
        self.next_user_id = id + 1;
        proof {
            lemma_push_deep_view(prev, self.users, rowv);
            lemma_users_push_wf(old(self)@.users, old(self)@.next_user_id, rowv@);
            assert(self@ =~= with_users(
                old(self)@,
                old(self)@.users.push(user_view(id as int, rowv.username@)),
                old(self)@.next_user_id + 1,
            ));
        }
        Ok(result)
    }
}

} // verus!
