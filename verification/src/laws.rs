//! The library's laws: properties that relate several operations,
//! stated over the store's mathematical model and proved once and for
//! all. The operations' own contracts say what each call does; these
//! proofs say what the combinations amount to.

use crate::types::link::{has_link, linked_todos, LinkView};
use crate::types::todo::{
    done_matches, filtered_todos, flipped_todo, has_todo, lemma_todo_update_lookup, patched_todo,
    patched_todos, todo_at, todo_ids_increasing, todo_index, todos_wf, toggled_todos, TodoView,
};
use vstd::prelude::*;

verus! {

/// Membership in a filtered sequence: exactly the original members that
/// pass the predicate.
proof fn lemma_filter_mem<A>(s: Seq<A>, p: spec_fn(A) -> bool, x: A)
    ensures
        s.filter(p).contains(x) <==> (s.contains(x) && p(x)),
    decreases s.len(),
{
    broadcast use vstd::seq_lib::group_seq_properties;

    reveal(Seq::filter);
    if s.len() != 0 {
        let rest = s.drop_last();
        let last = s.last();
        lemma_filter_mem(rest, p, x);
        assert(rest.push(last) =~= s);
    }
}

/// Law: every creation hands out a fresh id. In a well-formed table the
/// stored ids are pairwise distinct, and the id the next insert assigns
/// is carried by no stored row.
pub proof fn lemma_created_todo_id_fresh(s: Seq<TodoView>, next: int)
    requires
        todos_wf(s, next),
    ensures
        !has_todo(s, next),
        forall|i: int, j: int|
            #![trigger s[i].id, s[j].id]
            0 <= i < j < s.len() ==> s[i].id != s[j].id,
{
    if has_todo(s, next) {
        let k = todo_index(s, next);
        assert(0 <= k < s.len() && s[k].id == next);
        assert(s[k].id < next);
    }
}

/// Law: toggling the same todo twice returns the table to its original
/// value — the second toggle restores the first's row, and no other row
/// is ever touched.
pub proof fn lemma_double_toggle_restores(s: Seq<TodoView>, id: int)
    requires
        todo_ids_increasing(s),
        has_todo(s, id),
    ensures
        toggled_todos(toggled_todos(s, id), id) == s,
{
    let k = todo_index(s, id);
    let t = todo_at(s, id);
    assert(0 <= k < s.len() && s[k].id == id);
    lemma_todo_update_lookup(s, id, flipped_todo(t));
    let s2 = toggled_todos(s, id);
    assert(s2 == s.update(k, flipped_todo(t)));
    assert(todo_index(s2, id) == k && todo_at(s2, id) == flipped_todo(t));
    assert(flipped_todo(flipped_todo(t)) == t);
    assert(toggled_todos(s2, id) == s2.update(k, t));
    assert(s2.update(k, t) =~= s);
}

/// Law: a partial update rewrites exactly the addressed row, and within
/// it exactly the supplied fields — an absent name keeps the stored
/// name, an absent completion flag keeps the stored flag, a supplied
/// field takes its value, and every other row is untouched.
pub proof fn lemma_partial_update_frame(
    s: Seq<TodoView>,
    id: int,
    name: Option<Seq<char>>,
    done: Option<bool>,
)
    requires
        todo_ids_increasing(s),
        has_todo(s, id),
    ensures
        ({
            let s2 = patched_todos(s, id, name, done);
            &&& s2.len() == s.len()
            &&& has_todo(s2, id)
            &&& todo_at(s2, id).id == id
            &&& (name is None ==> todo_at(s2, id).name == todo_at(s, id).name)
            &&& (name matches Some(n) ==> todo_at(s2, id).name == n)
            &&& (done is None ==> todo_at(s2, id).done == todo_at(s, id).done)
            &&& (done matches Some(d) ==> todo_at(s2, id).done == d)
            &&& forall|j: int| 0 <= j < s.len() && (#[trigger] s[j].id) != id ==> s2[j] == s[j]
        }),
{
    assert(s[todo_index(s, id)].id == id);
    lemma_todo_update_lookup(s, id, patched_todo(todo_at(s, id), name, done));
}

/// Law: selecting with a completion value returns exactly the subset of
/// rows carrying that value, and selecting without a filter returns the
/// whole table.
pub proof fn lemma_filtered_selection_exact(s: Seq<TodoView>, done: bool)
    ensures
        forall|t: TodoView|
            #[trigger] filtered_todos(s, Some(done)).contains(t) <==> (s.contains(t) && t.done
                == done),
        filtered_todos(s, None) == s,
{
    assert forall|t: TodoView|
        #[trigger] filtered_todos(s, Some(done)).contains(t) <==> (s.contains(t) && t.done
            == done) by {
        lemma_filter_mem(s, |t: TodoView| done_matches(t, Some(done)), t);
    }
    lemma_unfiltered_selection_all(s);
}

/// Law: the selection without a filter is the whole table, row for row.
pub proof fn lemma_unfiltered_selection_all(s: Seq<TodoView>)
    ensures
        filtered_todos(s, None) == s,
    decreases s.len(),
{
    reveal(Seq::filter);
    if s.len() == 0 {
        assert(filtered_todos(s, None) =~= s);
    } else {
        lemma_unfiltered_selection_all(s.drop_last());
        assert(filtered_todos(s, None) =~= s);
    }
}

/// Law: the todos composed into a task are exactly the stored todo rows
/// whose id the task is linked to — no others appear, and link rows
/// whose todo was deleted contribute nothing.
pub proof fn lemma_linked_todos_exact(todos: Seq<TodoView>, links: Seq<LinkView>, task_id: int)
    ensures
        forall|t: TodoView|
            #[trigger] linked_todos(todos, links, task_id).contains(t) <==> (todos.contains(t)
                && has_link(links, task_id, t.id)),
{
    assert forall|t: TodoView|
        #[trigger] linked_todos(todos, links, task_id).contains(t) <==> (todos.contains(t)
            && has_link(links, task_id, t.id)) by {
        lemma_filter_mem(todos, |t: TodoView| has_link(links, task_id, t.id), t);
    }
}

} // verus!
