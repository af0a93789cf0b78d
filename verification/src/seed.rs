//! Seed data for a fresh store: a handful of todos, one task, and the
//! links that put the first two todos into it.

use crate::clock::now_unix;
use crate::error::ApiError;
use crate::store::{empty_store, Store};
use crate::types::link::link_view;
use crate::types::todo::todo_view;
use vstd::prelude::*;

verus! {

/// The seeded task's due date, 2024-02-01T00:00:00Z, as Unix seconds.
pub const MOCK_TASK_DUE: i64 = 1706745600;

/// Fills a fresh store with the seed rows: three todos, one task due on
/// the seeded date with its creation stamped from the server clock, and
/// links putting the first two todos into the task.
pub fn create_mock_data(store: &mut Store) -> (r: Result<(), ApiError>)
    requires
        old(store)@ == empty_store(),
    ensures
        r is Ok,
        final(store).wf(),
        final(store)@.todos =~= seq![
            todo_view(1, "Kiss Jana"@, false),
            todo_view(2, "Add One to many from tasks to todos"@, false),
            todo_view(3, "Add one to many from taks to tags"@, false),
        ],
        final(store)@.next_todo_id == 4,
        final(store)@.tasks.len() == 1,
        final(store)@.tasks[0].id == 1,
        final(store)@.tasks[0].name == "Implement all tables"@,
        final(store)@.tasks[0].description
            == "Need to add tables for all data rows, as well as mapping tables"@,
        final(store)@.tasks[0].due == MOCK_TASK_DUE as int,
        final(store)@.tasks[0].done == false,
        final(store)@.next_task_id == 2,
        final(store)@.links =~= seq![link_view(1, 1), link_view(1, 2)],
        final(store)@.users =~= old(store)@.users,
        final(store)@.next_user_id == 1,
{
    let r1 = store.insert_todo("Kiss Jana".to_owned());
    proof {
        assert(r1 is Ok);
    }
    let r2 = store.insert_todo("Add One to many from tasks to todos".to_owned());
    proof {
        assert(r2 is Ok);
    }
    let r3 = store.insert_todo("Add one to many from taks to tags".to_owned());
    proof {
        assert(r3 is Ok);
    }
    let created = now_unix();
    let r4 = store.insert_task(
        "Implement all tables".to_owned(),
        "Need to add tables for all data rows, as well as mapping tables".to_owned(),
        MOCK_TASK_DUE,
        false,
        created,
    );
    proof {
        assert(r4 is Ok);
    }
    let r5 = store.add_todo_link(1, 1);
    proof {
        assert(r5 is Ok);
    }
    let r6 = store.add_todo_link(1, 2);
    proof {
        assert(r6 is Ok);
    }
    Ok(())
}

} // verus!
