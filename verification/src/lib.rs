//! A verified task/todo store: typed rows for todos, tasks and the
//! task-todo link table, with partial updates, filtered selects and the
//! join that composes a task together with its todos.

mod clock;
pub mod config;
pub mod error;
pub mod laws;
pub mod models;
pub mod seed;
pub mod store;
pub mod text;
pub mod types;
pub mod viewmodels;

pub use config::Config;
pub use error::ApiError;
pub use laws::{
    lemma_created_todo_id_fresh, lemma_double_toggle_restores, lemma_filtered_selection_exact,
    lemma_linked_todos_exact, lemma_partial_update_frame, lemma_unfiltered_selection_all,
};
pub use models::todo::TodosFilter;
pub use models::{task, todo};
pub use seed::{create_mock_data, MOCK_TASK_DUE};
pub use store::{Store, StoreView};
pub use types::link::TaskTodoLink;
pub use types::task::{CreateTask, TaskHeader, TaskHeaders, TaskModel, TaskRow, UpdateTask};
pub use types::todo::{CreateTodo, TodoItem, TodoItems, TodoQuery, UpdateTodo, UpdateTodoRaw};
pub use types::user::{CreateUser, User};
pub use viewmodels::{tasks, todos};
