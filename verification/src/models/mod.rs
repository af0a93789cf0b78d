//! The model layer: request-shaped operations over the store, including
//! the three-valued completion filter and the composition of a task
//! with its linked todos.

pub mod task;
pub mod todo;
