//! View models: the shapes handed to the rendering layer, distinct from
//! the stored row shapes, and the builders that fill them. Every
//! builder of a mutating flow re-reads the affected row after the write
//! and fills the view from that freshly read state, never from the
//! submitted values — the rendered fragment always reflects store truth.

pub mod tasks;
pub mod todos;
