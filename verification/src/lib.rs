//! A small todo-list library: the item model, its one-line rendering,
//! the rules an interactive session follows, and the helpers that
//! persistence builds on.

pub mod clock;
pub mod form;
pub mod laws;
pub mod ident;
pub mod model;
pub mod render;
pub mod session;
pub mod store;
pub mod style;
pub mod text;
pub mod usage_laws;

pub use model::{Priority, Status, TodoItem, TodoList};
