//! The decision logic of a terminal memory scanner: the application state,
//! the key-event state machine, list selection, and the layout of the
//! memory-view window.

pub mod app;
pub mod keys;
pub mod laws;
pub mod list;
pub mod mem_view;
pub mod text;
