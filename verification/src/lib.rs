//! A keyboard-driven todo manager, as a verified state machine.
//!
//! The crate holds the logic of the interactive session: text editing in the
//! input overlay, list selection with wraparound, the task and workspace
//! stores, and the controller that routes each key press. Drawing and file
//! access are left to the host program, which feeds keys in and carries the
//! requested effects out.

pub mod app;
mod clock;
pub mod entities;
pub mod keys;
pub mod modal;
pub mod persistence;
pub mod render;
pub mod selectable_list;
pub mod task_store;
pub mod text_editor;
pub mod workspace_store;
