//! A vim-like text editor core: a buffer of lines, a cursor, modes and
//! the editing actions that operate on them.
pub mod index;
pub mod lines;
pub mod mode;
pub mod selection;
pub mod highlight;
pub mod text;
pub mod buffer;
pub mod clipboard;
pub mod undo;
pub mod search;
pub mod walk;
pub mod view;
pub mod spans;
pub mod syntax;
pub mod state;
pub mod actions;
pub mod events;
pub mod properties;
pub mod semantics;
