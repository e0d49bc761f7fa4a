//! A modal text editor core: buffer planes with undo history, a plane-aware
//! cursor with a signed shadow twin, an action resolver that turns user
//! intents into primitive edits, and the bookkeeping of the visible window.

pub mod bars;
pub mod buffer;
pub mod common;
pub mod cursor;
pub mod editor;
pub mod error;
pub mod lines;
pub mod pattern;
pub mod viewport;
