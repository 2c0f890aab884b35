//! A modal text-input editing engine: a character-addressed buffer with
//! Normal/Insert/Replace modes, a pending-operation slot, and a snapshot
//! history for undo/redo, together with the popup configuration values that
//! seed an input session.

pub mod cursor;
pub mod history;
pub mod input;
pub mod options;
pub mod position;
pub mod snap;
pub mod template;
