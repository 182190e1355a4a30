//! A line-oriented terminal text viewer: the document line model, the
//! cursor/viewport navigation engine and the incremental render planner.
//!
//! Everything here is pure state-transition logic over plain values; the
//! terminal itself (raw mode, event polling, drawing) stays with the caller.

use vstd::prelude::*;

pub mod input;
pub mod render;
pub mod text;
pub mod theorems;

verus! {

/// Session-wide facts, refreshed once per event-loop iteration.
#[derive(Debug, Clone, Copy, PartialEq, Eq, Structural)]
pub struct EditorState {
    /// Total number of lines of the loaded document (0 when there is none).
    pub doc_lines: usize,
    /// Cleared by the quit key; the event loop stops once it is false.
    pub running: bool,
    /// Usable viewport height in rows.
    pub rows: usize,
    /// Usable viewport width in columns.
    pub columns: usize,
}

} // verus!
