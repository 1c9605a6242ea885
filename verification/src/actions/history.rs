//! Undo and redo.
use vstd::prelude::*;
use crate::state::{EditorState, undo_result, redo_result};

verus! {

/// Restores the text and cursor saved last.
#[derive(Clone, Debug, Copy, PartialEq, Eq, Structural)]
pub struct Undo;

impl Undo {
    pub open spec fn effect(self, old: EditorState, new: EditorState) -> bool {
        undo_result(old, new)
    }

    pub fn execute(&self, state: &mut EditorState)
        ensures
            self.effect(*old(state), *final(state)),
    {
        state.undo();
    }
}

/// Restores the text and cursor undone last.
#[derive(Clone, Debug, Copy, PartialEq, Eq, Structural)]
pub struct Redo;

impl Redo {
    pub open spec fn effect(self, old: EditorState, new: EditorState) -> bool {
        redo_result(old, new)
    }

    pub fn execute(&self, state: &mut EditorState)
        ensures
            self.effect(*old(state), *final(state)),
    {
        state.redo();
    }
}

} // verus!
