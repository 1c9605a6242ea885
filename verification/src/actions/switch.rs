//! Switching between the editor modes.
use vstd::prelude::*;
use crate::index::Index2;
use crate::mode::EditorMode;
use crate::selection::Selection;
use crate::state::{EditorState, clamped_cursor, clamped_col};
use crate::undo::{push_bounded, MAX_UNDO_STATES};

verus! {

/// The state after switching from `old` into `target`: the cursor is clamped
/// first; normal mode clears the selection, visual mode starts one at the
/// cursor, and entering insert mode from normal or visual mode saves the
/// state for undo. Returning to normal mode from insert mode moves the cursor
/// one column left, onto the last typed character, and clamps it again.
pub open spec fn switch_mode_spec(old: EditorState, new: EditorState, target: EditorMode) -> bool {
    let c1 = clamped_cursor(old);
    let sel = match target {
        EditorMode::Normal => None,
        EditorMode::Visual => Some(Selection { start: c1, end: c1, line_mode: false }),
        _ => old.selection,
    };
    let save = target == EditorMode::Insert && old.mode != EditorMode::Insert && old.mode != EditorMode::Search;
    let c2 = if target == EditorMode::Normal && old.mode == EditorMode::Insert && c1.col > 0 {
        Index2 { col: (c1.col - 1) as usize, ..c1 }
    } else {
        c1
    };
    let c3 = if target == EditorMode::Normal {
        Index2 { col: clamped_col(old.text(), c2, EditorMode::Normal), ..c2 }
    } else {
        c2
    };
    &&& new == (EditorState { mode: target, selection: sel, cursor: c3, undo: new.undo, ..old })
    &&& new.undo.states() == (if save {
        push_bounded(old.undo.states(), (old.text(), c1), MAX_UNDO_STATES as int)
    } else {
        old.undo.states()
    })
}

/// Switches the editor into a mode.
#[derive(Clone, Debug, Copy, PartialEq, Eq, Structural)]
pub struct SwitchMode(pub EditorMode);

impl SwitchMode {
    pub open spec fn effect(self, old: EditorState, new: EditorState) -> bool {
        switch_mode_spec(old, new, self.0)
    }

    pub fn execute(&self, state: &mut EditorState)
        ensures
            self.effect(*old(state), *final(state)),
    {
        let from_insert = state.mode == EditorMode::Insert;
        state.clamp_column();
        match self.0 {
            EditorMode::Normal => {
                state.selection = None;
            },
            EditorMode::Visual => {
                state.selection = Some(Selection::new(state.cursor, state.cursor));
            },
            EditorMode::Insert => {
                if state.mode != EditorMode::Insert && state.mode != EditorMode::Search {
                    state.capture();
                }
            },
            EditorMode::Search => {},
        }
        state.mode = self.0;
        if self.0 == EditorMode::Normal {
            if from_insert && state.cursor.col > 0 {
                state.cursor.col = state.cursor.col - 1;
            }
            state.clamp_column();
        }
    }

    /// Entering insert mode begins a session that the dot command repeats.
    pub fn is_repeatable(&self) -> (b: bool)
        ensures
            b == (self.0 == EditorMode::Insert),
    {
        self.0 == EditorMode::Insert
    }
}

} // verus!
