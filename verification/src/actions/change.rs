//! Changes: deletions that leave the editor in insert mode (Vim's `c`).
use vstd::prelude::*;
use crate::actions::delete::{
    DeleteWordEnd, DeleteBigWordEnd, word_forward_effect, delete_selection, delete_selection_effect,
    DeleteFindForward, DeleteTillForward, delete_find_effect,
};
use crate::actions::select::{
    Boundary, delete_taken, delete_taken_selection, word_selection, object_selection, SelectInnerBetween,
};
use crate::lines::lines_into_string;
use crate::mode::EditorMode;
use crate::state::EditorState;

verus! {

/// Changes from the cursor to the end of the word (Vim `cw`).
#[derive(Clone, Debug, Copy, PartialEq, Eq, Structural)]
pub struct ChangeWord(pub usize);

impl ChangeWord {
    /// The deletion of [`DeleteWordEnd`], then insert mode.
    pub open spec fn effect(self, old: EditorState, new: EditorState) -> bool {
        exists|mid: EditorState| {
            &&& #[trigger] word_forward_effect(old, mid, false, false, self.0 as nat)
            &&& new == (EditorState { mode: EditorMode::Insert, ..mid })
        }
    }

    pub fn execute(&self, state: &mut EditorState)
        ensures
            self.effect(*old(state), *final(state)),
    {
        DeleteWordEnd(self.0).execute(state);
        let ghost mid = *state;
        state.mode = EditorMode::Insert;
        assert(word_forward_effect(*old(state), mid, false, false, self.0 as nat));
    }

    pub fn is_repeatable(&self) -> (b: bool)
        ensures
            b,
    {
        true
    }
}

/// Changes from the cursor to the end of the WORD (Vim `cW`).
#[derive(Clone, Debug, Copy, PartialEq, Eq, Structural)]
pub struct ChangeBigWord(pub usize);

impl ChangeBigWord {
    /// The deletion of [`DeleteBigWordEnd`], then insert mode.
    pub open spec fn effect(self, old: EditorState, new: EditorState) -> bool {
        exists|mid: EditorState| {
            &&& #[trigger] word_forward_effect(old, mid, true, false, self.0 as nat)
            &&& new == (EditorState { mode: EditorMode::Insert, ..mid })
        }
    }

    pub fn execute(&self, state: &mut EditorState)
        ensures
            self.effect(*old(state), *final(state)),
    {
        DeleteBigWordEnd(self.0).execute(state);
        let ghost mid = *state;
        state.mode = EditorMode::Insert;
        assert(word_forward_effect(*old(state), mid, true, false, self.0 as nat));
    }

    pub fn is_repeatable(&self) -> (b: bool)
        ensures
            b,
    {
        true
    }
}

/// Changes the word under the cursor (`ciw`).
#[derive(Clone, Debug, Copy, PartialEq, Eq, Structural)]
pub struct ChangeInnerWord;

impl ChangeInnerWord {
    pub open spec fn effect(self, old: EditorState, new: EditorState) -> bool {
        delete_taken_selection(EditorState { selection: word_selection(old, false), ..old }, new, EditorMode::Insert)
    }

    pub fn execute(&self, state: &mut EditorState)
        ensures
            self.effect(*old(state), *final(state)),
    {
        crate::actions::select::SelectInnerWord.execute(state);
        delete_taken(state, EditorMode::Insert);
    }

    pub fn is_repeatable(&self) -> (b: bool)
        ensures
            b,
    {
        true
    }
}

/// Changes the WORD under the cursor (`ciW`).
#[derive(Clone, Debug, Copy, PartialEq, Eq, Structural)]
pub struct ChangeInnerBigWord;

impl ChangeInnerBigWord {
    pub open spec fn effect(self, old: EditorState, new: EditorState) -> bool {
        delete_taken_selection(EditorState { selection: word_selection(old, true), ..old }, new, EditorMode::Insert)
    }

    pub fn execute(&self, state: &mut EditorState)
        ensures
            self.effect(*old(state), *final(state)),
    {
        crate::actions::select::SelectInnerBigWord.execute(state);
        delete_taken(state, EditorMode::Insert);
    }

    pub fn is_repeatable(&self) -> (b: bool)
        ensures
            b,
    {
        true
    }
}

/// Changes the text between two delimiters around the cursor
/// (`ci<delim>`).
#[derive(Clone, Debug, Copy, PartialEq, Eq, Structural)]
pub struct ChangeInnerBetween {
    opening: char,
    closing: char,
}

/// The object between two delimiters.
pub closed spec fn change_inner_between(opening: char, closing: char) -> ChangeInnerBetween {
    ChangeInnerBetween { opening, closing }
}

impl ChangeInnerBetween {
    /// The opening delimiter.
    pub closed spec fn opening(self) -> char {
        self.opening
    }

    /// The closing delimiter.
    pub closed spec fn closing(self) -> char {
        self.closing
    }

    pub fn new(opening: char, closing: char) -> (s: Self)
        ensures
            s.opening() == opening,
            s.closing() == closing,
            s == change_inner_between(opening, closing),
    {
        ChangeInnerBetween { opening, closing }
    }

    pub open spec fn effect(self, old: EditorState, new: EditorState) -> bool {
        delete_taken_selection(
            EditorState { selection: object_selection(old, Boundary::Between(self.opening(), self.closing())), ..old },
            new,
            EditorMode::Insert,
        )
    }

    pub fn execute(&self, state: &mut EditorState)
        ensures
            self.effect(*old(state), *final(state)),
    {
        SelectInnerBetween::new(self.opening, self.closing).execute(state);
        delete_taken(state, EditorMode::Insert);
    }

    pub fn is_repeatable(&self) -> (b: bool)
        ensures
            b,
    {
        true
    }
}

/// Deletes the selection into the clipboard; the key bindings pair it with a
/// switch into insert mode.
#[derive(Clone, Debug, Copy, PartialEq, Eq, Structural)]
pub struct ChangeSelection;

impl ChangeSelection {
    pub open spec fn effect(self, old: EditorState, new: EditorState) -> bool {
        delete_selection_effect(old, new)
    }

    pub fn execute(&self, state: &mut EditorState)
        ensures
            self.effect(*old(state), *final(state)),
    {
        let taken = state.selection;
        state.selection = None;
        if let Some(sel) = taken {
            state.capture();
            let ex = delete_selection(state, &sel);
            state.clip.set_text(lines_into_string(ex));
        }
    }

    pub fn is_repeatable(&self) -> (b: bool)
        ensures
            b,
    {
        true
    }
}

/// Changes from the cursor up to and including the next occurrence of a
/// character on the line (Vim `cf<char>`).
#[derive(Clone, Debug, Copy, PartialEq, Eq, Structural)]
pub struct ChangeFindForward(pub Option<char>);

impl ChangeFindForward {
    /// The deletion of [`DeleteFindForward`], then insert mode.
    pub open spec fn effect(self, old: EditorState, new: EditorState) -> bool {
        exists|mid: EditorState| {
            &&& #[trigger] delete_find_effect(self.0, true, old, mid)
            &&& new == (EditorState { mode: EditorMode::Insert, ..mid })
        }
    }

    pub fn execute(&self, state: &mut EditorState)
        ensures
            self.effect(*old(state), *final(state)),
    {
        DeleteFindForward(self.0).execute(state);
        let ghost mid = *state;
        state.mode = EditorMode::Insert;
        assert(delete_find_effect(self.0, true, *old(state), mid));
    }

    pub fn is_repeatable(&self) -> (b: bool)
        ensures
            b,
    {
        true
    }
}

/// Changes from the cursor up to, not including, the next occurrence of a
/// character on the line (Vim `ct<char>`).
#[derive(Clone, Debug, Copy, PartialEq, Eq, Structural)]
pub struct ChangeTillForward(pub Option<char>);

impl ChangeTillForward {
    /// The deletion of [`DeleteTillForward`], then insert mode.
    pub open spec fn effect(self, old: EditorState, new: EditorState) -> bool {
        exists|mid: EditorState| {
            &&& #[trigger] delete_find_effect(self.0, false, old, mid)
            &&& new == (EditorState { mode: EditorMode::Insert, ..mid })
        }
    }

    pub fn execute(&self, state: &mut EditorState)
        ensures
            self.effect(*old(state), *final(state)),
    {
        DeleteTillForward(self.0).execute(state);
        let ghost mid = *state;
        state.mode = EditorMode::Insert;
        assert(delete_find_effect(self.0, false, *old(state), mid));
    }

    pub fn is_repeatable(&self) -> (b: bool)
        ensures
            b,
    {
        true
    }
}

} // verus!
