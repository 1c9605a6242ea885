//! Searching: typing a pattern and jumping between its matches.
use vstd::prelude::*;
use crate::index::Index2;
use crate::lines::{rows, pattern_positions};
use crate::mode::EditorMode;
use crate::search::{SearchState, first_spec, next_spec, previous_spec};
use crate::state::EditorState;

verus! {

/// `new` is `old` with the search holding `pattern` and `matches`, the
/// start and the selected match unchanged.
pub open spec fn search_now(old: SearchState, new: SearchState, pattern: Seq<char>, matches: Seq<Index2>) -> bool {
    &&& new.pattern@ == pattern
    &&& new.matches@ == matches
    &&& new.start_cursor == old.start_cursor
    &&& new.selected_index == old.selected_index
}

/// Appends a character to the search pattern and searches again.
#[derive(Clone, Debug, Copy, PartialEq, Eq, Structural)]
pub struct AppendToSearch(pub char);

impl AppendToSearch {
    pub open spec fn effect(self, old: EditorState, new: EditorState) -> bool {
        let p = old.search.pattern@.push(self.0);
        &&& new == (EditorState { search: new.search, ..old })
        &&& search_now(old.search, new.search, p, pattern_positions(old.text(), p))
    }

    pub fn execute(&self, state: &mut EditorState)
        ensures
            self.effect(*old(state), *final(state)),
    {
        state.search.push_char(self.0);
        state.search.trigger_search(&state.lines);
    }
}

/// Removes the last character from the search pattern and searches again.
#[derive(Clone, Debug, Copy, PartialEq, Eq, Structural)]
pub struct DeleteFromSearch;

impl DeleteFromSearch {
    pub open spec fn effect(self, old: EditorState, new: EditorState) -> bool {
        let p = if old.search.pattern@.len() > 0 { old.search.pattern@.drop_last() } else { old.search.pattern@ };
        &&& new == (EditorState { search: new.search, ..old })
        &&& search_now(old.search, new.search, p, pattern_positions(old.text(), p))
    }

    pub fn execute(&self, state: &mut EditorState)
        ensures
            self.effect(*old(state), *final(state)),
    {
        state.search.remove_char();
        state.search.trigger_search(&state.lines);
    }
}

/// The state after selecting a match: normal mode, the search's selected
/// index updated, and the cursor on the match if there is one.
pub open spec fn jump_effect(old: EditorState, new: EditorState, step: (Option<usize>, Option<Index2>)) -> bool {
    new == (EditorState {
        mode: EditorMode::Normal,
        search: SearchState { selected_index: step.0, ..old.search },
        cursor: match step.1 {
            Some(p) => p,
            None => old.cursor,
        },
        ..old
    })
}

/// Jumps to the first match at or after where the search started, and
/// switches to normal mode.
#[derive(Clone, Debug, Copy, PartialEq, Eq, Structural)]
pub struct FindFirst;

impl FindFirst {
    pub open spec fn effect(self, old: EditorState, new: EditorState) -> bool {
        jump_effect(old, new, first_spec(old.search))
    }

    pub fn execute(&self, state: &mut EditorState)
        ensures
            self.effect(*old(state), *final(state)),
    {
        state.mode = EditorMode::Normal;
        if let Some(index) = state.search.first() {
            state.cursor = index;
        }
    }
}

/// Jumps to the next match and switches to normal mode.
#[derive(Clone, Debug, Copy, PartialEq, Eq, Structural)]
pub struct FindNext;

impl FindNext {
    pub open spec fn effect(self, old: EditorState, new: EditorState) -> bool {
        jump_effect(old, new, next_spec(old.search))
    }

    pub fn execute(&self, state: &mut EditorState)
        ensures
            self.effect(*old(state), *final(state)),
    {
        state.mode = EditorMode::Normal;
        if let Some(index) = state.search.next() {
            state.cursor = index;
        }
    }
}

/// Jumps to the previous match and switches to normal mode.
#[derive(Clone, Debug, Copy, PartialEq, Eq, Structural)]
pub struct FindPrevious;

impl FindPrevious {
    pub open spec fn effect(self, old: EditorState, new: EditorState) -> bool {
        jump_effect(old, new, previous_spec(old.search))
    }

    pub fn execute(&self, state: &mut EditorState)
        ensures
            self.effect(*old(state), *final(state)),
    {
        state.mode = EditorMode::Normal;
        if let Some(index) = state.search.previous() {
            state.cursor = index;
        }
    }
}

/// Clears the search and switches to normal mode.
#[derive(Clone, Debug, Copy, PartialEq, Eq, Structural)]
pub struct ClearSearch;

impl ClearSearch {
    pub open spec fn effect(self, old: EditorState, new: EditorState) -> bool {
        &&& new == (EditorState { mode: EditorMode::Normal, search: new.search, ..old })
        &&& search_now(old.search, new.search, Seq::empty(), Seq::empty())
    }

    pub fn execute(&self, state: &mut EditorState)
        ensures
            self.effect(*old(state), *final(state)),
    {
        state.mode = EditorMode::Normal;
        state.search.clear();
    }
}

/// Clears the search; the mode stays.
#[derive(Clone, Debug, Copy, PartialEq, Eq, Structural)]
pub struct StopSearch;

impl StopSearch {
    pub open spec fn effect(self, old: EditorState, new: EditorState) -> bool {
        &&& new == (EditorState { search: new.search, ..old })
        &&& search_now(old.search, new.search, Seq::empty(), Seq::empty())
    }

    pub fn execute(&self, state: &mut EditorState)
        ensures
            self.effect(*old(state), *final(state)),
    {
        state.search.clear();
    }
}

/// Starts a new search from the cursor.
#[derive(Clone, Debug, Copy, PartialEq, Eq, Structural)]
pub struct StartSearch;

impl StartSearch {
    pub open spec fn effect(self, old: EditorState, new: EditorState) -> bool {
        &&& new == (EditorState { search: new.search, ..old })
        &&& new.search.pattern@ == Seq::<char>::empty()
        &&& new.search.matches@ == Seq::<Index2>::empty()
        &&& new.search.start_cursor == old.cursor
        &&& new.search.selected_index == old.search.selected_index
    }

    pub fn execute(&self, state: &mut EditorState)
        ensures
            self.effect(*old(state), *final(state)),
    {
        state.search.start(state.cursor);
    }
}

/// Selects the selected match of the search, if there is one.
#[derive(Clone, Debug, Copy, PartialEq, Eq, Structural)]
pub struct SelectCurrentSearch;

impl SelectCurrentSearch {
    pub open spec fn effect(self, old: EditorState, new: EditorState) -> bool {
        match old.search.selected_match_spec() {
            None => new == old,
            Some(sel) => new == (EditorState { selection: Some(sel), ..old }),
        }
    }

    pub fn execute(&self, state: &mut EditorState)
        ensures
            self.effect(*old(state), *final(state)),
    {
        if let Some(sel) = state.search.selected_match() {
            state.selection = Some(sel);
        }
    }
}

} // verus!
