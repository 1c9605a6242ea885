//! Editing the text in the system's editor.
//!
//! [`OpenSystemEditor`] only records the request; the program that runs the
//! editor takes the request with [`take_request`], hands the text to the
//! system editor and gives the result back with [`apply_edit`].
use vstd::prelude::*;
use crate::index::Index2;
use crate::lines::{rows, joined, text_rows, lines_from_str, lines_to_string};
use crate::state::{EditorState, captured};
use crate::text::{str_chars, string_from_chars};

verus! {

/// Requests opening the text in the system editor.
#[derive(Clone, Debug, Copy, PartialEq, Eq, Structural)]
pub struct OpenSystemEditor;

impl OpenSystemEditor {
    pub open spec fn effect(self, old: EditorState, new: EditorState) -> bool {
        new == (EditorState { system_edit_requested: true, ..old })
    }

    pub fn execute(&self, state: &mut EditorState)
        ensures
            self.effect(*old(state), *final(state)),
    {
        state.system_edit_requested = true;
    }
}

/// Whether a request to open the system editor is pending.
pub fn is_pending(state: &EditorState) -> (b: bool)
    ensures
        b == state.system_edit_requested,
{
    state.system_edit_requested
}

/// Takes a pending request: clears it, saves the state for undo and returns
/// the text to edit. Without a pending request nothing happens.
pub fn take_request(state: &mut EditorState) -> (text: Option<String>)
    ensures
        !old(state).system_edit_requested ==> *final(state) == *old(state) && text is None,
        old(state).system_edit_requested ==> {
            &&& *final(state) == (EditorState { system_edit_requested: false, undo: final(state).undo, ..*old(state) })
            &&& final(state).undo.states() == captured(*old(state))
            &&& text matches Some(t) && t@ == joined(old(state).text())
        },
{
    if !state.system_edit_requested {
        return None;
    }
    state.system_edit_requested = false;
    state.capture();
    Some(lines_to_string(&state.lines))
}

/// The text without its trailing line breaks.
pub open spec fn trim_newlines(s: Seq<char>) -> Seq<char>
    decreases s.len(),
{
    if s.len() > 0 && s.last() == '\n' { trim_newlines(s.drop_last()) } else { s }
}

/// Replaces the text by what the system editor returned (without trailing
/// line breaks), moves the cursor to the start and clears the selection.
pub fn apply_edit(state: &mut EditorState, edited: &str)
    ensures
        *final(state) == (EditorState {
            lines: final(state).lines,
            cursor: Index2 { row: 0, col: 0 },
            selection: None,
            ..*old(state)
        }),
        rows(final(state).lines) == text_rows(trim_newlines(edited@)),
{
    let chars = str_chars(edited);
    let mut end = chars.len();
    assert(chars@.take(end as int) =~= chars@);
    while end > 0 && chars[end - 1] == '\n'
        invariant
            end <= chars@.len(),
            chars@ == edited@,
            trim_newlines(chars@.take(end as int)) == trim_newlines(edited@),
        decreases end,
    {
        proof {
            assert(chars@.take(end as int).drop_last() =~= chars@.take(end - 1));
        }
        end = end - 1;
    }
    let mut kept: Vec<char> = Vec::new();
    crate::buffer::extend_from_range(&mut kept, &chars, 0, end);
    let trimmed = string_from_chars(kept.as_slice());
    proof {
        assert(trimmed@ =~= chars@.take(end as int));
        if end > 0 {
            assert(chars@.take(end as int).last() != '\n');
        }
        assert(trim_newlines(chars@.take(end as int)) == chars@.take(end as int));
    }
    state.lines = lines_from_str(trimmed.as_str());
    state.cursor = Index2::new(0, 0);
    state.selection = None;
}

} // verus!
