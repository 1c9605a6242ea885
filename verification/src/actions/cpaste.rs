//! Copying to and pasting from the clipboard.
use vstd::prelude::*;
use crate::actions::delete::delete_selection;
use crate::buffer::{
    insert_str, insert_chars_spec, append_str, append_chars_spec, last_byte,
};
use crate::clipboard::Clipboard;
use crate::index::Index2;
use crate::lines::{rows, num_rows, get_row, insert_row, lines_into_string, joined};
use crate::mode::EditorMode;
use crate::selection::Selection;
use crate::state::{EditorState, edit_result, clamped_cursor, clamped_col};
use crate::text::{single_line_text, to_single_line, string_from_chars, str_chars};

verus! {

/// The rows and the cursor after pasting `s` at the (clamped) cursor `c`.
/// In single-line mode line breaks become spaces. Text that starts with a
/// line break is line-wise: it goes onto a new row below the cursor (above
/// it with `before`). Otherwise the text goes after the character under the
/// cursor (in front of it with `before`). Nothing is pasted where the cursor
/// lies beyond the row after the last one.
pub open spec fn paste_rows(
    r: Seq<Seq<char>>,
    c: Index2,
    mode: EditorMode,
    single_line: bool,
    s: Seq<char>,
    before: bool,
) -> (Seq<Seq<char>>, Index2) {
    if c.row > r.len() {
        (r, c)
    } else if single_line {
        let t = single_line_text(s);
        if before { insert_chars_spec(r, c, t, 0, last_byte(t)) } else { append_chars_spec(r, c, t) }
    } else if s.len() > 0 && s[0] == '\n' {
        let max_row = if mode == EditorMode::Insert { r.len() as int } else if r.len() > 0 { r.len() - 1 } else { 0 };
        let row = if before { c.row as int } else if c.row + 1 <= max_row { c.row + 1 } else { max_row };
        append_chars_spec(r.insert(row, Seq::empty()), Index2 { row: row as usize, col: 0 }, s.skip(1))
    } else if before {
        insert_chars_spec(r, c, s, 0, last_byte(s))
    } else {
        append_chars_spec(r, c, s)
    }
}

/// The effect of pasting the text `got` that the clipboard handed back
/// (`clip` being the clipboard after the read): nothing for empty text;
/// otherwise the state is saved for undo, the cursor clamped and the text
/// pasted.
pub open spec fn paste_text_effect(old: EditorState, new: EditorState, clip: Clipboard, got: Seq<char>, before: bool) -> bool {
    let s1 = EditorState { clip, ..old };
    if got.len() == 0 {
        new == s1
    } else {
        let res = paste_rows(old.text(), clamped_cursor(old), old.mode, old.view.single_line, got, before);
        edit_result(s1, new, res.0, res.1, true, None)
    }
}

/// Pastes a text at the cursor.
pub fn paste_text(state: &mut EditorState, s: String, before: bool)
    ensures
        paste_text_effect(*old(state), *final(state), old(state).clip, s@, before),
{
    let chars = str_chars(s.as_str());
    if chars.len() == 0 {
        return;
    }
    state.capture();
    state.clamp_column();
    let n = num_rows(&state.lines);
    if state.cursor.row > n {
        return;
    }
    if state.view.single_line {
        let t = to_single_line(&s);
        if before {
            insert_str(&mut state.lines, &mut state.cursor, t.as_str());
        } else {
            append_str(&mut state.lines, &mut state.cursor, t.as_str());
        }
        return;
    }
    if chars.len() > 0 && chars[0] == '\n' {
        let max_row = if state.mode == EditorMode::Insert { n } else if n > 0 { n - 1 } else { 0 };
        let row = if before {
            state.cursor.row
        } else if state.cursor.row < max_row {
            state.cursor.row + 1
        } else {
            max_row
        };
        state.cursor = Index2::new(row, 0);
        insert_row(&mut state.lines, row, Vec::new());
        let mut rest: Vec<char> = Vec::new();
        crate::buffer::extend_from_range(&mut rest, &chars, 1, chars.len());
        let stripped = string_from_chars(rest.as_slice());
        append_str(&mut state.lines, &mut state.cursor, stripped.as_str());
    } else if before {
        insert_str(&mut state.lines, &mut state.cursor, s.as_str());
    } else {
        append_str(&mut state.lines, &mut state.cursor, s.as_str());
    }
}

/// The effect of pasting what the clipboard hands back.
pub open spec fn paste_effect(old: EditorState, new: EditorState, before: bool) -> bool {
    exists|clip: Clipboard, got: Seq<char>| {
        &&& #[trigger] clip.after_get(old.clip, got)
        &&& paste_text_effect(old, new, clip, got, before)
    }
}

fn paste(state: &mut EditorState, before: bool)
    ensures
        paste_effect(*old(state), *final(state), before),
{
    let s = state.clip.get_text();
    let ghost clip = state.clip;
    paste_text(state, s, before);
    assert(clip.after_get(old(state).clip, s@));
}

/// Pastes the clipboard after the cursor, or on a new row below it for
/// line-wise text (Vim `p`).
#[derive(Clone, Debug, Copy, PartialEq, Eq, Structural)]
pub struct Paste;

impl Paste {
    pub open spec fn effect(self, old: EditorState, new: EditorState) -> bool {
        paste_effect(old, new, false)
    }

    pub fn execute(&self, state: &mut EditorState)
        ensures
            self.effect(*old(state), *final(state)),
    {
        paste(state, false);
    }

    pub fn is_repeatable(&self) -> (b: bool)
        ensures
            b,
    {
        true
    }
}

/// Pastes the clipboard in front of the cursor, or on a new row above it for
/// line-wise text (Vim `P`).
#[derive(Clone, Debug, Copy, PartialEq, Eq, Structural)]
pub struct PasteBefore;

impl PasteBefore {
    pub open spec fn effect(self, old: EditorState, new: EditorState) -> bool {
        paste_effect(old, new, true)
    }

    pub fn execute(&self, state: &mut EditorState)
        ensures
            self.effect(*old(state), *final(state)),
    {
        paste(state, true);
    }

    pub fn is_repeatable(&self) -> (b: bool)
        ensures
            b,
    {
        true
    }
}

/// The effect of pasting `got` over the selection `sel`: the selection is
/// cleared, the state saved for undo, the selected text removed (the cursor
/// moving to its start, clamped) and the text inserted there, with line
/// breaks as spaces in single-line mode. Nothing is inserted where the
/// cursor lies beyond the row after the last one.
pub open spec fn paste_over_effect(old: EditorState, new: EditorState, sel: Selection, clip: Clipboard, got: Seq<char>) -> bool {
    let ex = sel.extracted_from(old.text());
    let c = Index2 { col: clamped_col(old.text(), sel.first(), old.mode), ..sel.first() };
    let t = if old.view.single_line { single_line_text(got) } else { got };
    let res = if c.row > ex.0.len() { (ex.0, c) } else { insert_chars_spec(ex.0, c, t, 0, last_byte(t)) };
    edit_result(EditorState { selection: None, clip, ..old }, new, res.0, res.1, true, None)
}

/// Replaces the selection by the clipboard's text.
#[derive(Clone, Debug, Copy, PartialEq, Eq, Structural)]
pub struct PasteOverSelection;

impl PasteOverSelection {
    pub open spec fn effect(self, old: EditorState, new: EditorState) -> bool {
        match old.selection {
            None => new == old,
            Some(sel) => exists|clip: Clipboard, got: Seq<char>| {
                &&& #[trigger] clip.after_get(old.clip, got)
                &&& paste_over_effect(old, new, sel, clip, got)
            },
        }
    }

    pub fn execute(&self, state: &mut EditorState)
        ensures
            self.effect(*old(state), *final(state)),
    {
        let taken = state.selection;
        state.selection = None;
        if let Some(sel) = taken {
            state.capture();
            state.clamp_column();
            let _ = delete_selection(state, &sel);
            let got = state.clip.get_text();
            let ghost clip = state.clip;
            let text = if state.view.single_line { to_single_line(&got) } else { got };
            if state.cursor.row <= num_rows(&state.lines) {
                insert_str(&mut state.lines, &mut state.cursor, text.as_str());
            }
            assert(clip.after_get(old(state).clip, got@));
        }
    }

    pub fn is_repeatable(&self) -> (b: bool)
        ensures
            b,
    {
        true
    }
}

/// Copies the selection to the clipboard and clears the selection.
#[derive(Clone, Debug, Copy, PartialEq, Eq, Structural)]
pub struct CopySelection;

impl CopySelection {
    /// A line-wise copy starts with a line break.
    pub open spec fn effect(self, old: EditorState, new: EditorState) -> bool {
        match old.selection {
            None => new == old,
            Some(sel) => {
                &&& new == (EditorState { selection: None, clip: new.clip, ..old })
                &&& new.clip.after_set(old.clip, joined(sel.copied_from(old.text())))
            },
        }
    }

    pub fn execute(&self, state: &mut EditorState)
        ensures
            self.effect(*old(state), *final(state)),
    {
        if let Some(sel) = state.selection {
            let copied = sel.copy_from(&state.lines);
            state.clip.set_text(lines_into_string(copied));
            state.selection = None;
        }
    }
}

/// Copies the current line, behind a line break, to the clipboard.
#[derive(Clone, Debug, Copy, PartialEq, Eq, Structural)]
pub struct CopyLine;

impl CopyLine {
    pub open spec fn effect(self, old: EditorState, new: EditorState) -> bool {
        if old.cursor.row >= old.text().len() {
            new == old
        } else {
            &&& new == (EditorState { clip: new.clip, ..old })
            &&& new.clip.after_set(old.clip, seq!['\n'] + old.text()[old.cursor.row as int])
        }
    }

    pub fn execute(&self, state: &mut EditorState)
        ensures
            self.effect(*old(state), *final(state)),
    {
        if let Some(line) = get_row(&state.lines, state.cursor.row) {
            let mut text: Vec<char> = Vec::new();
            text.push('\n');
            crate::buffer::extend_from_range(&mut text, &line, 0, line.len());
            proof {
                assert(line@.subrange(0, line@.len() as int) =~= line@);
            }
            state.clip.set_text(string_from_chars(text.as_slice()));
        }
    }
}

} // verus!
