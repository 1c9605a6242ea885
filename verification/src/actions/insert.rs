//! Inserting characters and lines.
use vstd::prelude::*;
use crate::actions::switch::{SwitchMode, switch_mode_spec};
use crate::buffer::{insert_char, insert_char_spec, line_break, line_break_rows};
use crate::index::Index2;
use crate::lines::{rows, num_rows, has_no_rows, push_row, insert_row};
use crate::mode::EditorMode;
use crate::state::{EditorState, edit_result};
use crate::text::str_chars;

verus! {

/// Inserts a character at the cursor. A line break is refused in single-line
/// mode, and where the cursor lies beyond the row after the last one.
#[derive(Clone, Debug, Copy, PartialEq, Eq, Structural)]
pub struct InsertChar(pub char);

impl InsertChar {
    pub open spec fn effect(self, old: EditorState, new: EditorState) -> bool {
        if self.0 == '\n' && (old.view.single_line || old.cursor.row > old.text().len()) {
            new == old
        } else {
            let res = insert_char_spec(old.text(), old.cursor, self.0, false);
            edit_result(old, new, res.0, res.1, false, None)
        }
    }

    pub fn execute(&self, state: &mut EditorState)
        ensures
            self.effect(*old(state), *final(state)),
    {
        if self.0 == '\n' && (state.view.single_line || state.cursor.row > num_rows(&state.lines)) {
            return;
        }
        insert_char(&mut state.lines, &mut state.cursor, self.0, false);
    }
}

/// Inserting `n` line breaks at a position, one after the other; stops
/// where the position lies beyond the row after the last one.
pub open spec fn line_breaks(r: Seq<Seq<char>>, c: Index2, n: nat) -> (Seq<Seq<char>>, Index2)
    decreases n,
{
    if n == 0 || c.row > r.len() {
        (r, c)
    } else {
        line_breaks(line_break_rows(r, c), Index2 { row: (c.row + 1) as usize, col: 0 }, (n - 1) as nat)
    }
}

/// Inserts line breaks at the cursor; an empty buffer first gets a row.
/// Refused in single-line mode.
#[derive(Clone, Debug, Copy, PartialEq, Eq, Structural)]
pub struct LineBreak(pub usize);

impl LineBreak {
    pub open spec fn effect(self, old: EditorState, new: EditorState) -> bool {
        if old.view.single_line {
            new == old
        } else {
            let r = if old.text().len() == 0 { seq![Seq::<char>::empty()] } else { old.text() };
            let res = line_breaks(r, old.cursor, self.0 as nat);
            edit_result(old, new, res.0, res.1, false, None)
        }
    }

    pub fn execute(&self, state: &mut EditorState)
        ensures
            self.effect(*old(state), *final(state)),
    {
        if state.view.single_line {
            return;
        }
        if has_no_rows(&state.lines) {
            push_row(&mut state.lines, Vec::new());
            assert(rows(state.lines) =~= seq![Seq::<char>::empty()]);
        }
        let ghost s1 = *state;
        assert(s1 == (EditorState { lines: s1.lines, ..*old(state) }));
        let mut i: usize = 0;
        while i < self.0
            invariant
                i <= self.0,
                *state == (EditorState { lines: state.lines, cursor: state.cursor, ..s1 }),
                line_breaks(rows(state.lines), state.cursor, (self.0 - i) as nat)
                    == line_breaks(rows(s1.lines), s1.cursor, self.0 as nat),
            decreases self.0 - i,
        {
            let n = num_rows(&state.lines);
            if state.cursor.row > n {
                i = self.0;
                continue;
            }
            line_break(&mut state.lines, &mut state.cursor);
            i = i + 1;
        }
    }
}

/// Opening `n` empty rows below a position (at the position on an empty
/// buffer), the position moving onto each; stops where the row to open lies
/// beyond the row after the last one.
pub open spec fn open_rows_below(r: Seq<Seq<char>>, c: Index2, n: nat) -> (Seq<Seq<char>>, Index2)
    decreases n,
{
    if n == 0 {
        (r, c)
    } else {
        let row = if r.len() > 0 { c.row + 1 } else { c.row as int };
        if row > r.len() {
            (r, c)
        } else {
            open_rows_below(r.insert(row, Seq::empty()), Index2 { row: row as usize, col: 0 }, (n - 1) as nat)
        }
    }
}

/// Opens new rows below the cursor and switches into insert mode.
#[derive(Clone, Debug, Copy, PartialEq, Eq, Structural)]
pub struct AppendNewline(pub usize);

impl AppendNewline {
    /// Insert mode is entered (with what that does); the cursor moves to
    /// column zero and `self.0` rows are opened below it.
    pub open spec fn effect(self, old: EditorState, new: EditorState) -> bool {
        exists|mid: EditorState| {
            &&& #[trigger] switch_mode_spec(old, mid, EditorMode::Insert)
            &&& {
                let res = open_rows_below(mid.text(), Index2 { col: 0, ..mid.cursor }, self.0 as nat);
                edit_result(mid, new, res.0, res.1, false, None)
            }
        }
    }

    pub fn execute(&self, state: &mut EditorState)
        ensures
            self.effect(*old(state), *final(state)),
    {
        SwitchMode(EditorMode::Insert).execute(state);
        let ghost mid = *state;
        state.cursor.col = 0;
        let ghost s1 = *state;
        let mut i: usize = 0;
        while i < self.0
            invariant
                i <= self.0,
                s1 == (EditorState { cursor: Index2 { col: 0, ..mid.cursor }, ..mid }),
                *state == (EditorState { lines: state.lines, cursor: state.cursor, ..s1 }),
                open_rows_below(rows(state.lines), state.cursor, (self.0 - i) as nat)
                    == open_rows_below(rows(s1.lines), s1.cursor, self.0 as nat),
            decreases self.0 - i,
        {
            let n = num_rows(&state.lines);
            let row = if n > 0 {
                if state.cursor.row >= n {
                    i = self.0;
                    continue;
                }
                state.cursor.row + 1
            } else {
                state.cursor.row
            };
            if row > n {
                i = self.0;
                continue;
            }
            state.cursor.row = row;
            state.cursor.col = 0;
            insert_row(&mut state.lines, row, Vec::new());
            i = i + 1;
        }
        assert(switch_mode_spec(*old(state), mid, EditorMode::Insert));
    }

    pub fn is_repeatable(&self) -> (b: bool)
        ensures
            !b,
    {
        false
    }
}

/// Opening `n` empty rows at a position, which stays; stops where the row
/// lies beyond the row after the last one.
pub open spec fn open_rows_at(r: Seq<Seq<char>>, c: Index2, n: nat) -> Seq<Seq<char>>
    decreases n,
{
    if n == 0 || c.row > r.len() {
        r
    } else {
        open_rows_at(r.insert(c.row as int, Seq::empty()), c, (n - 1) as nat)
    }
}

/// Opens new rows at the cursor and switches into insert mode.
#[derive(Clone, Debug, Copy, PartialEq, Eq, Structural)]
pub struct InsertNewline(pub usize);

impl InsertNewline {
    /// Insert mode is entered (with what that does); the cursor moves to
    /// column zero and `self.0` rows are opened at it.
    pub open spec fn effect(self, old: EditorState, new: EditorState) -> bool {
        exists|mid: EditorState| {
            &&& #[trigger] switch_mode_spec(old, mid, EditorMode::Insert)
            &&& {
                let c = Index2 { col: 0, ..mid.cursor };
                edit_result(mid, new, open_rows_at(mid.text(), c, self.0 as nat), c, false, None)
            }
        }
    }

    pub fn execute(&self, state: &mut EditorState)
        ensures
            self.effect(*old(state), *final(state)),
    {
        SwitchMode(EditorMode::Insert).execute(state);
        let ghost mid = *state;
        state.cursor.col = 0;
        let ghost s1 = *state;
        let mut i: usize = 0;
        while i < self.0
            invariant
                i <= self.0,
                s1 == (EditorState { cursor: Index2 { col: 0, ..mid.cursor }, ..mid }),
                *state == (EditorState { lines: state.lines, ..s1 }),
                open_rows_at(rows(state.lines), state.cursor, (self.0 - i) as nat)
                    == open_rows_at(rows(s1.lines), s1.cursor, self.0 as nat),
            decreases self.0 - i,
        {
            let n = num_rows(&state.lines);
            if state.cursor.row > n {
                i = self.0;
                continue;
            }
            insert_row(&mut state.lines, state.cursor.row, Vec::new());
            i = i + 1;
        }
        assert(switch_mode_spec(*old(state), mid, EditorMode::Insert));
    }
}

/// Pushes a line to the back of the buffer; the cursor stays.
#[derive(Clone, Debug, Copy)]
pub struct PushLine<'a>(pub &'a str);

impl<'a> PushLine<'a> {
    pub open spec fn effect(self, old: EditorState, new: EditorState) -> bool {
        edit_result(old, new, old.text().push(self.0@), old.cursor, false, None)
    }

    pub fn execute(&self, state: &mut EditorState)
        ensures
            self.effect(*old(state), *final(state)),
    {
        let chars = str_chars(self.0);
        push_row(&mut state.lines, chars);
    }
}

} // verus!
