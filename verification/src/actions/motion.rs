//! Cursor motions.
use vstd::prelude::*;
use crate::buffer::{
    max_col, max_col_spec, max_col_normal, max_col_normal_spec, skip_whitespace, skip_ws_spec,
    skip_whitespace_rev, skip_ws_rev_spec, skip_empty_lines, next_nonempty_row,
};
use crate::index::Index2;
use crate::lines::{
    rows, num_rows, has_no_rows, Lines, char_at, step_forward, row_len, last_col, on_last_col,
    on_last_row, is_last_col, is_last_row, get_char, last_col_index, len_col, get_row,
};
use crate::actions::delete::first_non_space;
use crate::text::is_whitespace_unicode;
use crate::state::{clamped_cursor, clamped_col};
use crate::walk::{
    class_of, character_class, walk_out_of_bounds, scan_class_fwd, scan_class_forward,
    scan_word_end_fwd, scan_word_end_forward, scan_class_back, scan_class_backward,
};
use crate::mode::EditorMode;
use crate::selection::{Selection, set_selection};
use crate::state::EditorState;
use crate::walk::{find_matching_bracket, matching_bracket_spec};

verus! {

/// The selection after the cursor moved to `cursor`: in visual mode the
/// selection's end follows the cursor.
pub open spec fn follow_selection(sel: Option<Selection>, mode: EditorMode, cursor: Index2) -> Option<Selection> {
    if mode == EditorMode::Visual {
        match sel {
            Some(s) => Some(Selection { end: cursor, ..s }),
            None => None,
        }
    } else {
        sel
    }
}

/// `new` is `old` with the cursor moved to `cursor` (and a visual
/// selection following it).
pub open spec fn moved_to(old: EditorState, new: EditorState, cursor: Index2) -> bool {
    new == EditorState { cursor, selection: follow_selection(old.selection, old.mode, cursor), ..old }
}

/// Lets a visual selection follow the cursor.
pub fn follow_cursor(state: &mut EditorState)
    ensures
        *final(state) == (EditorState {
            selection: follow_selection(old(state).selection, old(state).mode, old(state).cursor),
            ..*old(state)
        }),
{
    if state.mode == EditorMode::Visual {
        set_selection(&mut state.selection, state.cursor);
    }
}

/// The column after moving forward `n` times, stopping at `max`.
pub open spec fn forward_col(col: int, n: int, max: int) -> int {
    if col >= max { col } else if col + n <= max { col + n } else { max }
}

/// Moves the cursor forward by a number of columns, stopping at the last
/// column the mode allows.
#[derive(Clone, Debug, Copy, PartialEq, Eq, Structural)]
pub struct MoveForward(pub usize);

impl MoveForward {
    pub open spec fn effect(self, old: EditorState, new: EditorState) -> bool {
        moved_to(old, new, Index2 {
            col: forward_col(old.cursor.col as int, self.0 as int, max_col_spec(old.text(), old.cursor, old.mode)) as usize,
            ..old.cursor
        })
    }

    pub fn execute(&self, state: &mut EditorState)
        ensures
            self.effect(*old(state), *final(state)),
    {
        let max = max_col(&state.lines, &state.cursor, state.mode);
        let col = state.cursor.col;
        if col < max {
            state.cursor.col = if self.0 <= max - col { col + self.0 } else { max };
        }
        follow_cursor(state);
    }
}

/// The column after moving backward `n` times: clamped to `max` first,
/// stopping at zero.
pub open spec fn backward_col(col: int, n: int, max: int) -> int {
    if n == 0 || col == 0 {
        col
    } else {
        let c = if col > max { max } else { col };
        if c >= n { c - n } else { 0 }
    }
}

/// Moves the cursor backward by a number of columns.
#[derive(Clone, Debug, Copy, PartialEq, Eq, Structural)]
pub struct MoveBackward(pub usize);

impl MoveBackward {
    pub open spec fn effect(self, old: EditorState, new: EditorState) -> bool {
        moved_to(old, new, Index2 {
            col: backward_col(old.cursor.col as int, self.0 as int, max_col_spec(old.text(), old.cursor, old.mode)) as usize,
            ..old.cursor
        })
    }

    pub fn execute(&self, state: &mut EditorState)
        ensures
            self.effect(*old(state), *final(state)),
    {
        let max = max_col(&state.lines, &state.cursor, state.mode);
        let col = state.cursor.col;
        if self.0 > 0 && col > 0 {
            let c = if col > max { max } else { col };
            state.cursor.col = if c >= self.0 { c - self.0 } else { 0 };
        }
        follow_cursor(state);
    }
}

/// Moves the cursor up by a number of rows, stopping at the first row.
#[derive(Clone, Debug, Copy, PartialEq, Eq, Structural)]
pub struct MoveUp(pub usize);

impl MoveUp {
    pub open spec fn effect(self, old: EditorState, new: EditorState) -> bool {
        moved_to(old, new, Index2 {
            row: if old.cursor.row >= self.0 { (old.cursor.row - self.0) as usize } else { 0 },
            ..old.cursor
        })
    }

    pub fn execute(&self, state: &mut EditorState)
        ensures
            self.effect(*old(state), *final(state)),
    {
        state.cursor.row = if state.cursor.row >= self.0 { state.cursor.row - self.0 } else { 0 };
        follow_cursor(state);
    }
}

/// Moves the cursor down by a number of rows, stopping at the last row.
#[derive(Clone, Debug, Copy, PartialEq, Eq, Structural)]
pub struct MoveDown(pub usize);

impl MoveDown {
    pub open spec fn effect(self, old: EditorState, new: EditorState) -> bool {
        let last = if old.text().len() > 0 { old.text().len() - 1 } else { 0 };
        moved_to(old, new, Index2 {
            row: forward_col(old.cursor.row as int, self.0 as int, last) as usize,
            ..old.cursor
        })
    }

    pub fn execute(&self, state: &mut EditorState)
        ensures
            self.effect(*old(state), *final(state)),
    {
        let n = num_rows(&state.lines);
        let last = if n > 0 { n - 1 } else { 0 };
        if state.cursor.row < last {
            state.cursor.row = if self.0 <= last - state.cursor.row { state.cursor.row + self.0 } else { last };
        }
        follow_cursor(state);
    }
}

/// Moves the cursor to the start of the line.
#[derive(Clone, Debug, Copy, PartialEq, Eq, Structural)]
pub struct MoveToStartOfLine();

impl MoveToStartOfLine {
    pub open spec fn effect(self, old: EditorState, new: EditorState) -> bool {
        moved_to(old, new, Index2 { col: 0, ..old.cursor })
    }

    pub fn execute(&self, state: &mut EditorState)
        ensures
            self.effect(*old(state), *final(state)),
    {
        state.cursor.col = 0;
        follow_cursor(state);
    }
}

/// The column of the first character of a row that is not whitespace; zero
/// on a blank row and on a row that does not exist.
pub open spec fn first_non_blank_col(r: Seq<Seq<char>>, row: int) -> int {
    if 0 <= row < r.len() && first_non_space(r[row], 0) < r[row].len() {
        first_non_space(r[row], 0)
    } else {
        0
    }
}

/// Moves the cursor to the first character of the line that is not
/// whitespace (column zero on a blank line).
#[derive(Clone, Debug, Copy, PartialEq, Eq, Structural)]
pub struct MoveToFirst();

impl MoveToFirst {
    pub open spec fn effect(self, old: EditorState, new: EditorState) -> bool {
        moved_to(old, new, Index2 { col: first_non_blank_col(old.text(), old.cursor.row as int) as usize, ..old.cursor })
    }

    pub fn execute(&self, state: &mut EditorState)
        ensures
            self.effect(*old(state), *final(state)),
    {
        let col = match get_row(&state.lines, state.cursor.row) {
            Some(line) => {
                let mut first: usize = 0;
                while first < line.len() && is_whitespace_unicode(line[first])
                    invariant
                        first <= line@.len(),
                        first_non_space(line@, first as int) == first_non_space(line@, 0),
                    decreases line@.len() - first,
                {
                    first = first + 1;
                }
                if first < line.len() { first } else { 0 }
            },
            None => 0,
        };
        state.cursor.col = col;
        follow_cursor(state);
    }
}

/// Moves the cursor to the last column the mode allows.
#[derive(Clone, Debug, Copy, PartialEq, Eq, Structural)]
pub struct MoveToEndOfLine();

impl MoveToEndOfLine {
    pub open spec fn effect(self, old: EditorState, new: EditorState) -> bool {
        moved_to(old, new, Index2 { col: max_col_spec(old.text(), old.cursor, old.mode) as usize, ..old.cursor })
    }

    pub fn execute(&self, state: &mut EditorState)
        ensures
            self.effect(*old(state), *final(state)),
    {
        state.cursor.col = max_col(&state.lines, &state.cursor, state.mode);
        follow_cursor(state);
    }
}

/// Moves the cursor to the first row.
#[derive(Clone, Debug, Copy, PartialEq, Eq, Structural)]
pub struct MoveToFirstRow();

impl MoveToFirstRow {
    pub open spec fn effect(self, old: EditorState, new: EditorState) -> bool {
        moved_to(old, new, Index2 { row: 0, ..old.cursor })
    }

    pub fn execute(&self, state: &mut EditorState)
        ensures
            self.effect(*old(state), *final(state)),
    {
        state.cursor.row = 0;
        follow_cursor(state);
    }
}

/// Moves the cursor to the last row.
#[derive(Clone, Debug, Copy, PartialEq, Eq, Structural)]
pub struct MoveToLastRow();

impl MoveToLastRow {
    pub open spec fn effect(self, old: EditorState, new: EditorState) -> bool {
        moved_to(old, new, Index2 {
            row: if old.text().len() > 0 { (old.text().len() - 1) as usize } else { 0 },
            ..old.cursor
        })
    }

    pub fn execute(&self, state: &mut EditorState)
        ensures
            self.effect(*old(state), *final(state)),
    {
        let n = num_rows(&state.lines);
        state.cursor.row = if n > 0 { n - 1 } else { 0 };
        follow_cursor(state);
    }
}

/// Moves the cursor to the bracket that matches the one under it.
#[derive(Clone, Debug, Copy, PartialEq, Eq, Structural)]
pub struct MoveToMatchinBracket();

impl MoveToMatchinBracket {
    pub open spec fn effect(self, old: EditorState, new: EditorState) -> bool {
        let start = Index2 {
            col: if old.cursor.col <= max_col_normal_spec(old.text(), old.cursor) { old.cursor.col } else { max_col_normal_spec(old.text(), old.cursor) as usize },
            ..old.cursor
        };
        match matching_bracket_spec(old.text(), start) {
            Some(p) => moved_to(old, new, p),
            None => new == old,
        }
    }

    pub fn execute(&self, state: &mut EditorState)
        ensures
            self.effect(*old(state), *final(state)),
    {
        let max = max_col_normal(&state.lines, &state.cursor);
        let index = Index2::new(state.cursor.row, if state.cursor.col <= max { state.cursor.col } else { max });
        if let Some(found) = find_matching_bracket(&state.lines, index) {
            state.cursor = found;
            follow_cursor(state);
        }
    }
}

/// One word forward from a position: past the run of characters of the class
/// at the next column, then over whitespace. At the end of a row the
/// position moves to the start of the next row; at the end of the buffer it
/// stays.
pub open spec fn word_forward_spec(r: Seq<Seq<char>>, c: Index2) -> Index2 {
    if on_last_col(r, c) && on_last_row(r, c) {
        c
    } else if on_last_col(r, c) {
        Index2 { row: (c.row + 1) as usize, col: 0 }
    } else {
        let s = Index2 { row: c.row, col: if c.col < usize::MAX { (c.col + 1) as usize } else { c.col } };
        if walk_out_of_bounds(r, s) {
            skip_ws_spec(r, c)
        } else {
            skip_ws_spec(r, scan_class_fwd(r, s, class_of(char_at(r, s))))
        }
    }
}

/// Moves a position one word forward.
pub fn move_word_forward(lines: &Lines, cursor: &mut Index2)
    ensures
        *final(cursor) == word_forward_spec(rows(*lines), *old(cursor)),
{
    let n = num_rows(lines);
    let last_col_here = is_last_col(lines, *cursor);
    if last_col_here && is_last_row(lines, *cursor) {
        return;
    }
    if last_col_here {
        *cursor = Index2::new(cursor.row + 1, 0);
        return;
    }
    let s = Index2::new(cursor.row, if cursor.col < usize::MAX { cursor.col + 1 } else { cursor.col });
    if s.row >= n {
        skip_whitespace(lines, cursor);
        return;
    }
    let len = match len_col(lines, s.row) {
        Some(l) => l,
        None => 0,
    };
    if s.col != 0 && s.col >= len {
        skip_whitespace(lines, cursor);
        return;
    }
    let cls = character_class(get_char(lines, s));
    *cursor = scan_class_forward(lines, s, cls);
    skip_whitespace(lines, cursor);
}

/// Applying [`word_forward_spec`] `n` times.
pub open spec fn word_forward_n(r: Seq<Seq<char>>, c: Index2, n: nat) -> Index2
    decreases n,
{
    if n == 0 { c } else { word_forward_n(r, word_forward_spec(r, c), (n - 1) as nat) }
}

/// Moves the cursor forward by words.
#[derive(Clone, Debug, Copy, PartialEq, Eq, Structural)]
pub struct MoveWordForward(pub usize);

impl MoveWordForward {
    /// Nothing on an empty buffer; otherwise the cursor, first clamped,
    /// moves `self.0` words forward.
    pub open spec fn effect(self, old: EditorState, new: EditorState) -> bool {
        if old.text().len() == 0 {
            new == old
        } else {
            moved_to(old, new, word_forward_n(old.text(), clamped_cursor(old), self.0 as nat))
        }
    }

    pub fn execute(&self, state: &mut EditorState)
        ensures
            self.effect(*old(state), *final(state)),
    {
        if has_no_rows(&state.lines) {
            return;
        }
        state.clamp_column();
        let ghost c0 = state.cursor;
        let mut i: usize = 0;
        while i < self.0
            invariant
                i <= self.0,
                *state == (EditorState { cursor: state.cursor, ..*old(state) }),
                c0 == clamped_cursor(*old(state)),
                word_forward_n(rows(state.lines), state.cursor, (self.0 - i) as nat)
                    == word_forward_n(rows(state.lines), c0, self.0 as nat),
            decreases self.0 - i,
        {
            move_word_forward(&state.lines, &mut state.cursor);
            i = i + 1;
        }
        follow_cursor(state);
    }
}

/// To the end of the next word from a position: from the next column (the
/// next row at the end of a row), past empty rows and whitespace, to the
/// last character of the word, not beyond the end of its row. Stays where
/// there is no such character.
pub open spec fn word_end_spec(r: Seq<Seq<char>>, c: Index2) -> Index2 {
    if on_last_col(r, c) && on_last_row(r, c) {
        c
    } else {
        let s0 = if on_last_col(r, c) {
            Index2 { row: (c.row + 1) as usize, col: 0 }
        } else {
            Index2 { row: c.row, col: if c.col < usize::MAX { (c.col + 1) as usize } else { c.col } }
        };
        let s1 = Index2 { row: next_nonempty_row(r, s0.row as int) as usize, col: s0.col };
        let s2 = skip_ws_spec(r, s1);
        scan_word_end_fwd(r, s2, class_of(char_at(r, s2)), c)
    }
}

proof fn lemma_next_nonempty_row_bound(r: Seq<Seq<char>>, row: int)
    requires
        0 <= row,
    ensures
        row <= next_nonempty_row(r, row),
        row <= r.len() ==> next_nonempty_row(r, row) <= r.len(),
    decreases r.len() - row,
{
    if 0 <= row < r.len() && r[row].len() == 0 {
        lemma_next_nonempty_row_bound(r, row + 1);
    }
}

/// Moves a position to the end of the next word.
pub fn move_word_end(lines: &Lines, cursor: &mut Index2)
    ensures
        *final(cursor) == word_end_spec(rows(*lines), *old(cursor)),
{
    let n = num_rows(lines);
    let last_col_here = is_last_col(lines, *cursor);
    if last_col_here && is_last_row(lines, *cursor) {
        return;
    }
    let mut start = if last_col_here {
        Index2::new(cursor.row + 1, 0)
    } else {
        Index2::new(cursor.row, if cursor.col < usize::MAX { cursor.col + 1 } else { cursor.col })
    };
    skip_empty_lines(lines, &mut start.row);
    skip_whitespace(lines, &mut start);
    let cls = character_class(get_char(lines, start));
    if start.row >= n {
        return;
    }
    *cursor = scan_word_end_forward(lines, start, cls, *cursor);
}

/// Applying [`word_end_spec`] `n` times.
pub open spec fn word_end_n(r: Seq<Seq<char>>, c: Index2, n: nat) -> Index2
    decreases n,
{
    if n == 0 { c } else { word_end_n(r, word_end_spec(r, c), (n - 1) as nat) }
}

/// Moves the cursor to the end of the next word.
#[derive(Clone, Debug, Copy, PartialEq, Eq, Structural)]
pub struct MoveWordForwardToEndOfWord(pub usize);

impl MoveWordForwardToEndOfWord {
    /// Nothing on an empty buffer; otherwise the cursor, first clamped,
    /// moves to the end of a word `self.0` times.
    pub open spec fn effect(self, old: EditorState, new: EditorState) -> bool {
        if old.text().len() == 0 {
            new == old
        } else {
            moved_to(old, new, word_end_n(old.text(), clamped_cursor(old), self.0 as nat))
        }
    }

    pub fn execute(&self, state: &mut EditorState)
        ensures
            self.effect(*old(state), *final(state)),
    {
        if has_no_rows(&state.lines) {
            return;
        }
        state.clamp_column();
        let ghost c0 = state.cursor;
        let mut i: usize = 0;
        while i < self.0
            invariant
                i <= self.0,
                *state == (EditorState { cursor: state.cursor, ..*old(state) }),
                c0 == clamped_cursor(*old(state)),
                word_end_n(rows(state.lines), state.cursor, (self.0 - i) as nat)
                    == word_end_n(rows(state.lines), c0, self.0 as nat),
            decreases self.0 - i,
        {
            move_word_end(&state.lines, &mut state.cursor);
            i = i + 1;
        }
        follow_cursor(state);
    }
}

/// One word backward from a position: at column zero to the end of the row
/// above; otherwise over whitespace to the left and then to the start of
/// the word there, not beyond the start of the row.
pub open spec fn word_backward_motion(r: Seq<Seq<char>>, c: Index2) -> Index2 {
    if c.row == 0 && c.col == 0 {
        c
    } else if c.col == 0 {
        Index2 { row: (c.row - 1) as usize, col: last_col(r, c.row - 1) as usize }
    } else {
        let s0 = skip_ws_rev_spec(r, Index2 { row: c.row, col: (c.col - 1) as usize });
        scan_class_back(r, s0, class_of(char_at(r, s0)), s0)
    }
}

/// Moves a position one word backward.
pub fn move_word_backward(lines: &Lines, cursor: &mut Index2)
    ensures
        *final(cursor) == word_backward_motion(rows(*lines), *old(cursor)),
{
    if cursor.row == 0 && cursor.col == 0 {
        return;
    }
    if cursor.col == 0 {
        let row = cursor.row - 1;
        *cursor = Index2::new(row, last_col_index(lines, row));
        return;
    }
    let mut start = Index2::new(cursor.row, cursor.col - 1);
    skip_whitespace_rev(lines, &mut start);
    let cls = character_class(get_char(lines, start));
    if start.row < num_rows(lines) {
        start = scan_class_backward(lines, start, cls);
    }
    *cursor = start;
}

/// Applying [`word_backward_motion`] `n` times.
pub open spec fn word_backward_motion_n(r: Seq<Seq<char>>, c: Index2, n: nat) -> Index2
    decreases n,
{
    if n == 0 { c } else { word_backward_motion_n(r, word_backward_motion(r, c), (n - 1) as nat) }
}

/// Moves the cursor backward by words.
#[derive(Clone, Debug, Copy, PartialEq, Eq, Structural)]
pub struct MoveWordBackward(pub usize);

impl MoveWordBackward {
    /// Nothing on an empty buffer; otherwise the cursor, first clamped,
    /// moves `self.0` words backward.
    pub open spec fn effect(self, old: EditorState, new: EditorState) -> bool {
        if old.text().len() == 0 {
            new == old
        } else {
            moved_to(old, new, word_backward_motion_n(old.text(), clamped_cursor(old), self.0 as nat))
        }
    }

    pub fn execute(&self, state: &mut EditorState)
        ensures
            self.effect(*old(state), *final(state)),
    {
        if has_no_rows(&state.lines) {
            return;
        }
        state.clamp_column();
        let ghost c0 = state.cursor;
        let mut i: usize = 0;
        while i < self.0
            invariant
                i <= self.0,
                *state == (EditorState { cursor: state.cursor, ..*old(state) }),
                c0 == clamped_cursor(*old(state)),
                word_backward_motion_n(rows(state.lines), state.cursor, (self.0 - i) as nat)
                    == word_backward_motion_n(rows(state.lines), c0, self.0 as nat),
            decreases self.0 - i,
        {
            move_word_backward(&state.lines, &mut state.cursor);
            i = i + 1;
        }
        follow_cursor(state);
    }
}

/// Moves the cursor down by half the rows the view shows.
#[derive(Clone, Debug, Copy, PartialEq, Eq, Structural)]
pub struct MoveHalfPageDown();

impl MoveHalfPageDown {
    pub open spec fn effect(self, old: EditorState, new: EditorState) -> bool {
        MoveDown(old.view.num_rows / 2).effect(old, new)
    }

    pub fn execute(&self, state: &mut EditorState)
        ensures
            self.effect(*old(state), *final(state)),
    {
        MoveDown(state.view.num_rows / 2).execute(state);
    }
}

/// Moves the cursor up by half the rows the view shows.
#[derive(Clone, Debug, Copy, PartialEq, Eq, Structural)]
pub struct MoveHalfPageUp();

impl MoveHalfPageUp {
    pub open spec fn effect(self, old: EditorState, new: EditorState) -> bool {
        MoveUp(old.view.num_rows / 2).effect(old, new)
    }

    pub fn execute(&self, state: &mut EditorState)
        ensures
            self.effect(*old(state), *final(state)),
    {
        MoveUp(state.view.num_rows / 2).execute(state);
    }
}

/// Moves the cursor down by the rows the view shows.
#[derive(Clone, Debug, Copy, PartialEq, Eq, Structural)]
pub struct MovePageDown();

impl MovePageDown {
    pub open spec fn effect(self, old: EditorState, new: EditorState) -> bool {
        MoveDown(old.view.num_rows).effect(old, new)
    }

    pub fn execute(&self, state: &mut EditorState)
        ensures
            self.effect(*old(state), *final(state)),
    {
        MoveDown(state.view.num_rows).execute(state);
    }
}

/// Moves the cursor up by the rows the view shows.
#[derive(Clone, Debug, Copy, PartialEq, Eq, Structural)]
pub struct MovePageUp();

impl MovePageUp {
    pub open spec fn effect(self, old: EditorState, new: EditorState) -> bool {
        MoveUp(old.view.num_rows).effect(old, new)
    }

    pub fn execute(&self, state: &mut EditorState)
        ensures
            self.effect(*old(state), *final(state)),
    {
        MoveUp(state.view.num_rows).execute(state);
    }
}

/// The first empty row after `row`, or the last row if there is none.
pub open spec fn next_blank_row(r: Seq<Seq<char>>, row: int) -> int
    decreases r.len() - row,
{
    if row + 1 >= r.len() {
        if r.len() > 0 { r.len() - 1 } else { 0 }
    } else if r[row + 1].len() == 0 {
        row + 1
    } else {
        next_blank_row(r, row + 1)
    }
}

/// The last empty row before `row`, or the first row if there is none.
pub open spec fn prev_blank_row(r: Seq<Seq<char>>, row: int) -> int
    decreases row,
{
    if row <= 0 {
        0
    } else if row - 1 < r.len() && r[row - 1].len() == 0 {
        row - 1
    } else {
        prev_blank_row(r, row - 1)
    }
}

/// Moves the cursor to the start of the next empty row (the next paragraph
/// boundary), or of the last row.
#[derive(Clone, Debug, Copy, PartialEq, Eq, Structural)]
pub struct MoveParagraphForward();

impl MoveParagraphForward {
    pub open spec fn effect(self, old: EditorState, new: EditorState) -> bool {
        moved_to(old, new, Index2 { row: next_blank_row(old.text(), old.cursor.row as int) as usize, col: 0 })
    }

    pub fn execute(&self, state: &mut EditorState)
        ensures
            self.effect(*old(state), *final(state)),
    {
        let n = num_rows(&state.lines);
        let mut row = state.cursor.row;
        while row < n && row + 1 < n
            invariant
                n == rows(state.lines).len(),
                n <= isize::MAX,
                *state == *old(state),
                next_blank_row(rows(state.lines), row as int) == next_blank_row(rows(state.lines), old(state).cursor.row as int),
            decreases n - row,
        {
            match len_col(&state.lines, row + 1) {
                Some(len) => {
                    if len == 0 {
                        row = row + 1;
                        state.cursor = Index2::new(row, 0);
                        follow_cursor(state);
                        return;
                    }
                },
                None => {},
            }
            row = row + 1;
        }
        state.cursor = Index2::new(if n > 0 { n - 1 } else { 0 }, 0);
        follow_cursor(state);
    }
}

/// Moves the cursor to the start of the previous empty row (the previous
/// paragraph boundary), or of the first row.
#[derive(Clone, Debug, Copy, PartialEq, Eq, Structural)]
pub struct MoveParagraphBackward();

impl MoveParagraphBackward {
    pub open spec fn effect(self, old: EditorState, new: EditorState) -> bool {
        moved_to(old, new, Index2 { row: prev_blank_row(old.text(), old.cursor.row as int) as usize, col: 0 })
    }

    pub fn execute(&self, state: &mut EditorState)
        ensures
            self.effect(*old(state), *final(state)),
    {
        let mut row = state.cursor.row;
        while row > 0
            invariant
                *state == *old(state),
                prev_blank_row(rows(state.lines), row as int) == prev_blank_row(rows(state.lines), old(state).cursor.row as int),
            decreases row,
        {
            if let Some(len) = len_col(&state.lines, row - 1) {
                if len == 0 {
                    state.cursor = Index2::new(row - 1, 0);
                    follow_cursor(state);
                    return;
                }
            }
            row = row - 1;
        }
        state.cursor = Index2::new(0, 0);
        follow_cursor(state);
    }
}

} // verus!
