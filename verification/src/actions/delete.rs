//! Deleting text: characters, words, lines and selections.
use vstd::prelude::*;
use crate::buffer::{
    max_col_insert, out_of_bounds, is_out_of_bounds, cut_row, drain_row, skip_whitespace,
    skip_ws_col, skip_whitespace_rev, skip_ws_rev_spec,
};
use crate::clipboard::Clipboard;
use crate::index::Index2;
use crate::lines::{
    Lines, rows, row_len, last_col, char_at, num_rows, has_no_rows, len_col, get_row, get_char,
    last_col_index, remove_char_at, remove_row, split_off_at, merge_lines, join_lines, set_char,
    lines_into_string,
};
use crate::selection::Selection;
use crate::state::{EditorState, edit_result, captured, clamped_cursor, clamped_col};
use crate::text::{
    unicode_whitespace, is_whitespace_unicode, string_from_chars, is_whitespace_ascii, is_ascii_ws,
};
use crate::walk::{
    CharacterClass, class_of, alike, character_class, same_class, scan_class_back,
    scan_class_backward,
};

verus! {

/// The rows after joining a row with the one below it.
pub open spec fn join_rows(r: Seq<Seq<char>>, row: int) -> Seq<Seq<char>> {
    r.update(row, r[row] + r[row + 1]).remove(row + 1)
}

/// The rows after `merge`: the first row of `b` continues the last row of `a`.
pub open spec fn merge_rows(a: Seq<Seq<char>>, b: Seq<Seq<char>>) -> Seq<Seq<char>> {
    if b.len() == 0 {
        a
    } else if a.len() == 0 {
        b
    } else {
        a.update(a.len() - 1, a.last() + b[0]) + b.skip(1)
    }
}

/// Removing `n` characters under the cursor, one after the other; after each
/// removal the cursor stays on the row's last character at most. Stops at a
/// position without a character.
pub open spec fn remove_chars(r: Seq<Seq<char>>, c: Index2, n: nat) -> (Seq<Seq<char>>, Index2)
    decreases n,
{
    if n == 0 || out_of_bounds(r, c) {
        (r, c)
    } else {
        let r2 = r.update(c.row as int, r[c.row as int].remove(c.col as int));
        let m = last_col(r2, c.row as int);
        remove_chars(r2, Index2 { col: if c.col <= m { c.col } else { m as usize }, ..c }, (n - 1) as nat)
    }
}

/// Deletes characters at the cursor, which stays in place unless it is at
/// the end of the line. Intended for normal mode.
#[derive(Clone, Debug, Copy, PartialEq, Eq, Structural)]
pub struct RemoveChar(pub usize);

impl RemoveChar {
    /// The state saved for undo; the cursor clamped; `self.0` characters
    /// removed.
    pub open spec fn effect(self, old: EditorState, new: EditorState) -> bool {
        let res = remove_chars(old.text(), clamped_cursor(old), self.0 as nat);
        edit_result(old, new, res.0, res.1, true, None)
    }

    pub fn execute(&self, state: &mut EditorState)
        ensures
            self.effect(*old(state), *final(state)),
    {
        state.capture();
        state.clamp_column();
        let ghost s1 = *state;
        let mut i: usize = 0;
        while i < self.0
            invariant
                i <= self.0,
                s1 == (EditorState { cursor: clamped_cursor(*old(state)), undo: s1.undo, ..*old(state) }),
                s1.undo.states() == captured(*old(state)),
                *state == (EditorState { lines: state.lines, cursor: state.cursor, ..s1 }),
                remove_chars(rows(state.lines), state.cursor, (self.0 - i) as nat)
                    == remove_chars(rows(s1.lines), s1.cursor, self.0 as nat),
            decreases self.0 - i,
        {
            if is_out_of_bounds(&state.lines, &state.cursor) {
                return;
            }
            remove_char_at(&mut state.lines, state.cursor);
            let m = last_col_index(&state.lines, state.cursor.row);
            if state.cursor.col > m {
                state.cursor.col = m;
            }
            i = i + 1;
        }
    }

    pub fn is_repeatable(&self) -> (b: bool)
        ensures
            b,
    {
        true
    }
}

/// Replaces the character under the cursor. Intended for normal mode.
#[derive(Clone, Debug, Copy, PartialEq, Eq, Structural)]
pub struct ReplaceChar(pub char);

impl ReplaceChar {
    /// Nothing happens where the cursor is on no character; otherwise the
    /// state is saved for undo and the character replaced.
    pub open spec fn effect(self, old: EditorState, new: EditorState) -> bool {
        if out_of_bounds(old.text(), old.cursor) {
            new == old
        } else {
            let row = old.cursor.row as int;
            edit_result(
                old,
                new,
                old.text().update(row, old.text()[row].update(old.cursor.col as int, self.0)),
                old.cursor,
                true,
                None,
            )
        }
    }

    pub fn execute(&self, state: &mut EditorState)
        ensures
            self.effect(*old(state), *final(state)),
    {
        let index = state.cursor;
        if is_out_of_bounds(&state.lines, &index) {
            return;
        }
        state.capture();
        set_char(&mut state.lines, index, self.0);
    }

    pub fn is_repeatable(&self) -> (b: bool)
        ensures
            b,
    {
        true
    }
}

/// Deleting the character left of a position (the line break at column
/// zero), as in insert mode with backspace.
pub open spec fn delete_char_spec(r: Seq<Seq<char>>, i: Index2) -> (Seq<Seq<char>>, Index2) {
    let len = row_len(r, i.row as int);
    if len == 0 && i.row == 0 {
        (r, i)
    } else {
        let col = if i.col > len { len } else { i.col as int };
        if col == 0 {
            if i.row > r.len() {
                (r, Index2 { col: 0, ..i })
            } else {
                let head = r.take(i.row as int);
                let c = if i.row > 0 {
                    Index2 { row: (i.row - 1) as usize, col: row_len(head, i.row - 1) as usize }
                } else {
                    Index2 { row: i.row, col: 0 }
                };
                (merge_rows(head, r.skip(i.row as int)), c)
            }
        } else {
            (r.update(i.row as int, r[i.row as int].remove(col - 1)), Index2 { row: i.row, col: (col - 1) as usize })
        }
    }
}

/// Deletes the character left of a position, or the line break before it.
/// (At column zero of a row beyond the row after the last, where the buffer
/// could not be split, only the column is reset.)
pub fn delete_char(lines: &mut Lines, index: &mut Index2)
    ensures
        (rows(*final(lines)), *final(index)) == delete_char_spec(rows(*old(lines)), *old(index)),
{
    let len = match len_col(lines, index.row) {
        Some(l) => l,
        None => 0,
    };
    if len == 0 && index.row == 0 {
        return;
    }
    if index.col > len {
        index.col = len;
    }
    if index.col == 0 {
        if index.row > num_rows(lines) {
            return;
        }
        let ghost r = rows(*lines);
        let mut rest = split_off_at(lines, *index);
        if index.row > 0 {
            index.row = index.row - 1;
            index.col = match len_col(lines, index.row) {
                Some(l) => l,
                None => 0,
            };
        }
        merge_lines(lines, &mut rest);
        proof {
            assert(rows(*lines) =~= merge_rows(r.take(old(index).row as int), r.skip(old(index).row as int)));
        }
    } else {
        let max = max_col_insert(lines, index);
        if index.col > max {
            index.col = max;
        }
        index.col = index.col - 1;
        remove_char_at(lines, *index);
    }
}

/// Applying [`delete_char_spec`] `n` times.
pub open spec fn delete_chars(r: Seq<Seq<char>>, i: Index2, n: nat) -> (Seq<Seq<char>>, Index2)
    decreases n,
{
    if n == 0 {
        (r, i)
    } else {
        let s = delete_char_spec(r, i);
        delete_chars(s.0, s.1, (n - 1) as nat)
    }
}

/// Deletes characters left of the cursor, and line breaks at column zero.
/// Intended for insert mode.
#[derive(Clone, Debug, Copy, PartialEq, Eq, Structural)]
pub struct DeleteChar(pub usize);

impl DeleteChar {
    /// The state saved for undo; then `self.0` backspaces.
    pub open spec fn effect(self, old: EditorState, new: EditorState) -> bool {
        let res = delete_chars(old.text(), old.cursor, self.0 as nat);
        edit_result(old, new, res.0, res.1, true, None)
    }

    pub fn execute(&self, state: &mut EditorState)
        ensures
            self.effect(*old(state), *final(state)),
    {
        state.capture();
        let ghost s1 = *state;
        let mut i: usize = 0;
        while i < self.0
            invariant
                i <= self.0,
                s1 == (EditorState { undo: s1.undo, ..*old(state) }),
                s1.undo.states() == captured(*old(state)),
                *state == (EditorState { lines: state.lines, cursor: state.cursor, ..s1 }),
                delete_chars(rows(state.lines), state.cursor, (self.0 - i) as nat)
                    == delete_chars(rows(s1.lines), s1.cursor, self.0 as nat),
            decreases self.0 - i,
        {
            delete_char(&mut state.lines, &mut state.cursor);
            i = i + 1;
        }
    }

    pub fn is_repeatable(&self) -> (b: bool)
        ensures
            b,
    {
        true
    }
}

/// Deleting the character at a position, or the line break after the row
/// when the position is at or past its end.
pub open spec fn delete_char_forward_spec(r: Seq<Seq<char>>, i: Index2) -> Seq<Seq<char>> {
    if i.row >= r.len() {
        r
    } else if i.col >= r[i.row as int].len() {
        if i.row + 1 >= r.len() { r } else { join_rows(r, i.row as int) }
    } else {
        r.update(i.row as int, r[i.row as int].remove(i.col as int))
    }
}

/// Deletes the character at a position, or the line break after the row.
pub fn delete_char_forward(lines: &mut Lines, index: &Index2)
    ensures
        rows(*final(lines)) == delete_char_forward_spec(rows(*old(lines)), *index),
{
    let row_len = match len_col(lines, index.row) {
        Some(l) => l,
        None => {
            return;
        },
    };
    let n = num_rows(lines);
    if index.col >= row_len {
        if index.row + 1 >= n {
            return;
        }
        join_lines(lines, index.row);
        return;
    }
    remove_char_at(lines, *index);
}

/// Applying [`delete_char_forward_spec`] `n` times at one position.
pub open spec fn delete_chars_forward(r: Seq<Seq<char>>, i: Index2, n: nat) -> Seq<Seq<char>>
    decreases n,
{
    if n == 0 { r } else { delete_chars_forward(delete_char_forward_spec(r, i), i, (n - 1) as nat) }
}

/// Deletes characters at the cursor; at the end of a line, the line break.
/// Intended for insert mode.
#[derive(Clone, Debug, Copy, PartialEq, Eq, Structural)]
pub struct DeleteCharForward(pub usize);

impl DeleteCharForward {
    /// The state saved for undo; the cursor clamped; then `self.0` forward
    /// deletions at the cursor.
    pub open spec fn effect(self, old: EditorState, new: EditorState) -> bool {
        let c = clamped_cursor(old);
        edit_result(old, new, delete_chars_forward(old.text(), c, self.0 as nat), c, true, None)
    }

    pub fn execute(&self, state: &mut EditorState)
        ensures
            self.effect(*old(state), *final(state)),
    {
        state.capture();
        state.clamp_column();
        let ghost s1 = *state;
        let mut i: usize = 0;
        while i < self.0
            invariant
                i <= self.0,
                s1 == (EditorState { cursor: clamped_cursor(*old(state)), undo: s1.undo, ..*old(state) }),
                s1.undo.states() == captured(*old(state)),
                *state == (EditorState { lines: state.lines, ..s1 }),
                delete_chars_forward(rows(state.lines), state.cursor, (self.0 - i) as nat)
                    == delete_chars_forward(rows(s1.lines), s1.cursor, self.0 as nat),
            decreases self.0 - i,
        {
            delete_char_forward(&mut state.lines, &state.cursor);
            i = i + 1;
        }
    }

    pub fn is_repeatable(&self) -> (b: bool)
        ensures
            b,
    {
        true
    }
}

/// Deleting the columns between two positions on one row (the end
/// excluded, both clamped to the row): the rows left, and the deleted text
/// if anything was deleted.
pub open spec fn delete_range_spec(r: Seq<Seq<char>>, start: Index2, end: Index2) -> (Seq<Seq<char>>, Option<Seq<char>>) {
    if start.row != end.row || start.col >= end.col || start.row >= r.len() {
        (r, None)
    } else {
        let line = r[start.row as int];
        let ec = if end.col < line.len() { end.col as int } else { line.len() as int };
        let sc = if start.col < ec { start.col as int } else { ec };
        (r.update(start.row as int, cut_row(line, sc, ec)), Some(line.subrange(sc, ec)))
    }
}

/// The clipboard after an operation that may have set its text.
pub open spec fn clip_after(old: Clipboard, new: Clipboard, set: Option<Seq<char>>) -> bool {
    match set {
        None => new == old,
        Some(t) => new.after_set(old, t),
    }
}

/// The text that the latest of two operations set on the clipboard.
pub open spec fn latest(a: Option<Seq<char>>, b: Option<Seq<char>>) -> Option<Seq<char>> {
    if b is Some { b } else { a }
}

/// Deletes the columns between two positions on one row, the end excluded,
/// and puts the deleted text on the clipboard.
pub fn delete_range(lines: &mut Lines, start: Index2, end: Index2, clip: &mut Clipboard)
    ensures
        rows(*final(lines)) == delete_range_spec(rows(*old(lines)), start, end).0,
        clip_after(*old(clip), *final(clip), delete_range_spec(rows(*old(lines)), start, end).1),
{
    if start.row != end.row || start.col >= end.col {
        return;
    }
    let row_len = match len_col(lines, start.row) {
        Some(l) => l,
        None => {
            return;
        },
    };
    let end_col = if end.col < row_len { end.col } else { row_len };
    let start_col = if start.col < end_col { start.col } else { end_col };
    let deleted = drain_row(lines, start.row, start_col, end_col);
    clip.set_text(string_from_chars(deleted.as_slice()));
}

/// Whether two characters belong to the same word: for words, their classes
/// are alike; for WORDs, both or neither are whitespace.
pub open spec fn same_kind(a: char, b: char, big: bool) -> bool {
    if big {
        (class_of(Some(a)) == CharacterClass::Whitespace) == (class_of(Some(b)) == CharacterClass::Whitespace)
    } else {
        alike(class_of(Some(a)), class_of(Some(b)))
    }
}

/// Computes [`same_kind`].
pub fn is_same_kind(a: char, b: char, big: bool) -> (r: bool)
    ensures
        r == same_kind(a, b, big),
{
    let ka = character_class(Some(a));
    let kb = character_class(Some(b));
    if big {
        let a_ws = match ka {
            CharacterClass::Whitespace => true,
            _ => false,
        };
        let b_ws = match kb {
            CharacterClass::Whitespace => true,
            _ => false,
        };
        a_ws == b_ws
    } else {
        same_class(ka, kb)
    }
}

/// The first column at or after `k` whose character is not of the same kind
/// as `a`, or the end of the row.
pub open spec fn run_end(line: Seq<char>, k: int, a: char, big: bool) -> int
    decreases line.len() - k,
{
    if k < 0 || k >= line.len() || !same_kind(a, line[k], big) {
        k
    } else {
        run_end(line, k + 1, a, big)
    }
}

/// A forward word deletion from a cursor (`dw`, `dW`, and with
/// `skip_ws == false` the `cw`/`cW` primitive): the rows, the cursor and the
/// deleted text. On an empty row the line break below is joined instead.
pub open spec fn motion_forward_spec(r: Seq<Seq<char>>, c: Index2, big: bool, skip_ws: bool)
    -> (Seq<Seq<char>>, Index2, Option<Seq<char>>)
{
    let len = row_len(r, c.row as int);
    if len == 0 {
        (if c.row + 1 < r.len() { join_rows(r, c.row as int) } else { r }, c, None)
    } else {
        let line = r[c.row as int];
        let sc = if c.col < len - 1 { c.col as int } else { len - 1 };
        let e = run_end(line, sc, line[sc], big);
        let e1 = if e > sc + 1 { e } else { sc + 1 };
        let e2 = if skip_ws { skip_ws_col(line, e1) } else { e1 };
        let start = Index2 { row: c.row, col: sc as usize };
        let d = delete_range_spec(r, start, Index2 { row: c.row, col: e2 as usize });
        let m = last_col(d.0, c.row as int);
        (d.0, Index2 { row: c.row, col: if sc <= m { sc as usize } else { m as usize } }, d.1)
    }
}

/// Deletes forward from the cursor over the word under it, not beyond the
/// row; with `skip_ws`, the whitespace after it too.
pub fn delete_motion_forward(state: &mut EditorState, big: bool, skip_ws: bool)
    ensures
        ({
            let res = motion_forward_spec(old(state).text(), old(state).cursor, big, skip_ws);
            &&& rows(final(state).lines) == res.0
            &&& final(state).cursor == res.1
            &&& clip_after(old(state).clip, final(state).clip, res.2)
            &&& *final(state) == (EditorState {
                lines: final(state).lines,
                cursor: final(state).cursor,
                clip: final(state).clip,
                ..*old(state)
            })
        }),
{
    let start_row = state.cursor.row;
    let n = num_rows(&state.lines);
    let line = match get_row(&state.lines, start_row) {
        Some(l) => l,
        None => Vec::new(),
    };
    let len = line.len();
    if len == 0 {
        if n > 0 && start_row < n - 1 {
            join_lines(&mut state.lines, start_row);
        }
        return;
    }
    let sc = if state.cursor.col < len - 1 { state.cursor.col } else { len - 1 };
    state.cursor.col = sc;
    let a = line[sc];
    let mut e = sc;
    while e < len && is_same_kind(a, line[e], big)
        invariant
            sc <= e <= len,
            len == line@.len(),
            sc < len,
            a == line@[sc as int],
            run_end(line@, e as int, a, big) == run_end(line@, sc as int, a, big),
        decreases len - e,
    {
        e = e + 1;
    }
    let mut end = Index2::new(start_row, if e > sc + 1 { e } else { sc + 1 });
    if skip_ws {
        skip_whitespace(&state.lines, &mut end);
    }
    delete_range(&mut state.lines, Index2::new(start_row, sc), end, &mut state.clip);
    let m = last_col_index(&state.lines, start_row);
    if state.cursor.col > m {
        state.cursor.col = m;
    }
}

/// Applying [`motion_forward_spec`] `n` times; the clipboard holds the text
/// that the last deletion took.
pub open spec fn motion_forward_n(r: Seq<Seq<char>>, c: Index2, clip: Option<Seq<char>>, big: bool, skip_ws: bool, n: nat)
    -> (Seq<Seq<char>>, Index2, Option<Seq<char>>)
    decreases n,
{
    if n == 0 {
        (r, c, clip)
    } else {
        let s = motion_forward_spec(r, c, big, skip_ws);
        motion_forward_n(s.0, s.1, latest(clip, s.2), big, skip_ws, (n - 1) as nat)
    }
}

/// The effect of a repeated forward word deletion: nothing on an empty
/// buffer; otherwise the state is saved for undo and the deletions run.
pub open spec fn word_forward_effect(old: EditorState, new: EditorState, big: bool, skip_ws: bool, n: nat) -> bool {
    if old.text().len() == 0 {
        new == old
    } else {
        let res = motion_forward_n(old.text(), old.cursor, None, big, skip_ws, n);
        edit_result(old, new, res.0, res.1, true, res.2)
    }
}

/// Runs a forward word deletion `n` times.
fn delete_word_forward_n(state: &mut EditorState, big: bool, skip_ws: bool, n: usize)
    ensures
        word_forward_effect(*old(state), *final(state), big, skip_ws, n as nat),
{
    if has_no_rows(&state.lines) {
        return;
    }
    state.capture();
    let ghost s1 = *state;
    let ghost mut acc: Option<Seq<char>> = None;
    let mut i: usize = 0;
    while i < n
        invariant
            i <= n,
            s1 == (EditorState { undo: s1.undo, ..*old(state) }),
            s1.undo.states() == captured(*old(state)),
            *state == (EditorState { lines: state.lines, cursor: state.cursor, clip: state.clip, ..s1 }),
            clip_after(s1.clip, state.clip, acc),
            motion_forward_n(rows(state.lines), state.cursor, acc, big, skip_ws, (n - i) as nat)
                == motion_forward_n(rows(s1.lines), s1.cursor, None, big, skip_ws, n as nat),
        decreases n - i,
    {
        let ghost before = *state;
        delete_motion_forward(state, big, skip_ws);
        proof {
            acc = latest(acc, motion_forward_spec(rows(before.lines), before.cursor, big, skip_ws).2);
        }
        i = i + 1;
    }
}

/// Deletes from the cursor to the start of the next word, on the current
/// line (Vim `dw`, Emacs Alt+d).
#[derive(Clone, Debug, Copy, PartialEq, Eq, Structural)]
pub struct DeleteWordForward(pub usize);

impl DeleteWordForward {
    pub open spec fn effect(self, old: EditorState, new: EditorState) -> bool {
        word_forward_effect(old, new, false, true, self.0 as nat)
    }

    pub fn execute(&self, state: &mut EditorState)
        ensures
            self.effect(*old(state), *final(state)),
    {
        delete_word_forward_n(state, false, true, self.0);
    }

    pub fn is_repeatable(&self) -> (b: bool)
        ensures
            b,
    {
        true
    }
}

/// Deletes from the cursor to the start of the next WORD, a run of
/// non-whitespace characters (Vim `dW`).
#[derive(Clone, Debug, Copy, PartialEq, Eq, Structural)]
pub struct DeleteBigWordForward(pub usize);

impl DeleteBigWordForward {
    pub open spec fn effect(self, old: EditorState, new: EditorState) -> bool {
        word_forward_effect(old, new, true, true, self.0 as nat)
    }

    pub fn execute(&self, state: &mut EditorState)
        ensures
            self.effect(*old(state), *final(state)),
    {
        delete_word_forward_n(state, true, true, self.0);
    }

    pub fn is_repeatable(&self) -> (b: bool)
        ensures
            b,
    {
        true
    }
}

/// Deletes from the cursor to the end of the word, keeping the whitespace
/// after it (the `cw` primitive, which behaves like `ce`).
#[derive(Clone, Debug, Copy, PartialEq, Eq, Structural)]
pub struct DeleteWordEnd(pub usize);

impl DeleteWordEnd {
    pub open spec fn effect(self, old: EditorState, new: EditorState) -> bool {
        word_forward_effect(old, new, false, false, self.0 as nat)
    }

    pub fn execute(&self, state: &mut EditorState)
        ensures
            self.effect(*old(state), *final(state)),
    {
        delete_word_forward_n(state, false, false, self.0);
    }

    pub fn is_repeatable(&self) -> (b: bool)
        ensures
            !b,
    {
        false
    }
}

/// Deletes from the cursor to the end of the WORD, keeping the whitespace
/// after it (the `cW` primitive).
#[derive(Clone, Debug, Copy, PartialEq, Eq, Structural)]
pub struct DeleteBigWordEnd(pub usize);

impl DeleteBigWordEnd {
    pub open spec fn effect(self, old: EditorState, new: EditorState) -> bool {
        word_forward_effect(old, new, true, false, self.0 as nat)
    }

    pub fn execute(&self, state: &mut EditorState)
        ensures
            self.effect(*old(state), *final(state)),
    {
        delete_word_forward_n(state, true, false, self.0);
    }

    pub fn is_repeatable(&self) -> (b: bool)
        ensures
            !b,
    {
        false
    }
}

/// A backward word deletion from a position (Emacs Alt+Backspace): at
/// column zero the line break before the row goes; otherwise the text from
/// the start of the word before the position up to it. Returns the rows, the
/// cursor and the deleted text.
pub open spec fn word_backward_spec(r: Seq<Seq<char>>, end: Index2) -> (Seq<Seq<char>>, Index2, Option<Seq<char>>) {
    if end.row == 0 && end.col == 0 {
        (r, end, None)
    } else if end.col == 0 {
        let row = end.row - 1;
        (if row + 1 < r.len() { join_rows(r, row) } else { r }, Index2 { row: row as usize, col: row_len(r, row) as usize }, None)
    } else {
        let s0 = skip_ws_rev_spec(r, Index2 { row: end.row, col: (end.col - 1) as usize });
        let s = scan_class_back(r, s0, class_of(char_at(r, s0)), s0);
        let d = delete_range_spec(r, s, end);
        (d.0, s, d.1)
    }
}

/// Deletes backward from the cursor to the start of the previous word.
pub fn delete_word_backward(state: &mut EditorState)
    ensures
        ({
            let res = word_backward_spec(old(state).text(), old(state).cursor);
            &&& rows(final(state).lines) == res.0
            &&& final(state).cursor == res.1
            &&& clip_after(old(state).clip, final(state).clip, res.2)
            &&& *final(state) == (EditorState {
                lines: final(state).lines,
                cursor: final(state).cursor,
                clip: final(state).clip,
                ..*old(state)
            })
        }),
{
    let end = state.cursor;
    if end.row == 0 && end.col == 0 {
        return;
    }
    if end.col == 0 {
        let row = end.row - 1;
        let col = match len_col(&state.lines, row) {
            Some(l) => l,
            None => 0,
        };
        state.cursor = Index2::new(row, col);
        join_lines(&mut state.lines, row);
        return;
    }
    let mut start = Index2::new(end.row, end.col - 1);
    skip_whitespace_rev(&state.lines, &mut start);
    let cls = character_class(get_char(&state.lines, start));
    if start.row < num_rows(&state.lines) {
        start = scan_class_backward(&state.lines, start, cls);
    }
    delete_range(&mut state.lines, start, end, &mut state.clip);
    state.cursor = start;
}

/// Applying [`word_backward_spec`] `n` times.
pub open spec fn word_backward_n(r: Seq<Seq<char>>, c: Index2, clip: Option<Seq<char>>, n: nat)
    -> (Seq<Seq<char>>, Index2, Option<Seq<char>>)
    decreases n,
{
    if n == 0 {
        (r, c, clip)
    } else {
        let s = word_backward_spec(r, c);
        word_backward_n(s.0, s.1, latest(clip, s.2), (n - 1) as nat)
    }
}

/// Deletes backward from the cursor to the start of the previous word.
#[derive(Clone, Debug, Copy, PartialEq, Eq, Structural)]
pub struct DeleteWordBackward(pub usize);

impl DeleteWordBackward {
    /// Nothing on an empty buffer; otherwise the state is saved for undo
    /// and `self.0` backward word deletions run.
    pub open spec fn effect(self, old: EditorState, new: EditorState) -> bool {
        if old.text().len() == 0 {
            new == old
        } else {
            let res = word_backward_n(old.text(), old.cursor, None, self.0 as nat);
            edit_result(old, new, res.0, res.1, true, res.2)
        }
    }

    pub fn execute(&self, state: &mut EditorState)
        ensures
            self.effect(*old(state), *final(state)),
    {
        if has_no_rows(&state.lines) {
            return;
        }
        state.capture();
        let ghost s1 = *state;
        let ghost mut acc: Option<Seq<char>> = None;
        let mut i: usize = 0;
        while i < self.0
            invariant
                i <= self.0,
                s1 == (EditorState { undo: s1.undo, ..*old(state) }),
                s1.undo.states() == captured(*old(state)),
                *state == (EditorState { lines: state.lines, cursor: state.cursor, clip: state.clip, ..s1 }),
                clip_after(s1.clip, state.clip, acc),
                word_backward_n(rows(state.lines), state.cursor, acc, (self.0 - i) as nat)
                    == word_backward_n(rows(s1.lines), s1.cursor, None, self.0 as nat),
            decreases self.0 - i,
        {
            let ghost before = *state;
            delete_word_backward(state);
            proof {
                acc = latest(acc, word_backward_spec(rows(before.lines), before.cursor).2);
            }
            i = i + 1;
        }
    }

    pub fn is_repeatable(&self) -> (b: bool)
        ensures
            b,
    {
        true
    }
}

/// Deleting `n` lines at the cursor, one after the other: each goes to the
/// clipboard behind a line break; the cursor moves to column zero of the
/// row that takes its place (or of the last row).
pub open spec fn delete_lines(r: Seq<Seq<char>>, c: Index2, clip: Option<Seq<char>>, n: nat)
    -> (Seq<Seq<char>>, Index2, Option<Seq<char>>)
    decreases n,
{
    if n == 0 || c.row >= r.len() {
        (r, c, clip)
    } else {
        let r2 = r.remove(c.row as int);
        let last = if r2.len() > 0 { r2.len() - 1 } else { 0 };
        let c2 = Index2 { row: if c.row <= last { c.row } else { last as usize }, col: 0 };
        delete_lines(r2, c2, Some(seq!['\n'] + r[c.row as int]), (n - 1) as nat)
    }
}

/// Deletes lines at the cursor.
#[derive(Clone, Debug, Copy, PartialEq, Eq, Structural)]
pub struct DeleteLine(pub usize);

impl DeleteLine {
    /// The state saved for undo; then `self.0` lines deleted.
    pub open spec fn effect(self, old: EditorState, new: EditorState) -> bool {
        let res = delete_lines(old.text(), old.cursor, None, self.0 as nat);
        edit_result(old, new, res.0, res.1, true, res.2)
    }

    pub fn execute(&self, state: &mut EditorState)
        ensures
            self.effect(*old(state), *final(state)),
    {
        state.capture();
        let ghost s1 = *state;
        let ghost mut acc: Option<Seq<char>> = None;
        let mut i: usize = 0;
        while i < self.0
            invariant
                i <= self.0,
                s1 == (EditorState { undo: s1.undo, ..*old(state) }),
                s1.undo.states() == captured(*old(state)),
                *state == (EditorState { lines: state.lines, cursor: state.cursor, clip: state.clip, ..s1 }),
                clip_after(s1.clip, state.clip, acc),
                delete_lines(rows(state.lines), state.cursor, acc, (self.0 - i) as nat)
                    == delete_lines(rows(s1.lines), s1.cursor, None, self.0 as nat),
            decreases self.0 - i,
        {
            let n = num_rows(&state.lines);
            if state.cursor.row >= n {
                i = self.0;
                continue;
            }
            let removed = remove_row(&mut state.lines, state.cursor.row);
            let mut text: Vec<char> = Vec::new();
            text.push('\n');
            let mut k: usize = 0;
            while k < removed.len()
                invariant
                    k <= removed@.len(),
                    text@ == seq!['\n'] + removed@.take(k as int),
                decreases removed@.len() - k,
            {
                text.push(removed[k]);
                proof {
                    assert(removed@.take(k + 1) == removed@.take(k as int).push(removed@[k as int]));
                }
                k = k + 1;
            }
            proof {
                assert(removed@.take(removed@.len() as int) =~= removed@);
                acc = Some(seq!['\n'] + removed@);
            }
            state.clip.set_text(string_from_chars(text.as_slice()));
            state.cursor.col = 0;
            let m = num_rows(&state.lines);
            let last = if m > 0 { m - 1 } else { 0 };
            if state.cursor.row > last {
                state.cursor.row = last;
            }
            i = i + 1;
        }
    }

    pub fn is_repeatable(&self) -> (b: bool)
        ensures
            b,
    {
        true
    }
}

/// The first column at or after `k` that does not hold (Unicode)
/// whitespace, or the end of the row.
pub open spec fn first_non_space(line: Seq<char>, k: int) -> int
    decreases line.len() - k,
{
    if k < 0 || k >= line.len() || !unicode_whitespace(line[k]) {
        k
    } else {
        first_non_space(line, k + 1)
    }
}

/// Deletes from the cursor back to the first non-whitespace character of
/// the line (or to the start of the line when the cursor is at or before it).
#[derive(Clone, Debug, Copy, PartialEq, Eq, Structural)]
pub struct DeleteToFirstCharOfLine;

impl DeleteToFirstCharOfLine {
    /// The state is saved for undo. On an existing row the cursor moves to
    /// the anchor (the first non-whitespace column, or zero when the cursor
    /// is not beyond it), and the text between anchor and cursor goes to the
    /// clipboard.
    pub open spec fn effect(self, old: EditorState, new: EditorState) -> bool {
        let row = old.cursor.row as int;
        let col = old.cursor.col as int;
        if row >= old.text().len() {
            edit_result(old, new, old.text(), old.cursor, true, None)
        } else {
            let line = old.text()[row];
            let first = first_non_space(line, 0);
            let anchor = if col <= first { 0 } else { first };
            let c = Index2 { col: anchor as usize, ..old.cursor };
            if anchor < col && col <= line.len() {
                edit_result(old, new, old.text().update(row, cut_row(line, anchor, col)), c, true, Some(line.subrange(anchor, col)))
            } else {
                edit_result(old, new, old.text(), c, true, None)
            }
        }
    }

    pub fn execute(&self, state: &mut EditorState)
        ensures
            self.effect(*old(state), *final(state)),
    {
        state.capture();
        let row = state.cursor.row;
        let line = match get_row(&state.lines, row) {
            Some(l) => l,
            None => {
                return;
            },
        };
        let col = state.cursor.col;
        let mut first: usize = 0;
        while first < line.len() && is_whitespace_unicode(line[first])
            invariant
                first <= line@.len(),
                first_non_space(line@, first as int) == first_non_space(line@, 0),
            decreases line@.len() - first,
        {
            first = first + 1;
        }
        let anchor = if col <= first { 0 } else { first };
        if anchor < col && col <= line.len() {
            let deleted = drain_row(&mut state.lines, row, anchor, col);
            state.clip.set_text(string_from_chars(deleted.as_slice()));
        }
        state.cursor.col = anchor;
    }

    pub fn is_repeatable(&self) -> (b: bool)
        ensures
            b,
    {
        true
    }
}

/// Deletes from the cursor to the end of the line.
#[derive(Clone, Debug, Copy, PartialEq, Eq, Structural)]
pub struct DeleteToEndOfLine;

impl DeleteToEndOfLine {
    /// Nothing where the cursor is on no character; otherwise the state is
    /// saved for undo, the rest of the row goes to the clipboard and the
    /// cursor moves one column left.
    pub open spec fn effect(self, old: EditorState, new: EditorState) -> bool {
        if out_of_bounds(old.text(), old.cursor) {
            new == old
        } else {
            let row = old.cursor.row as int;
            let col = old.cursor.col as int;
            let line = old.text()[row];
            edit_result(
                old,
                new,
                old.text().update(row, cut_row(line, col, line.len() as int)),
                Index2 { col: if col > 0 { (col - 1) as usize } else { 0 }, ..old.cursor },
                true,
                Some(line.skip(col)),
            )
        }
    }

    pub fn execute(&self, state: &mut EditorState)
        ensures
            self.effect(*old(state), *final(state)),
    {
        if is_out_of_bounds(&state.lines, &state.cursor) {
            return;
        }
        state.capture();
        let row = state.cursor.row;
        let len = match len_col(&state.lines, row) {
            Some(l) => l,
            None => {
                return;
            },
        };
        let deleted = drain_row(&mut state.lines, row, state.cursor.col, len);
        state.cursor.col = if state.cursor.col > 0 { state.cursor.col - 1 } else { 0 };
        state.clip.set_text(string_from_chars(deleted.as_slice()));
    }

    pub fn is_repeatable(&self) -> (b: bool)
        ensures
            b,
    {
        true
    }
}

/// The first column at or after `k` that holds `ch`.
pub open spec fn find_forward(line: Seq<char>, k: int, ch: char) -> Option<int>
    decreases line.len() - k,
{
    if k < 0 || k >= line.len() {
        None
    } else if line[k] == ch {
        Some(k)
    } else {
        find_forward(line, k + 1, ch)
    }
}

/// The column of the next occurrence of `ch` after the cursor on its row.
pub open spec fn find_char_spec(r: Seq<Seq<char>>, c: Index2, ch: char) -> Option<int> {
    if c.row >= r.len() {
        None
    } else {
        find_forward(r[c.row as int], c.col + 1, ch)
    }
}

proof fn lemma_find_forward_bounds(line: Seq<char>, k: int, ch: char)
    requires
        0 <= k,
    ensures
        find_forward(line, k, ch) matches Some(t) ==> k <= t < line.len() && line[t] == ch,
    decreases line.len() - k,
{
    if k < line.len() && line[k] != ch {
        lemma_find_forward_bounds(line, k + 1, ch);
    }
}

/// Finds the next occurrence of a character after the cursor on its row.
pub fn find_char_forward(state: &EditorState, ch: char) -> (r: Option<usize>)
    ensures
        r matches Some(t) ==> find_char_spec(state.text(), state.cursor, ch) == Some(t as int) && t < isize::MAX,
        r is None ==> find_char_spec(state.text(), state.cursor, ch) is None,
{
    let line = match get_row(&state.lines, state.cursor.row) {
        Some(l) => l,
        None => {
            return None;
        },
    };
    if state.cursor.col >= line.len() {
        proof {
            reveal_with_fuel(find_forward, 2);
        }
        return None;
    }
    let mut k = state.cursor.col + 1;
    while k < line.len()
        invariant
            state.cursor.col + 1 <= k <= line@.len(),
            line@.len() <= isize::MAX,
            state.cursor.row < state.text().len(),
            line@ == state.text()[state.cursor.row as int],
            find_forward(line@, k as int, ch) == find_forward(line@, state.cursor.col + 1, ch),
        decreases line@.len() - k,
    {
        if line[k] == ch {
            return Some(k);
        }
        k = k + 1;
    }
    None
}

/// The effect of deleting from the cursor towards the next occurrence of a
/// character on the row: through it (`inclusive`) or up to it.
pub open spec fn delete_find_effect(target: Option<char>, inclusive: bool, old: EditorState, new: EditorState) -> bool {
    match target {
        None => new == old,
        Some(ch) => match find_char_spec(old.text(), old.cursor, ch) {
            None => new == old,
            Some(t) => {
                let row = old.cursor.row as int;
                let col = old.cursor.col as int;
                let line = old.text()[row];
                let to = if inclusive { t + 1 } else { t };
                let r2 = old.text().update(row, cut_row(line, col, to));
                edit_result(
                    old,
                    new,
                    r2,
                    Index2 { col: clamped_col(r2, old.cursor, old.mode), ..old.cursor },
                    true,
                    Some(line.subrange(col, to)),
                )
            },
        },
    }
}

/// Deletes from the cursor towards the next occurrence of a character.
fn delete_find(state: &mut EditorState, target: Option<char>, inclusive: bool)
    ensures
        delete_find_effect(target, inclusive, *old(state), *final(state)),
{
    let ch = match target {
        Some(c) => c,
        None => {
            return;
        },
    };
    let t = match find_char_forward(state, ch) {
        Some(t) => t,
        None => {
            return;
        },
    };
    proof {
        lemma_find_forward_bounds(old(state).text()[old(state).cursor.row as int], old(state).cursor.col + 1, ch);
    }
    state.capture();
    let row = state.cursor.row;
    let to = if inclusive { t + 1 } else { t };
    let deleted = drain_row(&mut state.lines, row, state.cursor.col, to);
    state.clip.set_text(string_from_chars(deleted.as_slice()));
    state.clamp_column();
}

/// Deletes from the cursor up to and including the next occurrence of a
/// character on the line (Vim `df<char>`); nothing if there is none. The
/// character is `None` until the key handler supplies it.
#[derive(Clone, Debug, Copy, PartialEq, Eq, Structural)]
pub struct DeleteFindForward(pub Option<char>);

impl DeleteFindForward {
    pub open spec fn effect(self, old: EditorState, new: EditorState) -> bool {
        delete_find_effect(self.0, true, old, new)
    }

    pub fn execute(&self, state: &mut EditorState)
        ensures
            self.effect(*old(state), *final(state)),
    {
        delete_find(state, self.0, true);
    }

    pub fn is_repeatable(&self) -> (b: bool)
        ensures
            b,
    {
        true
    }
}

/// Deletes from the cursor up to, not including, the next occurrence of a
/// character on the line (Vim `dt<char>`); nothing if there is none.
#[derive(Clone, Debug, Copy, PartialEq, Eq, Structural)]
pub struct DeleteTillForward(pub Option<char>);

impl DeleteTillForward {
    pub open spec fn effect(self, old: EditorState, new: EditorState) -> bool {
        delete_find_effect(self.0, false, old, new)
    }

    pub fn execute(&self, state: &mut EditorState)
        ensures
            self.effect(*old(state), *final(state)),
    {
        delete_find(state, self.0, false);
    }

    pub fn is_repeatable(&self) -> (b: bool)
        ensures
            b,
    {
        true
    }
}

/// The effect of deleting the selection: nothing without one; otherwise the
/// selection is cleared, the state saved for undo, the cursor moved to the
/// selection's start (clamped) and the selected text moved to the clipboard.
pub open spec fn delete_selection_effect(old: EditorState, new: EditorState) -> bool {
    match old.selection {
        None => new == old,
        Some(sel) => {
            let ex = sel.extracted_from(old.text());
            edit_result(
                EditorState { selection: None, ..old },
                new,
                ex.0,
                Index2 { col: clamped_col(old.text(), sel.first(), old.mode), ..sel.first() },
                true,
                Some(crate::lines::joined(ex.1)),
            )
        },
    }
}

/// Moves the cursor to the start of a selection (clamped) and removes the
/// selection's text from the buffer, returning it.
pub fn delete_selection(state: &mut EditorState, sel: &Selection) -> (ex: Lines)
    ensures
        rows(final(state).lines) == sel.extracted_from(rows(old(state).lines)).0,
        rows(ex) == sel.extracted_from(rows(old(state).lines)).1,
        final(state).cursor == (Index2 { col: clamped_col(old(state).text(), sel.first(), old(state).mode), ..sel.first() }),
        *final(state) == (EditorState { lines: final(state).lines, cursor: final(state).cursor, ..*old(state) }),
{
    state.cursor = sel.start();
    state.clamp_column();
    sel.extract_from(&mut state.lines)
}

/// Deletes the selection.
#[derive(Clone, Debug, Copy, PartialEq, Eq, Structural)]
pub struct DeleteSelection;

impl DeleteSelection {
    pub open spec fn effect(self, old: EditorState, new: EditorState) -> bool {
        delete_selection_effect(old, new)
    }

    pub fn execute(&self, state: &mut EditorState)
        ensures
            self.effect(*old(state), *final(state)),
    {
        let taken = state.selection;
        state.selection = None;
        if let Some(sel) = taken {
            state.capture();
            let ex = delete_selection(state, &sel);
            state.clip.set_text(lines_into_string(ex));
        }
    }

    pub fn is_repeatable(&self) -> (b: bool)
        ensures
            b,
    {
        true
    }
}

/// Joins the line below to the current line.
#[derive(Clone, Debug, Copy, PartialEq, Eq, Structural)]
pub struct JoinLineWithLineBelow;

impl JoinLineWithLineBelow {
    /// Nothing on the last row (or beyond); otherwise the state is saved for
    /// undo and the rows joined.
    pub open spec fn effect(self, old: EditorState, new: EditorState) -> bool {
        if old.cursor.row + 1 >= old.text().len() {
            new == old
        } else {
            edit_result(old, new, join_rows(old.text(), old.cursor.row as int), old.cursor, true, None)
        }
    }

    pub fn execute(&self, state: &mut EditorState)
        ensures
            self.effect(*old(state), *final(state)),
    {
        let n = num_rows(&state.lines);
        if n == 0 || state.cursor.row >= n - 1 {
            return;
        }
        state.capture();
        join_lines(&mut state.lines, state.cursor.row);
    }

    pub fn is_repeatable(&self) -> (b: bool)
        ensures
            b,
    {
        true
    }
}

} // verus!
