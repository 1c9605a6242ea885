//! Selecting text objects: inner words, text between delimiters, lines.
use vstd::prelude::*;
use crate::actions::delete::delete_selection;
use crate::index::Index2;
use crate::lines::{Lines, rows, char_at, last_col, get_row, len_col, lines_into_string, joined};
use crate::mode::EditorMode;
use crate::selection::Selection;
use crate::state::{EditorState, edit_result, clamped_col};
use crate::walk::{CharacterClass, class_of, alike, character_class, same_class};

verus! {

/// What ends a text object when scanning away from the cursor.
#[derive(Clone, Copy, Debug, PartialEq, Eq, Structural)]
pub enum Boundary {
    /// An opening and a closing delimiter, both excluded.
    Between(char, char),
    /// A character whose class is not alike to the given one (words).
    Word(CharacterClass),
    /// A character whose whitespace-ness differs from the given one (WORDs).
    BigWord(bool),
}

/// Whether a character ends the object, which then stops just before it.
pub open spec fn stops_before(kind: Boundary, ch: char, opening: bool) -> bool {
    match kind {
        Boundary::Between(o, c) => if opening { ch == o } else { ch == c },
        Boundary::Word(cls) => !alike(class_of(Some(ch)), cls),
        Boundary::BigWord(ws) => (class_of(Some(ch)) == CharacterClass::Whitespace) != ws,
    }
}

/// Whether the object ends at a column, including it: words end at the
/// edges of the row.
pub open spec fn stops_at(kind: Boundary, col: int, edge: int) -> bool {
    match kind {
        Boundary::Between(_, _) => false,
        _ => col == edge,
    }
}

/// Scanning left from `col` (`prev` is the column scanned before): the
/// column where the object starts.
pub open spec fn open_scan(line: Seq<char>, col: int, prev: int, kind: Boundary) -> Option<int>
    decreases col,
{
    if col < 0 || col >= line.len() {
        None
    } else if stops_before(kind, line[col], true) {
        Some(prev)
    } else if stops_at(kind, col, 0) {
        Some(col)
    } else if col == 0 {
        None
    } else {
        open_scan(line, col - 1, col, kind)
    }
}

/// Scanning right from `col`: the column where the object ends.
pub open spec fn close_scan(line: Seq<char>, col: int, prev: int, kind: Boundary) -> Option<int>
    decreases line.len() - col,
{
    if col < 0 || col >= line.len() {
        None
    } else if stops_before(kind, line[col], false) {
        Some(prev)
    } else if stops_at(kind, col, line.len() - 1) {
        Some(col)
    } else {
        close_scan(line, col + 1, col, kind)
    }
}

/// The object around the cursor on its row, if the cursor is on a character
/// and both ends are found.
pub open spec fn select_between_spec(r: Seq<Seq<char>>, cursor: Index2, kind: Boundary) -> Option<Selection> {
    if cursor.row >= r.len() || cursor.col >= r[cursor.row as int].len() {
        None
    } else {
        let line = r[cursor.row as int];
        let c = cursor.col as int;
        // Both ends are columns of the cursor's row, so they fit in `usize`
        // as the row's length does.
        match (open_scan(line, c, c, kind), close_scan(line, c, c, kind)) {
            (Some(o), Some(e)) => Some(Selection {
                start: Index2 { row: cursor.row, col: o as usize },
                end: Index2 { row: cursor.row, col: e as usize },
                line_mode: false,
            }),
            _ => None,
        }
    }
}

fn stop_before(kind: Boundary, ch: char, opening: bool) -> (b: bool)
    ensures
        b == stops_before(kind, ch, opening),
{
    match kind {
        Boundary::Between(o, c) => if opening { ch == o } else { ch == c },
        Boundary::Word(cls) => !same_class(character_class(Some(ch)), cls),
        Boundary::BigWord(ws) => {
            let is_ws = match character_class(Some(ch)) {
                CharacterClass::Whitespace => true,
                _ => false,
            };
            is_ws != ws
        },
    }
}

fn stop_at(kind: Boundary, col: usize, edge: usize) -> (b: bool)
    ensures
        b == stops_at(kind, col as int, edge as int),
{
    match kind {
        Boundary::Between(_, _) => false,
        _ => col == edge,
    }
}

fn scan_open(line: &Vec<char>, start: usize, kind: Boundary) -> (r: Option<usize>)
    requires
        start < line@.len(),
    ensures
        r matches Some(x) ==> open_scan(line@, start as int, start as int, kind) == Some(x as int),
        r is None ==> open_scan(line@, start as int, start as int, kind) is None,
{
    let mut col = start;
    let mut prev = start;
    loop
        invariant
            col <= start < line@.len(),
            open_scan(line@, col as int, prev as int, kind) == open_scan(line@, start as int, start as int, kind),
        decreases col,
    {
        if stop_before(kind, line[col], true) {
            return Some(prev);
        }
        if stop_at(kind, col, 0) {
            return Some(col);
        }
        if col == 0 {
            return None;
        }
        prev = col;
        col = col - 1;
    }
}

fn scan_close(line: &Vec<char>, start: usize, kind: Boundary) -> (r: Option<usize>)
    requires
        start < line@.len(),
    ensures
        r matches Some(x) ==> close_scan(line@, start as int, start as int, kind) == Some(x as int),
        r is None ==> close_scan(line@, start as int, start as int, kind) is None,
{
    let len = line.len();
    let mut col = start;
    let mut prev = start;
    while col < len
        invariant
            start <= col <= len,
            len == line@.len(),
            prev <= col,
            close_scan(line@, col as int, prev as int, kind) == close_scan(line@, start as int, start as int, kind),
        decreases len - col,
    {
        if stop_before(kind, line[col], false) {
            return Some(prev);
        }
        if stop_at(kind, col, len - 1) {
            return Some(col);
        }
        prev = col;
        col = col + 1;
    }
    None
}

/// Finds the object around the cursor on its row.
pub fn select_between(lines: &Lines, cursor: Index2, kind: Boundary) -> (r: Option<Selection>)
    ensures
        r == select_between_spec(rows(*lines), cursor, kind),
{
    let line = match get_row(lines, cursor.row) {
        Some(l) => l,
        None => {
            return None;
        },
    };
    if cursor.col >= line.len() {
        return None;
    }
    let opening = scan_open(&line, cursor.col, kind);
    let closing = scan_close(&line, cursor.col, kind);
    match (opening, closing) {
        (Some(o), Some(e)) => Some(Selection::new(Index2::new(cursor.row, o), Index2::new(cursor.row, e))),
        _ => None,
    }
}

/// The selection after looking for an object: the object if found, the
/// earlier selection otherwise.
pub open spec fn object_selection(old: EditorState, kind: Boundary) -> Option<Selection> {
    match select_between_spec(old.text(), old.cursor, kind) {
        Some(s) => Some(s),
        None => old.selection,
    }
}

/// The boundary of the word (or WORD) under the cursor.
pub open spec fn word_boundary(r: Seq<Seq<char>>, cursor: Index2, big: bool) -> Boundary {
    if big {
        Boundary::BigWord(class_of(char_at(r, cursor)) == CharacterClass::Whitespace)
    } else {
        Boundary::Word(class_of(char_at(r, cursor)))
    }
}

/// Selects the object around the cursor, if there is one.
fn select_object(state: &mut EditorState, kind: Boundary)
    ensures
        *final(state) == (EditorState { selection: object_selection(*old(state), kind), ..*old(state) }),
{
    if let Some(sel) = select_between(&state.lines, state.cursor, kind) {
        state.selection = Some(sel);
    }
}

/// Selects the word (or WORD) under the cursor. Nothing happens on a row
/// that does not exist.
fn select_word(state: &mut EditorState, big: bool)
    ensures
        old(state).cursor.row >= old(state).text().len() ==> *final(state) == *old(state),
        old(state).cursor.row < old(state).text().len() ==> *final(state) == (EditorState {
            selection: object_selection(*old(state), word_boundary(old(state).text(), old(state).cursor, big)),
            ..*old(state)
        }),
{
    if len_col(&state.lines, state.cursor.row).is_none() {
        return;
    }
    let c = crate::lines::get_char(&state.lines, state.cursor);
    let cls = character_class(c);
    let kind = if big {
        let is_ws = match cls {
            CharacterClass::Whitespace => true,
            _ => false,
        };
        Boundary::BigWord(is_ws)
    } else {
        Boundary::Word(cls)
    };
    select_object(state, kind);
}

/// The selection after selecting the word (or WORD) under the cursor.
pub open spec fn word_selection(old: EditorState, big: bool) -> Option<Selection> {
    if old.cursor.row >= old.text().len() {
        old.selection
    } else {
        object_selection(old, word_boundary(old.text(), old.cursor, big))
    }
}

/// Selects the text between two delimiters around the cursor, both
/// excluded.
#[derive(Clone, Debug, Copy, PartialEq, Eq, Structural)]
pub struct SelectInnerBetween {
    opening: char,
    closing: char,
}

/// The object between two delimiters.
pub closed spec fn select_inner_between(opening: char, closing: char) -> SelectInnerBetween {
    SelectInnerBetween { opening, closing }
}

impl SelectInnerBetween {
    /// The opening delimiter.
    pub closed spec fn opening(self) -> char {
        self.opening
    }

    /// The closing delimiter.
    pub closed spec fn closing(self) -> char {
        self.closing
    }

    pub fn new(opening: char, closing: char) -> (s: Self)
        ensures
            s.opening() == opening,
            s.closing() == closing,
            s == select_inner_between(opening, closing),
    {
        SelectInnerBetween { opening, closing }
    }

    pub open spec fn effect(self, old: EditorState, new: EditorState) -> bool {
        new == (EditorState { selection: object_selection(old, Boundary::Between(self.opening(), self.closing())), ..old })
    }

    pub fn execute(&self, state: &mut EditorState)
        ensures
            self.effect(*old(state), *final(state)),
    {
        select_object(state, Boundary::Between(self.opening, self.closing));
    }
}

/// Selects the word under the cursor.
#[derive(Clone, Debug, Copy, PartialEq, Eq, Structural)]
pub struct SelectInnerWord;

impl SelectInnerWord {
    pub open spec fn effect(self, old: EditorState, new: EditorState) -> bool {
        new == (EditorState { selection: word_selection(old, false), ..old })
    }

    pub fn execute(&self, state: &mut EditorState)
        ensures
            self.effect(*old(state), *final(state)),
    {
        select_word(state, false);
    }
}

/// Selects the WORD (run of non-whitespace or of whitespace) under the
/// cursor.
#[derive(Clone, Debug, Copy, PartialEq, Eq, Structural)]
pub struct SelectInnerBigWord;

impl SelectInnerBigWord {
    pub open spec fn effect(self, old: EditorState, new: EditorState) -> bool {
        new == (EditorState { selection: word_selection(old, true), ..old })
    }

    pub fn execute(&self, state: &mut EditorState)
        ensures
            self.effect(*old(state), *final(state)),
    {
        select_word(state, true);
    }
}

/// Deleting the selection that `mid` holds, if any, and then setting the
/// mode: the selection is cleared, the state saved for undo, the cursor
/// moved to the selection's start (clamped in `mid`'s mode) and the text
/// moved to the clipboard.
pub open spec fn delete_taken_selection(mid: EditorState, new: EditorState, mode: EditorMode) -> bool {
    match mid.selection {
        None => new == (EditorState { mode, ..mid }),
        Some(sel) => {
            let ex = sel.extracted_from(mid.text());
            edit_result(
                EditorState { selection: None, mode, ..mid },
                new,
                ex.0,
                Index2 { col: clamped_col(mid.text(), sel.first(), mid.mode), ..sel.first() },
                true,
                Some(joined(ex.1)),
            )
        },
    }
}

/// Deletes the selection, if there is one, and sets the mode.
pub fn delete_taken(state: &mut EditorState, mode: EditorMode)
    ensures
        delete_taken_selection(*old(state), *final(state), mode),
{
    let taken = state.selection;
    state.selection = None;
    if let Some(sel) = taken {
        state.capture();
        let ex = delete_selection(state, &sel);
        state.clip.set_text(lines_into_string(ex));
    }
    state.mode = mode;
}

/// Deletes the word under the cursor and stays in normal mode (`diw`).
#[derive(Clone, Debug, Copy, PartialEq, Eq, Structural)]
pub struct DeleteInnerWord;

impl DeleteInnerWord {
    pub open spec fn effect(self, old: EditorState, new: EditorState) -> bool {
        delete_taken_selection(EditorState { selection: word_selection(old, false), ..old }, new, EditorMode::Normal)
    }

    pub fn execute(&self, state: &mut EditorState)
        ensures
            self.effect(*old(state), *final(state)),
    {
        select_word(state, false);
        delete_taken(state, EditorMode::Normal);
    }
}

/// Deletes the WORD under the cursor and stays in normal mode (`diW`).
#[derive(Clone, Debug, Copy, PartialEq, Eq, Structural)]
pub struct DeleteInnerBigWord;

impl DeleteInnerBigWord {
    pub open spec fn effect(self, old: EditorState, new: EditorState) -> bool {
        delete_taken_selection(EditorState { selection: word_selection(old, true), ..old }, new, EditorMode::Normal)
    }

    pub fn execute(&self, state: &mut EditorState)
        ensures
            self.effect(*old(state), *final(state)),
    {
        select_word(state, true);
        delete_taken(state, EditorMode::Normal);
    }
}

/// Deletes the text between two delimiters around the cursor and stays in
/// normal mode (`di<delim>`).
#[derive(Clone, Debug, Copy, PartialEq, Eq, Structural)]
pub struct DeleteInnerBetween {
    opening: char,
    closing: char,
}

/// The object between two delimiters.
pub closed spec fn delete_inner_between(opening: char, closing: char) -> DeleteInnerBetween {
    DeleteInnerBetween { opening, closing }
}

impl DeleteInnerBetween {
    /// The opening delimiter.
    pub closed spec fn opening(self) -> char {
        self.opening
    }

    /// The closing delimiter.
    pub closed spec fn closing(self) -> char {
        self.closing
    }

    pub fn new(opening: char, closing: char) -> (s: Self)
        ensures
            s.opening() == opening,
            s.closing() == closing,
            s == delete_inner_between(opening, closing),
    {
        DeleteInnerBetween { opening, closing }
    }

    pub open spec fn effect(self, old: EditorState, new: EditorState) -> bool {
        delete_taken_selection(
            EditorState { selection: object_selection(old, Boundary::Between(self.opening(), self.closing())), ..old },
            new,
            EditorMode::Normal,
        )
    }

    pub fn execute(&self, state: &mut EditorState)
        ensures
            self.effect(*old(state), *final(state)),
    {
        select_object(state, Boundary::Between(self.opening, self.closing));
        delete_taken(state, EditorMode::Normal);
    }
}

/// Selects the current line, line-wise, and enters visual mode.
#[derive(Clone, Debug, Copy, PartialEq, Eq, Structural)]
pub struct SelectLine;

impl SelectLine {
    /// On an existing row: the whole row is selected line-wise and the mode
    /// is visual; otherwise nothing happens.
    pub open spec fn effect(self, old: EditorState, new: EditorState) -> bool {
        let row = old.cursor.row;
        if row >= old.text().len() {
            new == old
        } else {
            new == (EditorState {
                selection: Some(Selection {
                    start: Index2 { row, col: 0 },
                    end: Index2 { row, col: last_col(old.text(), row as int) as usize },
                    line_mode: true,
                }),
                mode: EditorMode::Visual,
                ..old
            })
        }
    }

    pub fn execute(&self, state: &mut EditorState)
        ensures
            self.effect(*old(state), *final(state)),
    {
        let row = state.cursor.row;
        if let Some(len) = len_col(&state.lines, row) {
            let start = Index2::new(row, 0);
            let end = Index2::new(row, if len > 0 { len - 1 } else { 0 });
            state.selection = Some(Selection::new(start, end).line_mode());
            state.mode = EditorMode::Visual;
        }
    }
}

} // verus!
