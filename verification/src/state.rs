//! The state of an editor: text, cursor, mode, selection and history.
use vstd::prelude::*;
use crate::actions::{Action, Execute, action_effect, action_repeatable, same_action};
use crate::buffer::{max_col, max_col_spec};
use crate::clipboard::{Clipboard, ClipboardTrait};
use crate::index::Index2;
use crate::lines::{Lines, rows, clone_lines, empty_lines, get_row, num_rows};
use crate::mode::EditorMode;
use crate::search::SearchState;
use crate::selection::Selection;
use crate::highlight::Highlight;
use crate::undo::{Stack, UndoState, push_bounded, MAX_UNDO_STATES};
use crate::view::{ViewState, ScreenPosition};

verus! {

/// The state of an editor.
pub struct EditorState {
    /// The text in the editor.
    pub lines: Lines,
    /// The cursor position.
    pub cursor: Index2,
    /// The mode (normal, insert, visual or search).
    pub mode: EditorMode,
    /// The selection, if any.
    pub selection: Option<Selection>,
    /// The view: viewport, tab width, line wrapping.
    pub view: ViewState,
    /// The state of the current search.
    pub search: SearchState,
    /// Earlier states, for undo.
    pub undo: Stack,
    /// Undone states, for redo.
    pub redo: Stack,
    /// The clipboard for yank and paste.
    pub clip: Clipboard,
    /// A system editor was requested.
    pub system_edit_requested: bool,
    /// The last change, which the dot command repeats.
    pub last_change: Option<Action>,
    /// The text typed in insert mode after the last change, if it entered
    /// insert mode.
    pub last_insert: Option<Vec<char>>,
    /// Ranges of text shown in styles of the caller's choosing.
    pub highlights: Vec<Highlight>,
}

/// The column the cursor is clamped to in the given mode.
pub open spec fn clamped_col(r: Seq<Seq<char>>, cursor: Index2, mode: EditorMode) -> usize {
    if cursor.col <= max_col_spec(r, cursor, mode) { cursor.col } else { max_col_spec(r, cursor, mode) as usize }
}

/// The cursor of `s` with its column clamped to what the mode allows.
pub open spec fn clamped_cursor(s: EditorState) -> Index2 {
    Index2 { col: clamped_col(rows(s.lines), s.cursor, s.mode), ..s.cursor }
}

/// The undo stack of `s` after its text and cursor were saved on it.
pub open spec fn captured(s: EditorState) -> Seq<(Seq<Seq<char>>, Index2)> {
    push_bounded(s.undo.states(), s.snapshot(), MAX_UNDO_STATES as int)
}

/// `new` agrees with `old` on everything but the text, the cursor, the undo
/// stack and the clipboard.
pub open spec fn frame(old: EditorState, new: EditorState) -> bool {
    &&& new.mode == old.mode
    &&& new.selection == old.selection
    &&& new.view == old.view
    &&& new.search == old.search
    &&& new.redo == old.redo
    &&& new.system_edit_requested == old.system_edit_requested
    &&& new.last_change == old.last_change
    &&& new.last_insert == old.last_insert
    &&& new.highlights == old.highlights
}

/// The outcome of an edit: `new` holds `text` and `cursor`; its undo stack
/// saved `old`'s text and cursor if `save` holds; its clipboard holds `clip`
/// if one is given and is unchanged otherwise.
pub open spec fn edit_result(
    old: EditorState,
    new: EditorState,
    text: Seq<Seq<char>>,
    cursor: Index2,
    save: bool,
    clip: Option<Seq<char>>,
) -> bool {
    &&& frame(old, new)
    &&& rows(new.lines) == text
    &&& new.cursor == cursor
    &&& new.undo.states() == (if save { captured(old) } else { old.undo.states() })
    &&& match clip {
        None => new.clip == old.clip,
        Some(t) => new.clip.after_set(old.clip, t),
    }
}

/// The state after an undo: without saved states nothing changes; otherwise
/// the last saved text and cursor come back, and the current ones are saved
/// for redo.
pub open spec fn undo_result(old: EditorState, new: EditorState) -> bool {
    if old.undo.states().len() == 0 {
        new == old
    } else {
        &&& new == (EditorState { lines: new.lines, cursor: new.cursor, undo: new.undo, redo: new.redo, ..old })
        &&& new.snapshot() == old.undo.states().last()
        &&& new.undo.states() == old.undo.states().drop_last()
        &&& new.redo.states() == push_bounded(old.redo.states(), old.snapshot(), MAX_UNDO_STATES as int)
    }
}

/// The state after a redo: without undone states nothing changes;
/// otherwise the last undone text and cursor come back, and the current ones
/// are saved for undo.
pub open spec fn redo_result(old: EditorState, new: EditorState) -> bool {
    if old.redo.states().len() == 0 {
        new == old
    } else {
        &&& new == (EditorState { lines: new.lines, cursor: new.cursor, undo: new.undo, redo: new.redo, ..old })
        &&& new.snapshot() == old.redo.states().last()
        &&& new.redo.states() == old.redo.states().drop_last()
        &&& new.undo.states() == push_bounded(old.undo.states(), old.snapshot(), MAX_UNDO_STATES as int)
    }
}

/// The state after an action ran through the key handler: if the dot
/// command repeats the action, a copy of it becomes the last change, and
/// the text typed after it is collected afresh when it left the editor in
/// insert mode.
pub open spec fn recorded_effect(a: Action, old: EditorState, new: EditorState) -> bool {
    exists|mid: EditorState| {
        &&& #[trigger] action_effect(a, old, mid, true)
        &&& !action_repeatable(a) ==> new == mid
        &&& action_repeatable(a) ==> {
            &&& new == (EditorState { last_change: new.last_change, last_insert: new.last_insert, ..mid })
            &&& new.last_change matches Some(b) && same_action(a, b)
            &&& if mid.mode == EditorMode::Insert {
                new.last_insert matches Some(t) && t@ == Seq::<char>::empty()
            } else {
                new.last_insert is None
            }
        }
    }
}

impl EditorState {
    /// The rows of the text.
    pub open spec fn text(&self) -> Seq<Seq<char>> {
        rows(self.lines)
    }

    /// The text and cursor, as the undo history saves them.
    pub open spec fn snapshot(&self) -> (Seq<Seq<char>>, Index2) {
        (rows(self.lines), self.cursor)
    }

    /// Creates a state for the given text, with the cursor at the start, in
    /// normal mode.
    pub fn new(lines: Lines) -> (s: Self)
        ensures
            s.text() == rows(lines),
            s.cursor == (Index2 { row: 0, col: 0 }),
            s.mode == EditorMode::Normal,
            s.selection is None,
            s.undo.states().len() == 0,
            s.redo.states().len() == 0,
            s.clip.is_internal() ==> s.clip.contents() == Seq::<char>::empty(),
            s.view.is_initial(),
            s.search.is_initial(),
            s.last_change is None,
            s.last_insert is None,
            !s.system_edit_requested,
            s.highlights@.len() == 0,
    {
        EditorState {
            lines,
            cursor: Index2::new(0, 0),
            mode: EditorMode::Normal,
            selection: None,
            view: ViewState::new(),
            search: SearchState::new(),
            undo: Stack::new(),
            redo: Stack::new(),
            clip: Clipboard::default(),
            system_edit_requested: false,
            last_change: None,
            last_insert: None,
            highlights: Vec::new(),
        }
    }

    /// Executes an action.
    pub fn execute<E: Execute>(&mut self, action: E)
        ensures
            action.executes(*old(self), *final(self)),
    {
        let mut action = action;
        action.execute(self);
    }

    /// Executes an action and records it for the dot command if the dot
    /// command repeats it.
    pub fn execute_recorded(&mut self, action: &Action)
        ensures
            recorded_effect(*action, *old(self), *final(self)),
    {
        let repeatable = action.is_repeatable();
        action.run(self, true);
        let ghost mid = *self;
        if repeatable {
            self.last_change = Some(action.duplicate());
            self.last_insert = if self.mode == EditorMode::Insert { Some(Vec::new()) } else { None };
        }
        assert(action_effect(*action, *old(self), mid, true));
    }

    /// Adds a character typed in insert mode to the text that the dot
    /// command replays, if such text is being collected.
    pub fn record_typed(&mut self, c: char)
        ensures
            *final(self) == (EditorState { last_insert: final(self).last_insert, ..*old(self) }),
            old(self).last_insert is None ==> final(self).last_insert is None,
            old(self).last_insert matches Some(t) ==>
                final(self).last_insert matches Some(u) && u@ == t@.push(c),
    {
        if let Some(t) = &mut self.last_insert {
            t.push(c);
        }
    }

    /// Replaces the clipboard.
    pub fn set_clipboard<C: ClipboardTrait + 'static>(&mut self, clipboard: C)
        ensures
            !final(self).clip.is_internal(),
            *final(self) == (EditorState { clip: final(self).clip, ..*old(self) }),
    {
        self.clip = Clipboard::new(clipboard);
    }

    /// Returns the current search pattern.
    pub fn search_pattern(&self) -> (s: String)
        ensures
            s@ == self.search.pattern@,
    {
        self.search.pattern_string()
    }

    /// Clamps the cursor column: to `len - 1` in normal mode, to `len`
    /// otherwise.
    pub fn clamp_column(&mut self)
        ensures
            *final(self) == (EditorState { cursor: clamped_cursor(*old(self)), ..*old(self) }),
            final(self).cursor.col <= isize::MAX,
    {
        let max = max_col(&self.lines, &self.cursor, self.mode);
        if self.cursor.col > max {
            self.cursor.col = max;
        }
    }

    /// Saves the text and cursor on the undo stack.
    pub fn capture(&mut self)
        ensures
            final(self).undo.states() == captured(*old(self)),
            *final(self) == (EditorState { undo: final(self).undo, ..*old(self) }),
    {
        let saved = UndoState { lines: clone_lines(&self.lines), cursor: self.cursor };
        self.undo.push(saved);
    }

    /// Restores the most recently saved text and cursor; the current ones
    /// move onto the redo stack. Does nothing if there is nothing to undo.
    pub fn undo(&mut self)
        ensures
            undo_result(*old(self), *final(self)),
    {
        if self.undo.len() == 0 {
            return;
        }
        if let Some(prev) = self.undo.pop() {
            let current = UndoState { lines: clone_lines(&self.lines), cursor: self.cursor };
            self.lines = prev.lines;
            self.cursor = prev.cursor;
            self.redo.push(current);
        }
    }

    /// Restores the most recently undone text and cursor; the current ones
    /// move onto the undo stack. Does nothing if there is nothing to redo.
    pub fn redo(&mut self)
        ensures
            redo_result(*old(self), *final(self)),
    {
        if self.redo.len() == 0 {
            return;
        }
        if let Some(prev) = self.redo.pop() {
            let current = UndoState { lines: clone_lines(&self.lines), cursor: self.cursor };
            self.lines = prev.lines;
            self.cursor = prev.cursor;
            self.undo.push(current);
        }
    }

    /// Enables or disables single-line mode, in which newlines are blocked.
    pub fn set_single_line(&mut self, single_line: bool)
        ensures
            *final(self) == (EditorState { view: ViewState { single_line, ..old(self).view }, ..*old(self) }),
    {
        self.view.single_line = single_line;
    }

    /// Whether single-line mode is enabled.
    pub fn is_single_line(&self) -> (b: bool)
        ensures
            b == self.view.single_line,
    {
        self.view.single_line
    }

    /// The cursor's position on the screen, computed during the last render.
    pub fn cursor_screen_position(&self) -> (p: Option<ScreenPosition>)
        ensures
            p == self.view.cursor_screen_position,
    {
        self.view.cursor_screen_position
    }

    /// The viewport offset as (x, y).
    pub fn viewport_offset(&self) -> (o: (usize, usize))
        ensures
            o == (self.view.viewport.x, self.view.viewport.y),
    {
        (self.view.viewport.x, self.view.viewport.y)
    }

    /// Sets the viewport offset.
    pub fn set_viewport_offset(&mut self, x: usize, y: usize)
        ensures
            final(self).view.viewport.x == x,
            final(self).view.viewport.y == y,
            final(self).view.num_rows == old(self).view.num_rows,
            final(self).view.tab_width == old(self).view.tab_width,
            final(self).snapshot() == old(self).snapshot(),
            final(self).mode == old(self).mode,
    {
        self.view.viewport.x = x;
        self.view.viewport.y = y;
    }
}

impl EditorState {
    /// Adds a highlighted range.
    pub fn add_highlight(&mut self, highlight: Highlight)
        ensures
            *final(self) == (EditorState { highlights: final(self).highlights, ..*old(self) }),
            final(self).highlights@ == old(self).highlights@.push(highlight),
    {
        self.highlights.push(highlight);
    }

    /// Removes all highlighted ranges.
    pub fn clear_highlights(&mut self)
        ensures
            *final(self) == (EditorState { highlights: final(self).highlights, ..*old(self) }),
            final(self).highlights@.len() == 0,
    {
        self.highlights.clear();
    }

    /// Replaces the highlighted ranges.
    pub fn set_highlights(&mut self, highlights: Vec<Highlight>)
        ensures
            *final(self) == (EditorState { highlights, ..*old(self) }),
    {
        self.highlights = highlights;
    }
}

impl Default for EditorState {
    /// A state without text.
    fn default() -> (s: Self)
        ensures
            s.text() == Seq::<Seq<char>>::empty(),
            s.cursor == (Index2 { row: 0, col: 0 }),
            s.mode == EditorMode::Normal,
            s.selection is None,
            s.undo.states().len() == 0,
            s.redo.states().len() == 0,
            s.clip.is_internal() ==> s.clip.contents() == Seq::<char>::empty(),
            s.view.is_initial(),
            s.search.is_initial(),
            s.last_change is None,
            s.last_insert is None,
            !s.system_edit_requested,
            s.highlights@.len() == 0,
    {
        EditorState::new(empty_lines())
    }
}

impl EditorState {
    /// The number of rows of the text.
    pub fn num_rows(&self) -> (n: usize)
        ensures
            n == self.text().len(),
    {
        num_rows(&self.lines)
    }

    /// A copy of a row of the text, if it exists.
    pub fn row(&self, row: usize) -> (r: Option<Vec<char>>)
        ensures
            row < self.text().len() ==> (r matches Some(v) && v@ == self.text()[row as int]),
            row >= self.text().len() ==> r is None,
    {
        get_row(&self.lines, row)
    }
}

impl EditorState {
    /// The cursor as it is drawn: its column clamped to what the mode
    /// allows, the row as it is.
    pub fn display_cursor(&self) -> (c: Index2)
        ensures
            c == clamped_cursor(*self),
    {
        let max = max_col(&self.lines, &self.cursor, self.mode);
        Index2::new(self.cursor.row, if self.cursor.col <= max { self.cursor.col } else { max })
    }
}

} // verus!
