//! Mouse events: clicks place the cursor, drags select.
use vstd::prelude::*;
use crate::actions::switch::SwitchMode;
use crate::index::Index2;
use crate::lines::{rows, get_row, num_rows, last_col_index, last_col, rows_of_vecs};
use crate::mode::EditorMode;
use crate::selection::{Selection, set_selection};
use crate::state::{EditorState, clamped_cursor};
use crate::text::{char_width, display_width, cols_before};
use crate::view::{LineWrapper, wrapped, total_len, lemma_total_len_prefix, lemma_wrap_keeps_length};

verus! {

/// Where on the screen a mouse event happened.
#[derive(Debug, Clone, Copy, PartialEq, Eq, Structural, Hash)]
pub struct MousePosition {
    /// The screen row.
    pub row: usize,
    /// The screen column.
    pub col: usize,
}

impl MousePosition {
    /// A position from a screen row and column.
    pub fn new(row: u16, col: u16) -> (p: Self)
        ensures
            p.row == row,
            p.col == col,
    {
        MousePosition { row: row as usize, col: col as usize }
    }
}

/// A mouse event that the editor handles.
#[derive(Debug, Clone, Copy, PartialEq, Eq, Structural, Hash)]
pub enum MouseEvent {
    /// A button was pressed.
    Down(MousePosition),
    /// A button was released.
    Up(MousePosition),
    /// The mouse moved with a button held.
    Drag(MousePosition),
    /// Any other mouse event: the editor ignores it.
    Ignored,
}

/// The buffer column under screen position (`row`, `col`) of a wrapped row:
/// the characters on the screen rows above, plus those on its own screen row
/// that end at or left of the column.
pub open spec fn column_in_wrapped(w: Seq<Seq<char>>, row: int, col: int, tab_width: usize) -> int {
    if 0 <= row < w.len() {
        total_len(w.take(row)) + cols_before(w[row], 0, 0, col, tab_width)
    } else {
        0
    }
}

/// The buffer position under screen row `mrow` (counted from the viewport
/// top) when rows wrap, walking the buffer rows from `row` on with `shown`
/// screen rows above it.
pub open spec fn wrapped_target(
    r: Seq<Seq<char>>,
    row: int,
    shown: int,
    mrow: int,
    mcol: int,
    width: usize,
    tab_width: usize,
    vx: int,
) -> (int, int)
    decreases r.len() - row,
{
    if row < 0 || row >= r.len() {
        (row, vx)
    } else {
        let w = wrapped(r[row], width, tab_width);
        let h = if w.len() > 1 { w.len() as int } else { 1 };
        if shown + h > mrow {
            (row, column_in_wrapped(w, mrow - shown, mcol, tab_width))
        } else {
            wrapped_target(r, row + 1, shown + h, mrow, mcol, width, tab_width, vx)
        }
    }
}

/// `a + b`, capped at `usize::MAX`.
pub open spec fn sat_add(a: int, b: int) -> int {
    if a + b > usize::MAX { usize::MAX as int } else { a + b }
}

/// `a - b`, but not below zero.
pub open spec fn sat_sub(a: int, b: int) -> int {
    if a > b { a - b } else { 0 }
}

/// The buffer position under a mouse position, before it is clamped to the
/// buffer: the screen position is taken relative to the text area and then
/// offset by the viewport; with wrapping, screen rows are counted per
/// wrapped buffer row.
pub open spec fn mouse_target(s: EditorState, m: MousePosition) -> (int, int) {
    let mrow = sat_sub(m.row as int, s.view.screen_area.y as int);
    let mcol = sat_sub(m.col as int, s.view.screen_area.x as int);
    if !s.view.wrap {
        (sat_add(mrow, s.view.viewport.y as int), sat_add(mcol, s.view.viewport.x as int))
    } else {
        wrapped_target(rows(s.lines), s.view.viewport.y as int, 0, mrow, mcol, s.view.screen_area.width as usize,
            s.view.tab_width, s.view.viewport.x as int)
    }
}

/// A target position clamped into the buffer: a row past the last goes to
/// the end of the last row, a column past the end of its row to that end.
pub open spec fn clamp_target(r: Seq<Seq<char>>, t: (int, int)) -> Index2 {
    let last_row = if r.len() > 0 { r.len() - 1 } else { 0 };
    if last_row < t.0 {
        Index2 { row: last_row as usize, col: last_col(r, last_row) as usize }
    } else if last_col(r, t.0) < t.1 {
        Index2 { row: t.0 as usize, col: last_col(r, t.0) as usize }
    } else {
        Index2 { row: t.0 as usize, col: t.1 as usize }
    }
}

/// Where a mouse event at `m` puts the cursor.
pub open spec fn mouse_cursor(s: EditorState, m: MousePosition) -> Index2 {
    clamp_target(rows(s.lines), mouse_target(s, m))
}

/// What a mouse event does to the editor: a press clears the selection,
/// leaves visual mode and places the cursor; a release places the cursor; a
/// drag enters visual mode (starting the selection at the cursor), places
/// the cursor and moves the end of the selection to it.
pub open spec fn mouse_effect(ev: MouseEvent, old: EditorState, new: EditorState) -> bool {
    match ev {
        MouseEvent::Ignored => new == old,
        MouseEvent::Down(m) => {
            let mode = if old.mode == EditorMode::Visual { EditorMode::Normal } else { old.mode };
            &&& new == (EditorState { mode, selection: None, cursor: mouse_cursor(old, m), undo: new.undo, ..old })
            &&& new.undo.states() == old.undo.states()
        },
        MouseEvent::Up(m) => new == (EditorState { cursor: mouse_cursor(old, m), ..old }),
        MouseEvent::Drag(m) => {
            let c = mouse_cursor(old, m);
            let sel = if old.mode != EditorMode::Visual {
                Some(Selection { start: clamped_cursor(old), end: c, line_mode: false })
            } else {
                match old.selection {
                    Some(s) => Some(Selection { end: c, ..s }),
                    None => None,
                }
            };
            &&& new == (EditorState { mode: EditorMode::Visual, selection: sel, cursor: c, undo: new.undo, ..old })
            &&& new.undo.states() == old.undo.states()
        },
    }
}

/// Handles mouse events.
#[derive(Clone, Debug, Default)]
pub struct MouseEventHandler {}

impl MouseEventHandler {
    /// Handles a mouse event.
    pub fn on_event(event: MouseEvent, state: &mut EditorState)
        ensures
            mouse_effect(event, *old(state), *final(state)),
    {
        let m = match event {
            MouseEvent::Down(m) => m,
            MouseEvent::Up(m) => m,
            MouseEvent::Drag(m) => m,
            MouseEvent::Ignored => {
                return;
            },
        };
        let ghost s0 = *state;
        let target = mouse_position_to_cursor_position(state, &m, state.view.tab_width);
        assert((target.row as int, target.col as int) == mouse_target(s0, m));
        if let MouseEvent::Down(_) = event {
            state.selection = None;
            if state.mode == EditorMode::Visual {
                SwitchMode(EditorMode::Normal).execute(state);
            }
        }
        if let MouseEvent::Drag(_) = event {
            if state.mode != EditorMode::Visual {
                SwitchMode(EditorMode::Visual).execute(state);
            }
            let c = state.cursor;
            set_selection(&mut state.selection, c);
        }
        let last_row = num_rows(&state.lines).saturating_sub(1);
        let last_col = last_col_index(&state.lines, target.row);
        let cursor = if last_row < target.row {
            Index2::new(last_row, last_col_index(&state.lines, last_row))
        } else if last_col < target.col {
            Index2::new(target.row, last_col)
        } else {
            target
        };
        state.cursor = cursor;
        if let MouseEvent::Drag(_) = event {
            set_selection(&mut state.selection, cursor);
        }
    }
}

/// The buffer position under a mouse position, before it is clamped to the
/// buffer.
pub fn mouse_position_to_cursor_position(state: &EditorState, mouse: &MousePosition, tab_width: usize) -> (i: Index2)
    requires
        tab_width == state.view.tab_width,
    ensures
        (i.row as int, i.col as int) == mouse_target(*state, *mouse),
{
    let vy = state.view.viewport.y;
    let vx = state.view.viewport.x;
    let mrow = mouse.row.saturating_sub(state.view.screen_area.y as usize);
    let mcol = mouse.col.saturating_sub(state.view.screen_area.x as usize);
    if !state.view.wrap {
        return Index2::new(mrow.saturating_add(vy), mcol.saturating_add(vx));
    }
    let width = state.view.screen_area.width as usize;
    let ghost r = rows(state.lines);
    let len = num_rows(&state.lines);
    let mut row: usize = vy;
    let mut shown: usize = 0;
    while row < len
        invariant
            r == rows(state.lines),
            len == r.len(),
            shown <= mrow,
            tab_width == state.view.tab_width,
            mouse_target(*state, *mouse) == wrapped_target(r, row as int, shown as int, mrow as int, mcol as int, width, tab_width, vx as int),
            mrow == sat_sub(mouse.row as int, state.view.screen_area.y as int),
            mcol == sat_sub(mouse.col as int, state.view.screen_area.x as int),
            width == state.view.screen_area.width as usize,
            vx == state.view.viewport.x,
        decreases len - row,
    {
        let line = match get_row(&state.lines, row) {
            Some(v) => v,
            None => {
                return Index2::new(row, vx);
            },
        };
        let wrapped_line = LineWrapper::wrap_line(line.as_slice(), width, tab_width);
        let h = if wrapped_line.len() > 1 { wrapped_line.len() } else { 1 };
        if h > mrow - shown {
            let m = Index2::new(mrow - shown, mcol);
            proof {
                lemma_wrap_keeps_length(line@, 0, seq![], 0, width, tab_width);
            }
            let col = find_cursor_column_in_wrapped_line(wrapped_line.as_slice(), &m, tab_width);
            return Index2::new(row, col);
        }
        shown = shown + h;
        row = row + 1;
    }
    Index2::new(row, vx)
}

/// The buffer column under a screen position (`mouse.row` counted from the
/// first screen row of a wrapped row).
pub fn find_cursor_column_in_wrapped_line(line: &[Vec<char>], mouse: &Index2, tab_width: usize) -> (c: usize)
    requires
        total_len(rows_of_vecs(line@)) <= usize::MAX,
    ensures
        c == column_in_wrapped(rows_of_vecs(line@), mouse.row as int, mouse.col as int, tab_width),
{
    let ghost w = rows_of_vecs(line@);
    if mouse.row >= line.len() {
        return 0;
    }
    let mut offset: usize = 0;
    let mut j: usize = 0;
    while j < mouse.row
        invariant
            w == rows_of_vecs(line@),
            mouse.row < w.len(),
            j <= mouse.row,
            offset == total_len(w.take(j as int)),
            total_len(w) <= usize::MAX,
        decreases mouse.row - j,
    {
        proof {
            assert(w.take(j + 1).drop_last() =~= w.take(j as int));
            lemma_total_len_prefix(w, j + 1);
        }
        offset = offset + line[j].len();
        j = j + 1;
    }
    let l = &line[mouse.row];
    let ghost lv = l@;
    let col = mouse.col;
    let mut width: usize = 0;
    let mut k: usize = 0;
    while k < l.len()
        invariant
            lv == l@,
            k <= lv.len(),
            width <= col,
            cols_before(lv, 0, 0, col as int, tab_width) == k + cols_before(lv, k as int, width as int, col as int, tab_width),
        ensures
            k <= lv.len(),
            cols_before(lv, 0, 0, col as int, tab_width) == k,
        decreases lv.len() - k,
    {
        let cw = char_width(l[k], tab_width);
        if cw > col || width > col - cw {
            break;
        }
        width = width + cw;
        k = k + 1;
    }
    proof {
        assert(w[mouse.row as int] == lv);
        lemma_total_len_prefix(w, mouse.row + 1);
        assert(w.take(mouse.row + 1).drop_last() =~= w.take(mouse.row as int));
    }
    offset + k
}

} // verus!
