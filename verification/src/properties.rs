//! Properties that relate several operations of the editor.
use vstd::prelude::*;
use crate::clipboard::Clipboard;
use crate::events::input::{KeyInput, altgr_normalized};
use crate::events::key::{lookup_step, prefix_count, to_map, lemma_key_index};
use crate::actions::Action;
use crate::events::key::KeyEventRegister;
use crate::index::{Index2, index_lt};
use crate::lines::last_col;
use crate::events::mouse::clamp_target;
use crate::mode::EditorMode;
use crate::search::{SearchState, next_spec, previous_spec};
use crate::selection::Selection;
use crate::state::{EditorState, captured, edit_result, undo_result, redo_result};
use crate::undo::{push_bounded, MAX_UNDO_STATES};
use crate::buffer::insert_char_spec;
use crate::actions::delete::{delete_char_spec, merge_rows};
use crate::buffer::line_break_rows;
use crate::lines::{row_len, char_at, step_forward, step_backward};
use crate::walk::{matching_bracket_spec, bracket_partner, rows_size, lemma_fwd_retraced, lemma_back_retraced, lemma_bracket_fwd_ends_on_close, lemma_bracket_back_ends_on_close, lemma_forward_then_back, lemma_back_then_forward, lemma_rank_bounded, lemma_bracket_fwd_not_before, lemma_bracket_back_not_after, lemma_step_forward, lemma_step_backward};
use crate::view::{vertical_offset, horizontal_offset, split_widths, chunks, wrap_from, wrapped};

verus! {

/// A bounded push puts the new entry on top.
pub proof fn lemma_push_bounded_last<A>(s: Seq<A>, x: A, max: int)
    requires
        max >= 1,
    ensures
        push_bounded(s, x, max).len() > 0,
        push_bounded(s, x, max).last() == x,
        push_bounded(s, x, max).drop_last() == (if s.len() + 1 > max { s.remove(0) } else { s }),
{
    if s.len() + 1 > max {
        assert(s.push(x).remove(0).drop_last() =~= s.remove(0));
    } else {
        assert(s.push(x).drop_last() =~= s);
    }
}

/// Undo after an edit that saved the state brings back the text and the
/// cursor from before the edit, and leaves everything else as it was then,
/// but for the history and the clipboard.
pub proof fn lemma_undo_reverts_edit(
    s0: EditorState,
    s1: EditorState,
    s2: EditorState,
    text: Seq<Seq<char>>,
    cursor: Index2,
    clip: Option<Seq<char>>,
)
    requires
        edit_result(s0, s1, text, cursor, true, clip),
        undo_result(s1, s2),
    ensures
        s2.snapshot() == s0.snapshot(),
        s2.mode == s0.mode,
        s2.selection == s0.selection,
        s2.view == s0.view,
        s2.search == s0.search,
        s2.highlights == s0.highlights,
        s2.undo.states() == captured(s0).drop_last(),
{
    lemma_push_bounded_last(s0.undo.states(), s0.snapshot(), MAX_UNDO_STATES as int);
}

/// Redo right after an undo brings back the text and cursor from before
/// the undo; the other fields are as they were, and so are both histories
/// while the redo history had room for one more state.
pub proof fn lemma_redo_reverts_undo(s0: EditorState, s1: EditorState, s2: EditorState)
    requires
        s0.undo.states().len() > 0,
        s0.undo.states().len() <= MAX_UNDO_STATES,
        undo_result(s0, s1),
        redo_result(s1, s2),
    ensures
        s2.snapshot() == s0.snapshot(),
        s2 == (EditorState { lines: s2.lines, undo: s2.undo, redo: s2.redo, ..s0 }),
        s2.undo.states() == s0.undo.states(),
        s0.redo.states().len() < MAX_UNDO_STATES ==> s2.redo.states() == s0.redo.states(),
{
    let u = s0.undo.states();
    lemma_push_bounded_last(s0.redo.states(), s0.snapshot(), MAX_UNDO_STATES as int);
    assert(u.drop_last().push(u.last()) =~= u);
}

/// Undo right after a redo brings back the text and cursor from before
/// the redo; the other fields are as they were, and so are both histories
/// while the undo history had room for one more state.
pub proof fn lemma_undo_reverts_redo(s0: EditorState, s1: EditorState, s2: EditorState)
    requires
        s0.redo.states().len() > 0,
        s0.redo.states().len() <= MAX_UNDO_STATES,
        redo_result(s0, s1),
        undo_result(s1, s2),
    ensures
        s2.snapshot() == s0.snapshot(),
        s2 == (EditorState { lines: s2.lines, undo: s2.undo, redo: s2.redo, ..s0 }),
        s2.redo.states() == s0.redo.states(),
        s0.undo.states().len() < MAX_UNDO_STATES ==> s2.undo.states() == s0.undo.states(),
{
    let r = s0.redo.states();
    lemma_push_bounded_last(s0.undo.states(), s0.snapshot(), MAX_UNDO_STATES as int);
    assert(r.drop_last().push(r.last()) =~= r);
}

/// The internal clipboard gives back what was last put into it.
pub proof fn lemma_clipboard_round_trip(c0: Clipboard, c1: Clipboard, c2: Clipboard, text: Seq<char>, got: Seq<char>)
    requires
        c0.is_internal(),
        c1.after_set(c0, text),
        c2.after_get(c1, got),
    ensures
        got == text,
        c2.is_internal(),
        c2.contents() == text,
{
}

/// Normalizing AltGr input twice changes nothing more than normalizing it
/// once.
pub proof fn lemma_altgr_normalization_idempotent(k: KeyInput)
    ensures
        altgr_normalized(altgr_normalized(k)) == altgr_normalized(k),
{
}

/// A key sequence that no binding of the mode starts with is dropped, and
/// nothing runs.
pub proof fn lemma_unbound_sequence_resets(
    s: Seq<(KeyEventRegister, Action)>,
    pending: Seq<KeyInput>,
    c: KeyInput,
    mode: EditorMode,
)
    requires
        prefix_count(s, pending.push(c), mode) == 0,
    ensures
        lookup_step(s, pending, c, mode) == (Seq::<KeyInput>::empty(), Option::<int>::None),
{
}

/// A completed key sequence that only one binding of the mode starts with,
/// and that is bound itself, runs the action it is bound to and clears the
/// pending inputs.
pub proof fn lemma_bound_sequence_runs(
    s: Seq<(KeyEventRegister, Action)>,
    pending: Seq<KeyInput>,
    c: KeyInput,
    mode: EditorMode,
)
    requires
        prefix_count(s, pending.push(c), mode) == 1,
        to_map(s).contains_key((pending.push(c), mode)),
    ensures
        lookup_step(s, pending, c, mode).0 == Seq::<KeyInput>::empty(),
        lookup_step(s, pending, c, mode).1 matches Some(i)
            && 0 <= i < s.len() && s[i].1 == to_map(s)[(pending.push(c), mode)],
{
    lemma_key_index(s, (pending.push(c), mode));
}

/// A sequence that several bindings of the mode start with waits for more
/// input, and nothing runs.
pub proof fn lemma_ambiguous_sequence_waits(
    s: Seq<(KeyEventRegister, Action)>,
    pending: Seq<KeyInput>,
    c: KeyInput,
    mode: EditorMode,
)
    requires
        prefix_count(s, pending.push(c), mode) > 1,
    ensures
        lookup_step(s, pending, c, mode) == (pending.push(c), Option::<int>::None),
{
}

/// Selecting the previous match right after the next one goes back to the
/// match that was selected.
pub proof fn lemma_previous_reverts_next(s: SearchState)
    requires
        s.selected_index matches Some(i) && i < s.matches@.len(),
        s.matches@.len() <= usize::MAX,
    ensures
        previous_spec(SearchState { selected_index: next_spec(s).0, ..s }) == (s.selected_index, Some(s.matches@[s.selected_index->0 as int])),
{
    let i = s.selected_index->0;
    let len = s.matches@.len();
    let n: int = if i + 1 >= len { 0 } else { i + 1 };
    assert(next_spec(s).0 == Some(n as usize));
    let back: int = if n == 0 { len - 1 } else { n - 1 };
    assert(back == i);
}

/// A selection covers the same positions whichever end it was started
/// from.
pub proof fn lemma_selection_symmetric(a: Index2, b: Index2, line_mode: bool, pos: Index2)
    ensures
        (Selection { start: a, end: b, line_mode }).covers(pos) == (Selection { start: b, end: a, line_mode }).covers(pos),
{
}

/// After a vertical viewport update the cursor row is among the rows shown.
pub proof fn lemma_vertical_viewport_shows_cursor(vy: int, height: int, cursor_row: int)
    requires
        vy >= 0,
        height >= 1,
        cursor_row >= 0,
    ensures
        vertical_offset(vy, height, cursor_row) <= cursor_row < vertical_offset(vy, height, cursor_row) + height,
{
}

/// After a horizontal viewport update the cursor column is not left of the
/// viewport.
pub proof fn lemma_horizontal_viewport_not_past_cursor(vx: int, width: int, cursor_col: int, line: Seq<char>, tab_width: usize)
    requires
        vx >= 0,
        cursor_col >= 0,
    ensures
        0 <= horizontal_offset(vx, width, cursor_col, Some(line), tab_width) <= cursor_col,
{
}

/// The sum of a sequence of widths.
pub open spec fn sum_widths(s: Seq<usize>) -> int
    decreases s.len(),
{
    if s.len() == 0 {
        0
    } else {
        sum_widths(s.drop_last()) + s.last()
    }
}

/// The sum of two runs of widths.
pub proof fn lemma_sum_widths_concat(a: Seq<usize>, b: Seq<usize>)
    ensures
        sum_widths(a + b) == sum_widths(a) + sum_widths(b),
    decreases b.len(),
{
    if b.len() == 0 {
        assert(a + b =~= a);
    } else {
        assert((a + b).drop_last() =~= a + b.drop_last());
        lemma_sum_widths_concat(a, b.drop_last());
    }
}

/// The pieces of a split row add up to its width, and none is wider than
/// the screen or empty.
pub proof fn lemma_chunks(rem: usize, max_width: usize)
    requires
        max_width > 0,
    ensures
        sum_widths(chunks(rem, max_width)) == rem,
        forall|i: int| 0 <= i < chunks(rem, max_width).len() ==> 0 < #[trigger] chunks(rem, max_width)[i] <= max_width,
    decreases rem,
{
    if rem > max_width {
        let rest = chunks((rem - max_width) as usize, max_width);
        lemma_chunks((rem - max_width) as usize, max_width);
        lemma_sum_widths_concat(seq![max_width], rest);
        assert(seq![max_width].drop_last() =~= Seq::<usize>::empty());
        assert(sum_widths(Seq::<usize>::empty()) == 0);
        assert(sum_widths(seq![max_width]) == max_width);
        assert forall|i: int| 0 <= i < chunks(rem, max_width).len() implies 0 < #[trigger] chunks(rem, max_width)[i] <= max_width by {
            if i > 0 {
                assert(chunks(rem, max_width)[i] == rest[i - 1]);
            }
        }
    } else if rem > 0 {
        assert(seq![rem].drop_last() =~= Seq::<usize>::empty());
        assert(sum_widths(Seq::<usize>::empty()) == 0);
        assert(sum_widths(seq![rem]) == rem);
    } else {
        assert(sum_widths(Seq::<usize>::empty()) == 0);
    }
}

/// Splitting a row for wrapping keeps its width: the screen rows add up to
/// the row's width, and none is wider than the screen.
pub proof fn lemma_split_keeps_width(line_width: usize, max_width: usize)
    requires
        max_width > 0,
    ensures
        sum_widths(split_widths(line_width, max_width)) == line_width,
        forall|i: int| 0 <= i < split_widths(line_width, max_width).len() ==> #[trigger] split_widths(line_width, max_width)[i] <= max_width,
        split_widths(line_width, max_width).len() >= 1,
{
    if line_width == 0 {
        assert(seq![0usize].drop_last() =~= Seq::<usize>::empty());
        assert(sum_widths(Seq::<usize>::empty()) == 0);
        assert(sum_widths(seq![0usize]) == 0);
    } else {
        lemma_chunks(line_width, max_width);
    }
}

/// Rows of text put one after the other.
pub open spec fn concat_rows(s: Seq<Seq<char>>) -> Seq<char>
    decreases s.len(),
{
    if s.len() == 0 {
        Seq::empty()
    } else {
        concat_rows(s.drop_last()) + s.last()
    }
}

/// Two runs of rows put one after the other.
pub proof fn lemma_concat_rows_concat(a: Seq<Seq<char>>, b: Seq<Seq<char>>)
    ensures
        concat_rows(a + b) == concat_rows(a) + concat_rows(b),
    decreases b.len(),
{
    if b.len() == 0 {
        assert(a + b =~= a);
        assert(concat_rows(a) + concat_rows(b) =~= concat_rows(a));
    } else {
        assert((a + b).drop_last() =~= a + b.drop_last());
        lemma_concat_rows_concat(a, b.drop_last());
        assert(concat_rows(a) + concat_rows(b.drop_last()) + b.last() =~= concat_rows(a) + (concat_rows(b.drop_last()) + b.last()));
    }
}

/// The screen rows of a partly wrapped line hold, in order, the current
/// row followed by the characters not wrapped yet.
pub proof fn lemma_wrap_from_keeps_text(line: Seq<char>, i: int, cur: Seq<char>, w: int, max_width: usize, tab_width: usize)
    requires
        0 <= i <= line.len(),
    ensures
        concat_rows(wrap_from(line, i, cur, w, max_width, tab_width)) == cur + line.subrange(i, line.len() as int),
    decreases line.len() - i,
{
    let e = Seq::<Seq<char>>::empty();
    assert(concat_rows(e) == Seq::<char>::empty());
    assert(seq![cur].drop_last() =~= e);
    assert(concat_rows(seq![cur]) =~= cur);
    if i >= line.len() {
        assert(cur + line.subrange(i, line.len() as int) =~= cur);
    } else if w + crate::text::display_width(line[i], tab_width) > max_width {
        let dw = crate::text::display_width(line[i], tab_width);
        let rest = wrap_from(line, i + 1, seq![line[i]], dw, max_width, tab_width);
        lemma_wrap_from_keeps_text(line, i + 1, seq![line[i]], dw, max_width, tab_width);
        lemma_concat_rows_concat(seq![cur], rest);
        assert(cur + (seq![line[i]] + line.subrange(i + 1, line.len() as int)) =~= cur + line.subrange(i, line.len() as int));
    } else {
        let dw = crate::text::display_width(line[i], tab_width);
        lemma_wrap_from_keeps_text(line, i + 1, cur.push(line[i]), w + dw, max_width, tab_width);
        assert(cur.push(line[i]) + line.subrange(i + 1, line.len() as int) =~= cur + line.subrange(i, line.len() as int));
    }
}

/// Wrapping a line loses and reorders nothing: its screen rows, put one
/// after the other, give back the line.
pub proof fn lemma_wrap_keeps_text(line: Seq<char>, max_width: usize, tab_width: usize)
    ensures
        concat_rows(wrapped(line, max_width, tab_width)) == line,
{
    lemma_wrap_from_keeps_text(line, 0, seq![], 0, max_width, tab_width);
    assert(Seq::<char>::empty() + line.subrange(0, line.len() as int) =~= line);
}

/// A mouse event puts the cursor inside a buffer that has rows: on one of
/// its rows, at most at its last column.
pub proof fn lemma_mouse_cursor_in_buffer(r: Seq<Seq<char>>, t: (int, int))
    requires
        r.len() > 0,
        t.0 >= 0,
        t.1 >= 0,
        r.len() <= usize::MAX,
        t.0 <= usize::MAX,
        t.1 <= usize::MAX,
        forall|i: int| 0 <= i < r.len() ==> #[trigger] r[i].len() <= usize::MAX,
    ensures
        clamp_target(r, t).row < r.len(),
        clamp_target(r, t).col <= last_col(r, clamp_target(r, t).row as int),
{
}

/// Deleting the character left of the cursor right after typing one
/// (other than a line break) at a column inside a row gives back the text
/// and the cursor.
pub proof fn lemma_delete_reverts_insert(r: Seq<Seq<char>>, i: Index2, ch: char)
    requires
        ch != '\n',
        i.row < r.len(),
        i.col <= r[i.row as int].len(),
        r[i.row as int].len() < usize::MAX,
    ensures
        delete_char_spec(insert_char_spec(r, i, ch, false).0, insert_char_spec(r, i, ch, false).1) == (r, i),
{
    let row = r[i.row as int];
    let c = i.col as int;
    let r2 = r.update(i.row as int, row.insert(c, ch));
    assert(row.insert(c, ch).remove(c) =~= row);
    assert(r2.update(i.row as int, r2[i.row as int].remove(c)) =~= r);
}

/// Deleting the line break left of the cursor right after typing one at a
/// column inside a row joins the row back and gives back the cursor.
pub proof fn lemma_delete_reverts_line_break(r: Seq<Seq<char>>, i: Index2)
    requires
        i.row < r.len(),
        i.col <= r[i.row as int].len(),
        i.row + 1 <= usize::MAX,
    ensures
        delete_char_spec(insert_char_spec(r, i, '\n', false).0, insert_char_spec(r, i, '\n', false).1) == (r, i),
{
    let row = i.row as int;
    let col = i.col as int;
    let r2 = line_break_rows(r, i);
    let c2 = Index2 { row: (i.row + 1) as usize, col: 0 };
    assert(insert_char_spec(r, i, '\n', false) == (r2, c2));
    let head = r2.take(row + 1);
    let tail = r2.skip(row + 1);
    if col == 0 {
        assert(head =~= r.take(row).push(Seq::empty()));
        assert(tail =~= r.skip(row));
        assert(head.update(head.len() - 1, head.last() + tail[0]) + tail.skip(1) =~= r);
    } else if col >= r[row].len() {
        assert(head =~= r.take(row + 1));
        assert(tail =~= seq![Seq::<char>::empty()] + r.skip(row + 1));
        assert(head.last() + tail[0] =~= r[row]);
        assert(head.update(head.len() - 1, head.last() + tail[0]) + tail.skip(1) =~= r);
    } else {
        assert(head =~= r.take(row).push(r[row].take(col)));
        assert(tail =~= seq![r[row].skip(col)] + r.skip(row + 1));
        assert(head.last() + tail[0] =~= r[row]);
        assert(head.update(head.len() - 1, head.last() + tail[0]) + tail.skip(1) =~= r);
    }
    assert(merge_rows(head, tail) =~= r);
    assert(row_len(head, row) == col);
}

/// Matching brackets are mutual: the bracket matching a bracket is of the
/// partner kind, the opening one of the two comes first, and the first
/// bracket is the match of its match (for a buffer with fewer positions
/// than `usize::MAX`, so that nesting depths never saturate).
pub proof fn lemma_matching_bracket_symmetric(r: Seq<Seq<char>>, i: Index2)
    requires
        rows_size(r, r.len() as int) < usize::MAX,
    ensures
        matching_bracket_spec(r, i) matches Some(j) ==> {
            &&& j != i
            &&& char_at(r, j) == Some(bracket_partner(char_at(r, i)->Some_0)->Some_0.0)
            &&& if bracket_partner(char_at(r, i)->Some_0)->Some_0.1 { index_lt(j, i) } else { index_lt(i, j) }
            &&& matching_bracket_spec(r, j) == Some(i)
        },
{
    if let Some(j) = matching_bracket_spec(r, i) {
        let c = char_at(r, i)->Some_0;
        let pair = bracket_partner(c)->Some_0;
        let b = pair.0;
        lemma_forward_then_back(r, i);
        lemma_back_then_forward(r, i);
        lemma_rank_bounded(r, i);
        if !pair.1 {
            let q = step_forward(r, i)->Some_0.1;
            lemma_bracket_fwd_ends_on_close(r, q, c, b, 0);
            lemma_bracket_fwd_not_before(r, q, c, b, 0);
            lemma_step_forward(r, i);
            lemma_rank_bounded(r, q);
            if !(char_at(r, q) == Some(b)) {
                lemma_fwd_retraced(r, q, c, b, 0, j);
            }
        } else {
            let q = step_backward(r, i)->Some_0.1;
            lemma_bracket_back_ends_on_close(r, q, c, b, 0);
            lemma_bracket_back_not_after(r, q, c, b, 0);
            lemma_step_backward(r, i);
            lemma_rank_bounded(r, q);
            if !(char_at(r, q) == Some(b)) {
                lemma_back_retraced(r, q, c, b, 0, j);
            }
        }
    }
}

} // verus!
