//! What editing operations do, stated over their inputs and results.
use vstd::prelude::*;
use crate::index::{Index2, index_le};
use crate::search::{SearchState, first_spec, first_match_from};
use crate::state::EditorState;
use crate::mode::EditorMode;
use crate::buffer::{insert_chars_spec, insert_char_spec, append_chars_spec, last_byte};
use crate::actions::cpaste::{paste_rows, CopyLine, Paste};
use crate::actions::delete::{DeleteTillForward, DeleteFindForward, RemoveChar, DeleteLine, find_forward, delete_find_effect};
use crate::actions::select::{Boundary, open_scan, close_scan, select_between_spec, stops_before, word_boundary};
use crate::walk::{CharacterClass, class_of};

verus! {

/// Among the matches, some one at or after `start` comes before all others
/// that are.
proof fn lemma_first_at_or_after_exists(m: Seq<Index2>, start: Index2, w: int)
    requires
        0 <= w < m.len(),
        index_le(start, m[w]),
    ensures
        exists|i: int| 0 <= i < m.len() && index_le(start, m[i])
            && forall|j: int| 0 <= j < i ==> !index_le(start, #[trigger] m[j]),
    decreases w,
{
    if exists|j: int| 0 <= j < w && index_le(start, #[trigger] m[j]) {
        let j = choose|j: int| 0 <= j < w && index_le(start, #[trigger] m[j]);
        lemma_first_at_or_after_exists(m, start, j);
    } else {
        assert(forall|j: int| 0 <= j < w ==> !index_le(start, #[trigger] m[j]));
    }
}

/// Jumping to the first match: where some match lies at or after the
/// position where the search started, the earliest such match (in the
/// order of the matches) is selected; where none does, the very first match
/// is; without matches the selection stays and nothing is found.
pub proof fn lemma_first_match_at_or_after_start(s: SearchState)
    ensures
        (exists|i: int| 0 <= i < s.matches@.len() && index_le(s.start_cursor, #[trigger] s.matches@[i])) ==> {
            &&& first_spec(s).0 matches Some(k) && {
                &&& 0 <= k < s.matches@.len()
                &&& index_le(s.start_cursor, s.matches@[k as int])
                &&& forall|j: int| 0 <= j < k ==> !index_le(s.start_cursor, #[trigger] s.matches@[j])
                &&& first_spec(s).1 == Some(s.matches@[k as int])
            }
        },
        !(exists|i: int| 0 <= i < s.matches@.len() && index_le(s.start_cursor, #[trigger] s.matches@[i]))
            && s.matches@.len() > 0 ==> first_spec(s) == (Some(0usize), Some(s.matches@[0])),
        s.matches@.len() == 0 ==> first_spec(s) == (s.selected_index, None::<Index2>),
{
    let m = s.matches@;
    let start = s.start_cursor;
    if exists|i: int| 0 <= i < m.len() && index_le(start, #[trigger] m[i]) {
        let w = choose|i: int| 0 <= i < m.len() && index_le(start, #[trigger] m[i]);
        lemma_first_at_or_after_exists(m, start, w);
        let k = first_match_from(m, start)->0;
        assert(0 <= k < m.len());
        assert(k <= usize::MAX) by {
            assert(m.len() == s.matches.len());
        }
    }
}

/// Scanning left for an opening delimiter from below the cursor: it is
/// found exactly when one lies at or left of `x`, and the object starts just
/// right of the nearest one.
proof fn lemma_open_scan_between(line: Seq<char>, x: int, o: char, c: char)
    requires
        0 <= x < line.len(),
    ensures
        open_scan(line, x, x + 1, Boundary::Between(o, c)) is Some
            <==> exists|k: int| 0 <= k <= x && line[k] == o,
        open_scan(line, x, x + 1, Boundary::Between(o, c)) matches Some(st) ==> {
            &&& 1 <= st <= x + 1
            &&& line[st - 1] == o
            &&& forall|y: int| st <= y <= x ==> line[y] != o
        },
    decreases x,
{
    if line[x] != o && x > 0 {
        lemma_open_scan_between(line, x - 1, o, c);
        if exists|k: int| 0 <= k <= x && line[k] == o {
            let k = choose|k: int| 0 <= k <= x && line[k] == o;
            assert(k <= x - 1);
        }
    }
}

/// Scanning right for a closing delimiter from past the cursor: it is
/// found exactly when one lies at or right of `x`, and the object ends just
/// left of the nearest one.
proof fn lemma_close_scan_between(line: Seq<char>, x: int, o: char, c: char)
    requires
        1 <= x <= line.len(),
    ensures
        close_scan(line, x, x - 1, Boundary::Between(o, c)) is Some
            <==> exists|m: int| x <= m < line.len() && line[m] == c,
        close_scan(line, x, x - 1, Boundary::Between(o, c)) matches Some(e) ==> {
            &&& x - 1 <= e
            &&& e + 1 < line.len()
            &&& line[e + 1] == c
            &&& forall|y: int| x <= y <= e ==> line[y] != c
        },
    decreases line.len() - x,
{
    if x < line.len() && line[x] != c {
        lemma_close_scan_between(line, x + 1, o, c);
        if exists|m: int| x <= m < line.len() && line[m] == c {
            let m = choose|m: int| x <= m < line.len() && line[m] == c;
            assert(m >= x + 1);
        }
    }
}

/// The text between delimiters around the cursor (`vi(` and the like): an
/// object is found exactly when the cursor is on a character of its row, an
/// opening delimiter lies at or left of it and a closing one at or right of
/// it. The object lies on the cursor's row; it starts on the cursor where
/// the cursor is on an opening delimiter, else just right of the nearest
/// opening delimiter to the left, with none between; it ends on the cursor
/// where the cursor is on a closing delimiter, else just left of the
/// nearest closing delimiter to the right, with none between (for a row no
/// longer than `usize::MAX`).
pub proof fn lemma_select_between_delimiters(r: Seq<Seq<char>>, cursor: Index2, o: char, c: char)
    requires
        cursor.row < r.len() ==> r[cursor.row as int].len() <= usize::MAX,
    ensures
        select_between_spec(r, cursor, Boundary::Between(o, c)) is Some <==> {
            &&& cursor.row < r.len()
            &&& cursor.col < r[cursor.row as int].len()
            &&& exists|k: int| 0 <= k <= cursor.col && r[cursor.row as int][k] == o
            &&& exists|m: int| cursor.col <= m < r[cursor.row as int].len() && r[cursor.row as int][m] == c
        },
        select_between_spec(r, cursor, Boundary::Between(o, c)) matches Some(s) ==> {
            let line = r[cursor.row as int];
            let col = cursor.col as int;
            &&& s.start.row == cursor.row && s.end.row == cursor.row && !s.line_mode
            &&& if line[col] == o {
                s.start.col == col
            } else {
                &&& 1 <= s.start.col <= col
                &&& line[s.start.col - 1] == o
                &&& forall|y: int| s.start.col <= y <= col ==> line[y] != o
            }
            &&& if line[col] == c {
                s.end.col == col
            } else {
                &&& col <= s.end.col
                &&& s.end.col + 1 < line.len()
                &&& line[s.end.col + 1] == c
                &&& forall|y: int| col <= y <= s.end.col ==> line[y] != c
            }
        },
{
    if cursor.row < r.len() && cursor.col < r[cursor.row as int].len() {
        let line = r[cursor.row as int];
        let col = cursor.col as int;
        let kind = Boundary::Between(o, c);
        if line[col] != o && col > 0 {
            lemma_open_scan_between(line, col - 1, o, c);
            if exists|k: int| 0 <= k <= col && line[k] == o {
                let k = choose|k: int| 0 <= k <= col && line[k] == o;
                assert(k <= col - 1);
            }
        }
        if line[col] != c {
            lemma_close_scan_between(line, col + 1, o, c);
            if exists|m: int| col <= m < line.len() && line[m] == c {
                let m = choose|m: int| col <= m < line.len() && line[m] == c;
                assert(m >= col + 1);
            }
        }
    }
}

/// The next occurrence of a character from column `k` on is the first
/// column at or after `k` that holds it.
proof fn lemma_find_forward_first(line: Seq<char>, k: int, ch: char, t: int)
    requires
        0 <= k <= t < line.len(),
        line[t] == ch,
        forall|y: int| k <= y < t ==> line[y] != ch,
    ensures
        find_forward(line, k, ch) == Some(t),
    decreases t - k,
{
    if k < t {
        lemma_find_forward_first(line, k + 1, ch, t);
    }
}

/// Without an occurrence at or after column `k`, none is found.
proof fn lemma_find_forward_none(line: Seq<char>, k: int, ch: char)
    requires
        0 <= k,
        forall|y: int| k <= y < line.len() ==> line[y] != ch,
    ensures
        find_forward(line, k, ch) is None,
    decreases line.len() - k,
{
    if k < line.len() {
        lemma_find_forward_none(line, k + 1, ch);
    }
}

/// Deleting towards a character (`dt<ch>` and `df<ch>`): where `ch` next
/// occurs on the cursor's row at column `t`, the columns from the cursor up
/// to `t` are removed, and `t` itself too with `df` only; so with `dt` the
/// character lands on the cursor's column. The other rows stay, and the
/// removed text goes to the clipboard.
pub proof fn lemma_delete_till_and_find(old: EditorState, new_till: EditorState, new_find: EditorState, ch: char, t: int)
    requires
        DeleteTillForward(Some(ch)).effect(old, new_till),
        DeleteFindForward(Some(ch)).effect(old, new_find),
        old.cursor.row < old.text().len(),
        old.cursor.col < t < old.text()[old.cursor.row as int].len(),
        old.text()[old.cursor.row as int][t] == ch,
        forall|y: int| old.cursor.col < y < t ==> old.text()[old.cursor.row as int][y] != ch,
    ensures
        ({
            let row = old.cursor.row as int;
            let col = old.cursor.col as int;
            let line = old.text()[row];
            &&& new_till.text() == old.text().update(row, line.take(col) + line.skip(t))
            &&& new_till.text()[row][col] == ch
            &&& new_till.clip.after_set(old.clip, line.subrange(col, t))
            &&& new_find.text() == old.text().update(row, line.take(col) + line.skip(t + 1))
            &&& new_find.clip.after_set(old.clip, line.subrange(col, t + 1))
        }),
{
    let row = old.cursor.row as int;
    let col = old.cursor.col as int;
    let line = old.text()[row];
    lemma_find_forward_first(line, col + 1, ch, t);
    let kept = line.take(col) + line.skip(t);
    assert(kept[col] == line[t]);
}

/// Deleting towards a character that does not occur after the cursor on
/// its row changes nothing.
pub proof fn lemma_delete_till_absent(old: EditorState, new: EditorState, ch: char, inclusive: bool)
    requires
        delete_find_effect(Some(ch), inclusive, old, new),
        old.cursor.row < old.text().len() ==>
            forall|y: int| old.cursor.col < y < old.text()[old.cursor.row as int].len() ==> old.text()[old.cursor.row as int][y] != ch,
    ensures
        new == old,
{
    if old.cursor.row < old.text().len() {
        lemma_find_forward_none(old.text()[old.cursor.row as int], old.cursor.col + 1, ch);
    }
}

/// Typing the characters of a text without line breaks one after the other
/// into a row that holds the first `k` of them fills the row with the text.
proof fn lemma_type_into_row(rk: Seq<Seq<char>>, row: usize, t: Seq<char>, k: int)
    requires
        row < rk.len(),
        0 <= k <= t.len(),
        t.len() <= usize::MAX,
        rk[row as int] == t.take(k),
        forall|y: int| 0 <= y < t.len() ==> t[y] != '\n',
    ensures
        insert_chars_spec(rk, Index2 { row, col: k as usize }, t, k, -1)
            == (rk.update(row as int, t), Index2 { row, col: t.len() as usize }),
    decreases t.len() - k,
{
    if k < t.len() {
        let i = Index2 { row, col: k as usize };
        let step = insert_char_spec(rk, i, t[k], false);
        assert(rk.len() != row);
        assert(rk[row as int].len() == k);
        let next = rk.update(row as int, rk[row as int].insert(k, t[k]));
        assert(step == (next, Index2 { row, col: (k + 1) as usize }));
        assert(next[row as int] =~= t.take(k + 1));
        lemma_type_into_row(next, row, t, k + 1);
        assert(next.update(row as int, t) =~= rk.update(row as int, t));
    } else {
        assert(t.take(k) =~= t);
        assert(rk.update(row as int, t) =~= rk);
    }
}

/// Pasting a line (clipboard text that starts with a line break, followed
/// by text without one) opens a new row holding that text: with `p` just
/// below the cursor's row, where the cursor is not on the last row (or, in
/// insert mode, on any row); with `P` at the cursor's row, pushing it down.
/// The other rows keep their order and text, and the cursor goes to the
/// last character of the new row (for a buffer of fewer than `usize::MAX`
/// rows).
pub proof fn lemma_linewise_paste(r: Seq<Seq<char>>, c: Index2, mode: EditorMode, s: Seq<char>)
    requires
        s.len() > 0,
        s[0] == '\n',
        s.len() <= usize::MAX,
        r.len() < usize::MAX,
        forall|y: int| 1 <= y < s.len() ==> s[y] != '\n',
    ensures
        ({
            let t = s.skip(1);
            let end = if t.len() > 0 { (t.len() - 1) as usize } else { 0usize };
            &&& (c.row + 1 < r.len() || (mode == EditorMode::Insert && c.row < r.len())) ==>
                paste_rows(r, c, mode, false, s, false)
                    == (r.insert(c.row + 1, t), Index2 { row: (c.row + 1) as usize, col: end })
            &&& c.row <= r.len() ==>
                paste_rows(r, c, mode, false, s, true) == (r.insert(c.row as int, t), Index2 { row: c.row, col: end })
        }),
{
    let t = s.skip(1);
    assert forall|y: int| 0 <= y < t.len() implies t[y] != '\n' by {
        assert(t[y] == s[y + 1]);
    }
    if c.row + 1 < r.len() || (mode == EditorMode::Insert && c.row < r.len()) {
        let row = (c.row + 1) as usize;
        let r1 = r.insert(row as int, Seq::empty());
        assert(t.take(0) =~= Seq::<char>::empty());
        lemma_type_into_row(r1, row, t, 0);
        assert(r1.update(row as int, t) =~= r.insert(row as int, t));
    }
    if c.row <= r.len() {
        let row = c.row;
        let r1 = r.insert(row as int, Seq::empty());
        assert(t.take(0) =~= Seq::<char>::empty());
        lemma_type_into_row(r1, row, t, 0);
        assert(r1.update(row as int, t) =~= r.insert(row as int, t));
    }
}

/// Typing characters, line breaks among them, at a position leaves the
/// rows above it as they were.
proof fn lemma_typing_keeps_rows_above(r: Seq<Seq<char>>, i: Index2, t: Seq<char>, k: int, last: int)
    requires
        i.row < r.len(),
        0 <= k,
        r.len() + (t.len() - k) < usize::MAX,
    ensures
        insert_chars_spec(r, i, t, k, last).0.take(i.row as int) == r.take(i.row as int),
        insert_chars_spec(r, i, t, k, last).0.len() >= r.len(),
    decreases t.len() - k,
{
    if k < t.len() {
        let step = insert_char_spec(r, i, t[k], k == last);
        if t[k] == '\n' {
            assert(step.0.take(i.row as int) =~= r.take(i.row as int));
            assert(step.0.len() == r.len() + 1);
            assert(step.1.row == i.row + 1);
            lemma_typing_keeps_rows_above(step.0, step.1, t, k + 1, last);
            let out = insert_chars_spec(step.0, step.1, t, k + 1, last).0;
            assert(out.take(i.row as int) =~= out.take(i.row + 1).take(i.row as int));
            assert(step.0.take(i.row as int) =~= step.0.take(i.row + 1).take(i.row as int));
        } else {
            assert(step.0.take(i.row as int) =~= r.take(i.row as int));
            lemma_typing_keeps_rows_above(step.0, step.1, t, k + 1, last);
        }
    }
}

/// Pasting lines of any text (clipboard text that starts with a line
/// break) leaves the rows above the new one as they were: with `p` the
/// cursor's row and those above it, where the cursor is not on the last
/// row (or, in insert mode, on any row); with `P` the rows above the
/// cursor's (for a buffer and text whose lengths together stay below
/// `usize::MAX`).
pub proof fn lemma_linewise_paste_keeps_rows_above(r: Seq<Seq<char>>, c: Index2, mode: EditorMode, s: Seq<char>)
    requires
        s.len() > 0,
        s[0] == '\n',
        r.len() + s.len() < usize::MAX,
    ensures
        (c.row + 1 < r.len() || (mode == EditorMode::Insert && c.row < r.len())) ==>
            paste_rows(r, c, mode, false, s, false).0.take(c.row + 1) == r.take(c.row + 1),
        c.row <= r.len() ==> paste_rows(r, c, mode, false, s, true).0.take(c.row as int) == r.take(c.row as int),
{
    let t = s.skip(1);
    if c.row + 1 < r.len() || (mode == EditorMode::Insert && c.row < r.len()) {
        let row = (c.row + 1) as usize;
        let r1 = r.insert(row as int, Seq::empty());
        lemma_typing_keeps_rows_above(r1, Index2 { row, col: 0 }, t, 0, -1);
        assert(r1.take(row as int) =~= r.take(row as int));
    }
    if c.row <= r.len() {
        let row = c.row;
        let r1 = r.insert(row as int, Seq::empty());
        lemma_typing_keeps_rows_above(r1, Index2 { row, col: 0 }, t, 0, -1);
        assert(r1.take(row as int) =~= r.take(row as int));
    }
}

/// Typing the characters of a text without line breaks into a row at
/// column `col0` puts the text there; the position moves past each
/// character but the one at index `last`.
proof fn lemma_type_into_row_at(rk: Seq<Seq<char>>, row: usize, line: Seq<char>, col0: int, t: Seq<char>, k: int, last: int)
    requires
        row < rk.len(),
        0 <= col0 <= line.len(),
        0 <= k <= t.len(),
        last >= t.len() - 1 || last < 0,
        col0 + t.len() <= usize::MAX,
        rk[row as int] == line.take(col0) + t.take(k) + line.skip(col0),
        forall|y: int| 0 <= y < t.len() ==> t[y] != '\n',
        k <= last ==> 0 <= last,
    ensures
        ({
            let res = insert_chars_spec(rk, Index2 { row, col: (col0 + k) as usize }, t, k, last);
            &&& res.0 == rk.update(row as int, line.take(col0) + t + line.skip(col0))
            &&& res.1 == Index2 { row, col: (col0 + t.len() - (if k <= last && last < t.len() { 1int } else { 0 })) as usize }
        }),
    decreases t.len() - k,
{
    let i = Index2 { row, col: (col0 + k) as usize };
    if k < t.len() {
        let step = insert_char_spec(rk, i, t[k], k == last);
        assert(rk.len() != row);
        assert(rk[row as int].len() == line.len() + k);
        let cur = rk[row as int];
        let next_row = cur.insert(col0 + k, t[k]);
        assert(next_row =~= line.take(col0) + t.take(k + 1) + line.skip(col0));
        let next = rk.update(row as int, next_row);
        if k == last {
            assert(k == t.len() - 1);
            assert(t.take(k + 1) =~= t);
            assert(step == (next, i));
            assert(insert_chars_spec(next, i, t, k + 1, last) == (next, i));
            assert(next.update(row as int, line.take(col0) + t + line.skip(col0)) =~= next);
        } else {
            assert(step == (next, Index2 { row, col: (col0 + k + 1) as usize }));
            lemma_type_into_row_at(next, row, line, col0, t, k + 1, last);
            assert(next.update(row as int, line.take(col0) + t + line.skip(col0))
                =~= rk.update(row as int, line.take(col0) + t + line.skip(col0)));
        }
    } else {
        assert(t.take(k) =~= t);
        assert(rk.update(row as int, line.take(col0) + t + line.skip(col0)) =~= rk);
    }
}

/// A text takes at least one and at most four bytes per character in
/// UTF-8.
proof fn lemma_encoded_len(s: Seq<char>)
    ensures
        s.len() <= vstd::utf8::encode_utf8(s).len() <= 4 * s.len(),
    decreases s.len(),
{
    if s.len() > 0 {
        lemma_encoded_len(s.drop_first());
    }
}

/// Pasting text without line breaks: `p` puts it just after the character
/// under the cursor and leaves the cursor on its last character; `P` puts
/// it just before the cursor. The other rows stay (for a cursor on a
/// character of an existing row, outside single-line mode, where the row's
/// length and four bytes for each character of the text stay below
/// `usize::MAX`).
pub proof fn lemma_charwise_paste(r: Seq<Seq<char>>, c: Index2, mode: EditorMode, s: Seq<char>)
    requires
        s.len() > 0,
        forall|y: int| 0 <= y < s.len() ==> s[y] != '\n',
        c.row < r.len(),
        c.col < r[c.row as int].len(),
        r[c.row as int].len() + 4 * s.len() < usize::MAX,
    ensures
        ({
            let line = r[c.row as int];
            let col = c.col as int;
            &&& paste_rows(r, c, mode, false, s, false)
                == (r.update(c.row as int, line.take(col + 1) + s + line.skip(col + 1)), Index2 { row: c.row, col: (col + s.len()) as usize })
            &&& paste_rows(r, c, mode, false, s, true).0 == r.update(c.row as int, line.take(col) + s + line.skip(col))
        }),
{
    let line = r[c.row as int];
    let col = c.col as int;
    assert(s.take(0) =~= Seq::<char>::empty());
    assert(line.take(col + 1) + s.take(0) + line.skip(col + 1) =~= line);
    assert(r.update(c.row as int, line) =~= r);
    lemma_type_into_row_at(r, c.row, line, col + 1, s, 0, -1);
    assert(line.take(col) + s.take(0) + line.skip(col) =~= line);
    let last = last_byte(s);
    lemma_encoded_len(s);
    lemma_type_into_row_at(r, c.row, line, col, s, 0, last);
}

/// Whether a character belongs to a word (or WORD) object of the given
/// boundary.
spec fn in_word(kind: Boundary, ch: char) -> bool {
    !stops_before(kind, ch, true)
}

/// Scanning left through a word: the object starts at the row's start or
/// just right of the nearest character that does not belong to it.
proof fn lemma_open_scan_word(line: Seq<char>, x: int, kind: Boundary)
    requires
        0 <= x < line.len(),
        !(kind is Between),
        forall|ch: char| stops_before(kind, ch, true) == stops_before(kind, ch, false),
    ensures
        open_scan(line, x, x + 1, kind) matches Some(st) && {
            &&& 0 <= st <= x + 1
            &&& forall|y: int| st <= y <= x ==> in_word(kind, line[y])
            &&& (st == 0 || !in_word(kind, line[st - 1]))
        },
    decreases x,
{
    if in_word(kind, line[x]) && x > 0 {
        lemma_open_scan_word(line, x - 1, kind);
    }
}

/// Scanning right through a word: the object ends at the row's end or
/// just left of the nearest character that does not belong to it.
proof fn lemma_close_scan_word(line: Seq<char>, x: int, kind: Boundary)
    requires
        1 <= x < line.len(),
        !(kind is Between),
        forall|ch: char| stops_before(kind, ch, true) == stops_before(kind, ch, false),
    ensures
        close_scan(line, x, x - 1, kind) matches Some(e) && {
            &&& x - 1 <= e < line.len()
            &&& forall|y: int| x <= y <= e ==> in_word(kind, line[y])
            &&& (e == line.len() - 1 || !in_word(kind, line[e + 1]))
        },
    decreases line.len() - x,
{
    if in_word(kind, line[x]) && x < line.len() - 1 {
        lemma_close_scan_word(line, x + 1, kind);
    }
}

/// Whether a character is of the kind of the one under the cursor, for a
/// word (letters, digits and `_`; or punctuation; or whitespace) or for a
/// WORD (whitespace or not).
pub open spec fn same_word_kind(big: bool, cursor_char: char, ch: char) -> bool {
    if big {
        (class_of(Some(ch)) == CharacterClass::Whitespace) == (class_of(Some(cursor_char)) == CharacterClass::Whitespace)
    } else {
        class_of(Some(ch)) == class_of(Some(cursor_char))
    }
}

/// The word (`viw`) or WORD (`viW`) under the cursor: on a character of an
/// existing row it is the longest run of characters of the kind of the
/// cursor's that holds the cursor, on the cursor's row; under a character
/// of no known class it is that character alone. Off the text there is
/// none (for a row no longer than `usize::MAX`).
pub proof fn lemma_select_inner_word(r: Seq<Seq<char>>, cursor: Index2, big: bool)
    requires
        cursor.row < r.len() ==> r[cursor.row as int].len() <= usize::MAX,
    ensures
        !(cursor.row < r.len() && cursor.col < r[cursor.row as int].len())
            ==> select_between_spec(r, cursor, word_boundary(r, cursor, big)) is None,
        cursor.row < r.len() && cursor.col < r[cursor.row as int].len() ==> {
            let line = r[cursor.row as int];
            let col = cursor.col as int;
            let cur = line[col];
            select_between_spec(r, cursor, word_boundary(r, cursor, big)) matches Some(s) && {
                &&& s.start.row == cursor.row && s.end.row == cursor.row && !s.line_mode
                &&& s.start.col <= col <= s.end.col < line.len()
                &&& if !big && class_of(Some(cur)) == CharacterClass::Unknown {
                    s.start.col == col && s.end.col == col
                } else {
                    &&& forall|y: int| s.start.col <= y <= s.end.col ==> same_word_kind(big, cur, line[y])
                    &&& (s.start.col == 0 || !same_word_kind(big, cur, line[s.start.col - 1]))
                    &&& (s.end.col == line.len() - 1 || !same_word_kind(big, cur, line[s.end.col + 1]))
                }
            }
        },
{
    if cursor.row < r.len() && cursor.col < r[cursor.row as int].len() {
        let line = r[cursor.row as int];
        let col = cursor.col as int;
        let cur = line[col];
        let kind = word_boundary(r, cursor, big);
        assert(forall|ch: char| stops_before(kind, ch, true) == stops_before(kind, ch, false));
        if !(!big && class_of(Some(cur)) == CharacterClass::Unknown) {
            assert(in_word(kind, cur));
            assert(forall|ch: char| in_word(kind, ch) == same_word_kind(big, cur, ch));
            if col > 0 {
                lemma_open_scan_word(line, col - 1, kind);
            }
            if col < line.len() - 1 {
                lemma_close_scan_word(line, col + 1, kind);
            }
        }
    }
}

/// `x` on a character removes just that character from its row; the other
/// rows stay, the cursor stays on its column (or moves onto the new last
/// character where it was on the last one), and the clipboard is untouched.
pub proof fn lemma_remove_char_under_cursor(old: EditorState, new: EditorState)
    requires
        RemoveChar(1).effect(old, new),
        old.cursor.row < old.text().len(),
        old.cursor.col < old.text()[old.cursor.row as int].len(),
    ensures
        ({
            let row = old.cursor.row as int;
            let col = old.cursor.col as int;
            let line = old.text()[row];
            &&& new.text() == old.text().update(row, line.take(col) + line.skip(col + 1))
            &&& new.cursor == Index2 {
                row: old.cursor.row,
                col: (if col + 1 < line.len() { col } else if col > 0 { col - 1 } else { 0 }) as usize,
            }
            &&& new.clip == old.clip
        }),
{
    let row = old.cursor.row as int;
    let col = old.cursor.col as int;
    let line = old.text()[row];
    assert(line.remove(col) =~= line.take(col) + line.skip(col + 1));
    let r2 = old.text().update(row, line.remove(col));
    let c = crate::state::clamped_cursor(old);
    assert(c == old.cursor);
    let c2 = Index2 { col: if c.col <= crate::lines::last_col(r2, row) { c.col } else { crate::lines::last_col(r2, row) as usize }, ..c };
    assert(crate::actions::delete::remove_chars(r2, c2, 0) == (r2, c2));
}

/// `dd` removes the cursor's row whole; the rows below move up, the row's
/// text (after a line break) goes to the clipboard, and the cursor goes to
/// the start of the row that took its place, or of the new last row.
pub proof fn lemma_delete_line(old: EditorState, new: EditorState)
    requires
        DeleteLine(1).effect(old, new),
        old.cursor.row < old.text().len(),
    ensures
        ({
            let row = old.cursor.row as int;
            let n = old.text().len() - 1;
            &&& new.text() == old.text().remove(row)
            &&& new.clip.after_set(old.clip, seq!['\n'] + old.text()[row])
            &&& new.cursor == Index2 { row: (if row < n || n == 0 { row } else { n - 1 }) as usize, col: 0 }
        }),
{
    let r = old.text();
    let c = old.cursor;
    let r2 = r.remove(c.row as int);
    let last = if r2.len() > 0 { r2.len() - 1 } else { 0 };
    let c2 = Index2 { row: if c.row <= last { c.row } else { last as usize }, col: 0 };
    assert(crate::actions::delete::delete_lines(r2, c2, Some(seq!['\n'] + r[c.row as int]), 0)
        == (r2, c2, Some(seq!['\n'] + r[c.row as int])));
}

/// `yy` then `p` with the editor's own clipboard, in normal mode, outside
/// single-line mode, on a row that is not the last: the row is copied onto
/// a new row just below it, and the cursor goes to the copy's last
/// character (for a buffer of fewer than `usize::MAX` rows).
pub proof fn lemma_yank_line_then_paste(s0: EditorState, s1: EditorState, s2: EditorState)
    requires
        CopyLine.effect(s0, s1),
        Paste.effect(s1, s2),
        s0.clip.is_internal(),
        s0.mode == EditorMode::Normal,
        !s0.view.single_line,
        s0.cursor.row + 1 < s0.text().len(),
        s0.text().len() < usize::MAX,
        s0.text()[s0.cursor.row as int].len() < usize::MAX,
        forall|y: int| 0 <= y < s0.text()[s0.cursor.row as int].len() ==> s0.text()[s0.cursor.row as int][y] != '\n',
    ensures
        ({
            let row = s0.cursor.row as int;
            let line = s0.text()[row];
            &&& s2.text() == s0.text().insert(row + 1, line)
            &&& s2.cursor == Index2 { row: (row + 1) as usize, col: (if line.len() > 0 { line.len() - 1 } else { 0 }) as usize }
        }),
{
    let row = s0.cursor.row as int;
    let line = s0.text()[row];
    let text = seq!['\n'] + line;
    assert(s1.clip.contents() == text);
    let (clip, got) = choose|clip: crate::clipboard::Clipboard, got: Seq<char>| {
        &&& #[trigger] clip.after_get(s1.clip, got)
        &&& crate::actions::cpaste::paste_text_effect(s1, s2, clip, got, false)
    };
    assert(got == text);
    assert(text.skip(1) =~= line);
    let c = crate::state::clamped_cursor(s1);
    assert(c.row == s0.cursor.row);
    assert forall|y: int| 1 <= y < text.len() implies text[y] != '\n' by {
        assert(text[y] == line[y - 1]);
    }
    lemma_linewise_paste(s0.text(), c, s0.mode, text);
}

} // verus!
