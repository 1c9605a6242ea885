//! Operations on the buffer around a cursor: bounds, skipping, inserting.
use vstd::prelude::*;
use crate::index::Index2;
use crate::lines::{
    Lines, rows, row_len, last_col, num_rows, has_no_rows, len_col, len_col_unchecked, get_row,
    insert_row, push_row, insert_char_at, split_off_at, append_lines, set_row,
};
use crate::mode::EditorMode;
use crate::text::{is_ascii_ws, is_whitespace_ascii, str_chars};
use vstd::string::StringSliceAdditionalSpecFns;

verus! {

/// The largest column the cursor may take in normal mode (`len - 1`).
pub open spec fn max_col_normal_spec(r: Seq<Seq<char>>, i: Index2) -> int {
    last_col(r, i.row as int)
}

/// The largest column the cursor may take in insert and visual mode (`len`).
pub open spec fn max_col_insert_spec(r: Seq<Seq<char>>, i: Index2) -> int {
    row_len(r, i.row as int)
}

/// The largest column the cursor may take in the given mode.
pub open spec fn max_col_spec(r: Seq<Seq<char>>, i: Index2, mode: EditorMode) -> int {
    if mode == EditorMode::Normal { max_col_normal_spec(r, i) } else { max_col_insert_spec(r, i) }
}

/// Returns the largest column the cursor may take in normal mode.
pub fn max_col_normal(lines: &Lines, index: &Index2) -> (c: usize)
    ensures
        c == max_col_normal_spec(rows(*lines), *index),
        c <= isize::MAX,
{
    if has_no_rows(lines) {
        return 0;
    }
    match len_col(lines, index.row) {
        None => 0,
        Some(len) => if len > 0 { len - 1 } else { 0 },
    }
}

/// Returns the largest column the cursor may take in insert or visual mode.
pub fn max_col_insert(lines: &Lines, index: &Index2) -> (c: usize)
    ensures
        c == max_col_insert_spec(rows(*lines), *index),
        c <= isize::MAX,
{
    if has_no_rows(lines) {
        return 0;
    }
    match len_col(lines, index.row) {
        None => 0,
        Some(len) => len,
    }
}

/// Returns the largest column the cursor may take in the given mode.
pub fn max_col(lines: &Lines, index: &Index2, mode: EditorMode) -> (c: usize)
    ensures
        c == max_col_spec(rows(*lines), *index, mode),
        c <= isize::MAX,
{
    if mode == EditorMode::Normal {
        max_col_normal(lines, index)
    } else {
        max_col_insert(lines, index)
    }
}

/// Whether a position lies outside the characters of the buffer.
pub open spec fn out_of_bounds(r: Seq<Seq<char>>, i: Index2) -> bool {
    i.row >= r.len() || i.col >= r[i.row as int].len()
}

/// Checks whether a position lies outside the characters of the buffer.
pub fn is_out_of_bounds(lines: &Lines, index: &Index2) -> (b: bool)
    ensures
        b == out_of_bounds(rows(*lines), *index),
{
    if index.row >= num_rows(lines) {
        return true;
    }
    index.col >= len_col_unchecked(lines, index.row)
}

/// The first column at or after `col` that does not hold whitespace, or the
/// end of the row.
pub open spec fn ws_end(line: Seq<char>, col: int) -> int
    decreases line.len() - col,
{
    if col < 0 || col >= line.len() || !is_ascii_ws(line[col]) {
        col
    } else {
        ws_end(line, col + 1)
    }
}

/// The column that skipping whitespace to the right from `col` reaches: the
/// first non-whitespace character, or `col` itself if the rest of the row is
/// whitespace.
pub open spec fn skip_ws_col(line: Seq<char>, col: int) -> int {
    if ws_end(line, col) < line.len() { ws_end(line, col) } else { col }
}

/// Where skipping whitespace to the right moves a position.
pub open spec fn skip_ws_spec(r: Seq<Seq<char>>, i: Index2) -> Index2 {
    if i.row < r.len() {
        Index2 { row: i.row, col: skip_ws_col(r[i.row as int], i.col as int) as usize }
    } else {
        i
    }
}

proof fn lemma_ws_end_bounds(line: Seq<char>, col: int)
    requires
        0 <= col,
    ensures
        col <= ws_end(line, col),
        ws_end(line, col) < line.len() ==> !is_ascii_ws(line[ws_end(line, col)]),
        forall|k: int| col <= k < ws_end(line, col) && k < line.len() ==> is_ascii_ws(#[trigger] line[k]),
    decreases line.len() - col,
{
    if col < line.len() && is_ascii_ws(line[col]) {
        lemma_ws_end_bounds(line, col + 1);
    }
}

/// Moves the position right over whitespace, stopping at the end of the row.
pub fn skip_whitespace(lines: &Lines, index: &mut Index2)
    ensures
        *final(index) == skip_ws_spec(rows(*lines), *old(index)),
{
    if let Some(line) = get_row(lines, index.row) {
        let mut i = index.col;
        let ghost start = index.col as int;
        while i < line.len()
            invariant
                start <= i,
                old(index).row < rows(*lines).len(),
                line@ == rows(*lines)[old(index).row as int],
                ws_end(line@, start) == ws_end(line@, i as int),
                *index == *old(index),
                index.col == start,
            decreases line@.len() - i,
        {
            if !is_whitespace_ascii(line[i]) {
                assert(ws_end(line@, i as int) == i as int);
                index.col = i;
                return;
            }
            assert(ws_end(line@, i as int) == ws_end(line@, i + 1));
            i = i + 1;
        }
        assert(ws_end(line@, i as int) == i as int);
    }
}

/// The first row at or after `row` that is not empty, or the number of rows.
pub open spec fn next_nonempty_row(r: Seq<Seq<char>>, row: int) -> int
    decreases r.len() - row,
{
    if row < 0 || row >= r.len() || r[row].len() > 0 {
        row
    } else {
        next_nonempty_row(r, row + 1)
    }
}

/// Moves the row index down over empty rows.
pub fn skip_empty_lines(lines: &Lines, row_index: &mut usize)
    ensures
        *final(row_index) == next_nonempty_row(rows(*lines), *old(row_index) as int),
{
    let n = num_rows(lines);
    while *row_index < n
        invariant
            n == rows(*lines).len(),
            n <= isize::MAX,
            *old(row_index) <= *row_index,
            next_nonempty_row(rows(*lines), *old(row_index) as int) == next_nonempty_row(rows(*lines), *row_index as int),
        decreases n - *row_index,
    {
        match len_col(lines, *row_index) {
            Some(len) => {
                if len > 0 {
                    return;
                }
            },
            None => {
                return;
            },
        }
        *row_index = *row_index + 1;
    }
}

/// The number of whitespace characters that lie directly at and below column
/// `s` of a row.
pub open spec fn ws_run_down(line: Seq<char>, s: int) -> nat
    decreases s + 1,
{
    if s < 0 || s >= line.len() || !is_ascii_ws(line[s]) {
        0
    } else {
        1 + ws_run_down(line, s - 1)
    }
}

/// Where skipping whitespace to the left moves a position: the column
/// decreases by the number of whitespace characters at and below the
/// cursor (starting at the last character if the cursor lies beyond it).
pub open spec fn skip_ws_rev_spec(r: Seq<Seq<char>>, i: Index2) -> Index2 {
    if i.row < r.len() {
        let line = r[i.row as int];
        let s = if i.col < line.len() { i.col as int } else { line.len() - 1 };
        let k = ws_run_down(line, s);
        Index2 { row: i.row, col: if i.col >= k { (i.col - k) as usize } else { 0 } }
    } else {
        i
    }
}

/// Moves the position left over whitespace, stopping at the start of the row.
pub fn skip_whitespace_rev(lines: &Lines, index: &mut Index2)
    ensures
        *final(index) == skip_ws_rev_spec(rows(*lines), *old(index)),
{
    if let Some(line) = get_row(lines, index.row) {
        let len = line.len();
        if len == 0 {
            return;
        }
        let mut s: usize = if index.col < len { index.col } else { len - 1 };
        let ghost s0 = s as int;
        let ghost col0 = index.col as int;
        let ghost line0 = line@;
        loop
            invariant
                0 <= s < len,
                len == line@.len(),
                old(index).row < rows(*lines).len(),
                line@ == rows(*lines)[old(index).row as int],
                s0 == (if col0 < len { col0 } else { len - 1 }),
                col0 == old(index).col,
                line0 == line@,
                index.row == old(index).row,
                ws_run_down(line@, s0) == (s0 - s) + ws_run_down(line@, s as int),
                index.col == if col0 >= s0 - s { col0 - (s0 - s) } else { 0 },
            decreases s,
        {
            if !is_whitespace_ascii(line[s]) {
                assert(ws_run_down(line@, s as int) == 0);
                return;
            }
            assert(ws_run_down(line@, s as int) == 1 + ws_run_down(line@, s - 1));
            index.col = if index.col > 0 { index.col - 1 } else { 0 };
            if s == 0 {
                assert(ws_run_down(line@, -1) == 0);
                return;
            }
            s = s - 1;
        }
    }
}

/// The rows after inserting a line break at a position (the position's row
/// exists or is the row just past the end).
pub open spec fn line_break_rows(r: Seq<Seq<char>>, i: Index2) -> Seq<Seq<char>> {
    if i.col == 0 {
        r.insert(i.row as int, Seq::empty())
    } else if i.col >= row_len(r, i.row as int) {
        if i.row == r.len() {
            r.insert(i.row as int, Seq::empty())
        } else {
            r.insert(i.row + 1, Seq::empty())
        }
    } else {
        r.take(i.row as int).push(r[i.row as int].take(i.col as int)) + seq![r[i.row as int].skip(i.col as int)]
            + r.skip(i.row + 1)
    }
}

/// Inserts a line break at a position: splits the row there (or inserts an
/// empty row) and moves the position to the start of the next row.
pub fn line_break(lines: &mut Lines, index: &mut Index2)
    requires
        old(index).row <= rows(*old(lines)).len(),
    ensures
        rows(*final(lines)) == line_break_rows(rows(*old(lines)), *old(index)),
        *final(index) == (Index2 { row: (old(index).row + 1) as usize, col: 0 }),
{
    let n = num_rows(lines);
    let len = match len_col(lines, index.row) {
        Some(l) => l,
        None => 0,
    };
    if index.col == 0 {
        insert_row(lines, index.row, Vec::new());
    } else if index.col >= len {
        if index.row == n {
            insert_row(lines, index.row, Vec::new());
        } else {
            insert_row(lines, index.row + 1, Vec::new());
        }
    } else {
        let mut rest = split_off_at(lines, *index);
        append_lines(lines, &mut rest);
        proof {
            let r = rows(*old(lines));
            assert(rows(*lines) =~= line_break_rows(r, *old(index)));
        }
    }
    index.row = index.row + 1;
    index.col = 0;
}

/// The rows and the position after inserting a character at a position.
/// A line-break character breaks the row; a character on a row past the end
/// of the buffer is dropped; a column past the end of the row is first moved
/// onto the last character. Unless `skip_move` is set, the position moves
/// past the inserted character.
pub open spec fn insert_char_spec(r: Seq<Seq<char>>, i: Index2, ch: char, skip_move: bool) -> (Seq<Seq<char>>, Index2) {
    let r1 = if r.len() == i.row { r.push(Seq::empty()) } else { r };
    if ch == '\n' {
        (line_break_rows(r1, i), Index2 { row: (i.row + 1) as usize, col: 0 })
    } else if i.row >= r1.len() {
        (r1, i)
    } else {
        let len = r1[i.row as int].len();
        let c = if i.col > len { if len > 0 { len - 1 } else { 0 } } else { i.col as int };
        (
            r1.update(i.row as int, r1[i.row as int].insert(c, ch)),
            Index2 { row: i.row, col: if skip_move { c as usize } else { (c + 1) as usize } },
        )
    }
}

/// Inserts a character into the buffer at the position.
pub fn insert_char(lines: &mut Lines, index: &mut Index2, ch: char, skip_move: bool)
    requires
        ch == '\n' ==> old(index).row <= rows(*old(lines)).len(),
    ensures
        (rows(*final(lines)), *final(index)) == insert_char_spec(rows(*old(lines)), *old(index), ch, skip_move),
{
    if num_rows(lines) == index.row {
        push_row(lines, Vec::new());
    }
    if ch == '\n' {
        line_break(lines, index);
    } else {
        let len_col = match len_col(lines, index.row) {
            None => {
                return;
            },
            Some(l) => l,
        };
        if index.col > len_col {
            index.col = if len_col > 0 { len_col - 1 } else { 0 };
        }
        insert_char_at(lines, *index, ch);
        if !skip_move {
            index.col = index.col + 1;
        }
    }
}

/// Inserting a character never leaves the position beyond the row just past
/// the end of the buffer.
pub proof fn lemma_insert_char_row_bound(r: Seq<Seq<char>>, i: Index2, ch: char, skip_move: bool)
    requires
        i.row <= r.len(),
    ensures
        insert_char_spec(r, i, ch, skip_move).1.row <= insert_char_spec(r, i, ch, skip_move).0.len(),
{
}

/// The rows and the position after inserting the characters `chars[k..]` one
/// after the other; the character at index `last` does not move the position.
pub open spec fn insert_chars_spec(r: Seq<Seq<char>>, i: Index2, chars: Seq<char>, k: int, last: int) -> (Seq<Seq<char>>, Index2)
    decreases chars.len() - k,
{
    if k < 0 || k >= chars.len() {
        (r, i)
    } else {
        let step = insert_char_spec(r, i, chars[k], k == last);
        insert_chars_spec(step.0, step.1, chars, k + 1, last)
    }
}

/// The index of the last byte of a string (zero for the empty string).
pub open spec fn last_byte(text: Seq<char>) -> int {
    let n = vstd::utf8::encode_utf8(text).len() as usize;
    if n > 0 { n - 1 } else { 0 }
}

/// Inserts the characters of a string at a position, one after the other.
/// The position moves past each inserted character except the one at the
/// string's last byte index.
pub fn insert_str(lines: &mut Lines, index: &mut Index2, text: &str)
    requires
        old(index).row <= rows(*old(lines)).len(),
    ensures
        (rows(*final(lines)), *final(index)) == insert_chars_spec(
            rows(*old(lines)),
            *old(index),
            text@,
            0,
            last_byte(text@),
        ),
{
    let n_bytes = text.len();
    let last = if n_bytes > 0 { n_bytes - 1 } else { 0 };
    let chars = str_chars(text);
    let mut k: usize = 0;
    while k < chars.len()
        invariant
            chars@ == text@,
            last == last_byte(text@),
            k <= chars@.len(),
            index.row <= rows(*lines).len(),
            insert_chars_spec(rows(*lines), *index, chars@, k as int, last as int)
                == insert_chars_spec(rows(*old(lines)), *old(index), text@, 0, last as int),
        decreases chars@.len() - k,
    {
        proof {
            lemma_insert_char_row_bound(rows(*lines), *index, chars@[k as int], k == last);
        }
        insert_char(lines, index, chars[k], k == last);
        k = k + 1;
    }
}

/// The rows and the position after appending the characters of a string
/// behind a position: on a non-empty row the text goes after the character
/// under the position, and the position ends on the last inserted character.
pub open spec fn append_chars_spec(r: Seq<Seq<char>>, i: Index2, chars: Seq<char>) -> (Seq<Seq<char>>, Index2) {
    let i1 = if r.len() > 0 && row_len(r, i.row as int) > 0 {
        Index2 { row: i.row, col: (i.col + 1) as usize }
    } else {
        i
    };
    let res = insert_chars_spec(r, i1, chars, 0, -1);
    (res.0, Index2 { row: res.1.row, col: if res.1.col > 0 { (res.1.col - 1) as usize } else { 0 } })
}

/// Appends the characters of a string behind a position.
pub fn append_str(lines: &mut Lines, index: &mut Index2, text: &str)
    requires
        old(index).row <= rows(*old(lines)).len(),
        old(index).col < usize::MAX,
    ensures
        (rows(*final(lines)), *final(index)) == append_chars_spec(rows(*old(lines)), *old(index), text@),
{
    let non_empty_row = match len_col(lines, index.row) {
        Some(l) => l > 0,
        None => false,
    };
    if !has_no_rows(lines) && non_empty_row {
        index.col = index.col + 1;
    }
    let chars = str_chars(text);
    let ghost i1 = *index;
    let mut k: usize = 0;
    while k < chars.len()
        invariant
            chars@ == text@,
            k <= chars@.len(),
            index.row <= rows(*lines).len(),
            insert_chars_spec(rows(*lines), *index, chars@, k as int, -1)
                == insert_chars_spec(rows(*old(lines)), i1, text@, 0, -1),
        decreases chars@.len() - k,
    {
        proof {
            lemma_insert_char_row_bound(rows(*lines), *index, chars@[k as int], false);
        }
        insert_char(lines, index, chars[k], false);
        k = k + 1;
    }
    index.col = if index.col > 0 { index.col - 1 } else { 0 };
}

/// Appends the characters `src[from..to]` to `dst`.
pub fn extend_from_range(dst: &mut Vec<char>, src: &Vec<char>, from: usize, to: usize)
    requires
        from <= to <= src@.len(),
    ensures
        final(dst)@ == old(dst)@ + src@.subrange(from as int, to as int),
{
    let mut k = from;
    while k < to
        invariant
            from <= k <= to <= src@.len(),
            dst@ == old(dst)@ + src@.subrange(from as int, k as int),
        decreases to - k,
    {
        dst.push(src[k]);
        proof {
            assert(src@.subrange(from as int, k + 1) == src@.subrange(from as int, k as int).push(src@[k as int]));
        }
        k = k + 1;
    }
}

/// A row with the columns `[from, to)` cut out.
pub open spec fn cut_row(line: Seq<char>, from: int, to: int) -> Seq<char> {
    line.take(from) + line.skip(to)
}

/// Removes the columns `[from, to)` of an existing row and returns them.
pub fn drain_row(lines: &mut Lines, row: usize, from: usize, to: usize) -> (d: Vec<char>)
    requires
        row < rows(*old(lines)).len(),
        from <= to <= rows(*old(lines))[row as int].len(),
    ensures
        d@ == rows(*old(lines))[row as int].subrange(from as int, to as int),
        rows(*final(lines)) == rows(*old(lines)).update(
            row as int,
            cut_row(rows(*old(lines))[row as int], from as int, to as int),
        ),
{
    let line = get_row(lines, row).unwrap();
    let mut kept: Vec<char> = Vec::new();
    let mut removed: Vec<char> = Vec::new();
    extend_from_range(&mut kept, &line, 0, from);
    extend_from_range(&mut removed, &line, from, to);
    extend_from_range(&mut kept, &line, to, line.len());
    proof {
        assert(kept@ =~= cut_row(line@, from as int, to as int));
    }
    set_row(lines, row, kept);
    removed
}

} // verus!
