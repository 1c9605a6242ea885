//! The text buffer: a jagged array of characters organised in rows.
//!
//! The buffer type comes from `edtui_jagged`; each of its operations that the
//! editor uses is reached through a function of this module whose contract
//! describes the operation on the rows that the buffer holds.
use vstd::prelude::*;
use crate::index::Index2;

verus! {

/// A buffer of characters organised in rows.
pub type Lines = edtui_jagged::Jagged<char>;

#[verifier::external_type_specification]
#[verifier::external_body]
#[verifier::reject_recursive_types(T)]
pub struct ExJagged<T>(edtui_jagged::Jagged<T>);

/// The rows of characters that a buffer holds.
pub uninterp spec fn rows(lines: edtui_jagged::Jagged<char>) -> Seq<Seq<char>>;

/// What `Jagged::copy_range` returns for an inclusive range of a buffer.
pub uninterp spec fn copied_range(r: Seq<Seq<char>>, start: Index2, end: Index2) -> Seq<Seq<char>>;

/// What `Jagged::extract` leaves in a buffer and what it takes out of it,
/// for an inclusive range.
pub uninterp spec fn extracted_range(r: Seq<Seq<char>>, start: Index2, end: Index2) -> (Seq<Seq<char>>, Seq<Seq<char>>);

/// The positions at which `Jagged::match_indices` reports the pattern.
pub uninterp spec fn pattern_positions(r: Seq<Seq<char>>, pattern: Seq<char>) -> Seq<Index2>;

/// The character at a position, if there is one.
pub open spec fn char_at(r: Seq<Seq<char>>, i: Index2) -> Option<char> {
    if i.row < r.len() && i.col < r[i.row as int].len() {
        Some(r[i.row as int][i.col as int])
    } else {
        None
    }
}

/// The length of a row, or zero for a row that does not exist.
pub open spec fn row_len(r: Seq<Seq<char>>, row: int) -> int {
    if 0 <= row < r.len() { r[row].len() as int } else { 0 }
}

/// The index of the last column of a row (zero for empty or missing rows).
pub open spec fn last_col(r: Seq<Seq<char>>, row: int) -> int {
    if row_len(r, row) > 0 { row_len(r, row) - 1 } else { 0 }
}

/// The position is on the last row of a non-empty buffer.
pub open spec fn on_last_row(r: Seq<Seq<char>>, i: Index2) -> bool {
    r.len() > 0 && i.row == r.len() - 1
}

/// The position is on an existing row, at or after its last column.
pub open spec fn on_last_col(r: Seq<Seq<char>>, i: Index2) -> bool {
    i.row < r.len() && i.col >= last_col(r, i.row as int)
}

/// The step of a forward walk through the buffer, as `Jagged::next` takes it.
/// (A step to a row or column past `usize::MAX` cannot occur in a real
/// buffer, whose rows are `Vec`s; such a step is `None` here.)
pub open spec fn step_forward(r: Seq<Seq<char>>, i: Index2) -> Option<(Option<char>, Index2)> {
    if on_last_row(r, i) && on_last_col(r, i) {
        None
    } else if on_last_col(r, i) {
        if i.row == usize::MAX {
            None
        } else {
            let p = Index2 { row: (i.row + 1) as usize, col: 0 };
            Some((char_at(r, p), p))
        }
    } else if i.col == usize::MAX {
        None
    } else {
        let p = Index2 { row: i.row, col: (i.col + 1) as usize };
        match char_at(r, p) {
            Some(c) => Some((Some(c), p)),
            None => None,
        }
    }
}

/// The step of a backward walk through the buffer, as `Jagged::prev` takes it.
pub open spec fn step_backward(r: Seq<Seq<char>>, i: Index2) -> Option<(Option<char>, Index2)> {
    let first_row = i.row == 0 && r.len() > 0;
    let first_col = i.row < r.len() && i.col == 0;
    if first_row && first_col {
        None
    } else if first_col {
        let p = Index2 { row: (i.row - 1) as usize, col: last_col(r, i.row - 1) as usize };
        Some((char_at(r, p), p))
    } else {
        let p = Index2 { row: i.row, col: (i.col - 1) as usize };
        match char_at(r, p) {
            Some(c) => Some((Some(c), p)),
            None => None,
        }
    }
}

/// The text of the rows, joined by line breaks.
pub open spec fn joined(r: Seq<Seq<char>>) -> Seq<char>
    decreases r.len(),
{
    if r.len() == 0 {
        Seq::empty()
    } else if r.len() == 1 {
        r[0]
    } else {
        joined(r.drop_last()) + seq!['\n'] + r.last()
    }
}

/// The views of a vector of rows.
pub open spec fn rows_of_vecs(v: Seq<Vec<char>>) -> Seq<Seq<char>> {
    Seq::new(v.len(), |i: int| v[i]@)
}

/// `Jagged::default`: a buffer without rows.
#[verifier::external_body]
pub(crate) fn empty_lines() -> (l: Lines)
    ensures
        rows(l) == Seq::<Seq<char>>::empty(),
{
    edtui_jagged::Jagged::default()
}

/// `Jagged::new`: a buffer that holds the given rows.
#[verifier::external_body]
pub(crate) fn lines_from_rows(data: Vec<Vec<char>>) -> (l: Lines)
    ensures
        rows(l) == rows_of_vecs(data@),
{
    edtui_jagged::Jagged::new(data)
}

/// `Clone` of `Jagged`: a buffer with the same rows.
#[verifier::external_body]
pub(crate) fn clone_lines(lines: &Lines) -> (l: Lines)
    ensures
        rows(l) == rows(*lines),
{
    lines.clone()
}

/// `String::from(Jagged<char>)`: the rows flattened with a line break between
/// each two of them.
#[verifier::external_body]
pub(crate) fn lines_into_string(lines: Lines) -> (s: String)
    ensures
        s@ == joined(rows(lines)),
{
    String::from(lines)
}

/// The pieces of a text between its line breaks (one more than there are
/// line breaks).
pub open spec fn split_at_newlines(t: Seq<char>) -> Seq<Seq<char>>
    decreases t.len(),
{
    if t.len() == 0 {
        seq![Seq::empty()]
    } else if t.last() == '\n' {
        split_at_newlines(t.drop_last()).push(Seq::empty())
    } else {
        let p = split_at_newlines(t.drop_last());
        p.update(p.len() - 1, p.last().push(t.last()))
    }
}

/// A piece without the carriage return that ends it, if one does.
pub open spec fn strip_cr(s: Seq<char>) -> Seq<char> {
    if s.len() > 0 && s.last() == '\r' { s.drop_last() } else { s }
}

/// The rows that `Jagged::from` makes of a text: none for the empty text;
/// else the pieces between line breaks, where a piece that a line break
/// ends loses a carriage return before it (`str::lines` splits at `\n` and
/// `\r\n`), and a text that ends with a line break ends with an empty row.
pub open spec fn text_rows(text: Seq<char>) -> Seq<Seq<char>> {
    if text.len() == 0 {
        Seq::empty()
    } else {
        let p = split_at_newlines(text);
        Seq::new(p.len(), |i: int| if i < p.len() - 1 { strip_cr(p[i]) } else { p[i] })
    }
}

/// `Jagged::from` of a string slice.
#[verifier::external_body]
pub(crate) fn lines_from_str(text: &str) -> (l: Lines)
    ensures
        rows(l) == text_rows(text@),
{
    edtui_jagged::Jagged::from(text)
}

/// `Jagged::to_string`: the rows joined by line breaks.
#[verifier::external_body]
pub(crate) fn lines_to_string(lines: &Lines) -> (s: String)
    ensures
        s@ == joined(rows(*lines)),
{
    lines.to_string()
}

/// `Jagged::len`: the number of rows. The rows are held in a `Vec`, whose
/// length never exceeds `isize::MAX`.
#[verifier::external_body]
pub(crate) fn num_rows(lines: &Lines) -> (n: usize)
    ensures
        n == rows(*lines).len(),
        n <= isize::MAX,
{
    lines.len()
}

/// `Jagged::is_empty`: whether the buffer has no rows.
#[verifier::external_body]
pub(crate) fn has_no_rows(lines: &Lines) -> (b: bool)
    ensures
        b == (rows(*lines).len() == 0),
{
    lines.is_empty()
}

/// `Jagged::len_col`: the length of a row, if the row exists (a row is a
/// `Vec`, whose length never exceeds `isize::MAX`).
#[verifier::external_body]
pub(crate) fn len_col(lines: &Lines, row: usize) -> (n: Option<usize>)
    ensures
        n matches Some(k) ==> k <= isize::MAX,
        row < rows(*lines).len() ==> n is Some && n->0 == rows(*lines)[row as int].len(),
        row >= rows(*lines).len() ==> n is None,
{
    lines.len_col(row)
}

/// `Jagged::len_col_unchecked`: the length of an existing row.
#[verifier::external_body]
pub(crate) fn len_col_unchecked(lines: &Lines, row: usize) -> (n: usize)
    requires
        row < rows(*lines).len(),
    ensures
        n == rows(*lines)[row as int].len(),
        n <= isize::MAX,
{
    lines.len_col_unchecked(row)
}

/// `Jagged::last_col_index`: the last column of a row, zero for an empty or
/// missing row.
#[verifier::external_body]
pub(crate) fn last_col_index(lines: &Lines, row: usize) -> (n: usize)
    ensures
        n == last_col(rows(*lines), row as int),
{
    lines.last_col_index(row)
}

/// `Jagged::is_last_row`.
#[verifier::external_body]
pub(crate) fn is_last_row(lines: &Lines, i: Index2) -> (b: bool)
    ensures
        b == on_last_row(rows(*lines), i),
{
    lines.is_last_row(edtui_jagged::Index2::new(i.row, i.col))
}

/// `Jagged::is_last_col`.
#[verifier::external_body]
pub(crate) fn is_last_col(lines: &Lines, i: Index2) -> (b: bool)
    ensures
        b == on_last_col(rows(*lines), i),
{
    lines.is_last_col(edtui_jagged::Index2::new(i.row, i.col))
}

/// `Jagged::get` with a position: the character there, if any.
#[verifier::external_body]
pub(crate) fn get_char(lines: &Lines, i: Index2) -> (c: Option<char>)
    ensures
        c == char_at(rows(*lines), i),
{
    lines.get(edtui_jagged::Index2::new(i.row, i.col)).copied()
}

/// `Jagged::get` with a row index: a copy of the row, if it exists.
#[verifier::external_body]
pub(crate) fn get_row(lines: &Lines, row: usize) -> (r: Option<Vec<char>>)
    ensures
        row < rows(*lines).len() ==> r is Some && r->0@ == rows(*lines)[row as int],
        r matches Some(v) ==> v@.len() <= isize::MAX,
        row >= rows(*lines).len() ==> r is None,
{
    lines.get(edtui_jagged::index::RowIndex::new(row)).cloned()
}

/// `Jagged::next`: one step forward from a position.
#[verifier::external_body]
pub(crate) fn next_position(lines: &Lines, i: Index2) -> (r: Option<(Option<char>, Index2)>)
    requires
        i.row < rows(*lines).len() || i.col < usize::MAX,
    ensures
        r == step_forward(rows(*lines), i),
{
    lines.next(edtui_jagged::Index2::new(i.row, i.col)).map(|(c, p)| (c.copied(), Index2 { row: p.row, col: p.col }))
}

/// `Jagged::prev`: one step backward from a position.
#[verifier::external_body]
pub(crate) fn prev_position(lines: &Lines, i: Index2) -> (r: Option<(Option<char>, Index2)>)
    requires
        i.row < rows(*lines).len() || i.col > 0,
    ensures
        r == step_backward(rows(*lines), i),
{
    lines.prev(edtui_jagged::Index2::new(i.row, i.col)).map(|(c, p)| (c.copied(), Index2 { row: p.row, col: p.col }))
}

/// `Jagged::insert` of a character: inserts it into an existing row;
/// a position on a missing row leaves the buffer unchanged.
#[verifier::external_body]
pub(crate) fn insert_char_at(lines: &mut Lines, i: Index2, ch: char)
    requires
        i.row < rows(*old(lines)).len() ==> i.col <= rows(*old(lines))[i.row as int].len(),
    ensures
        i.row < rows(*old(lines)).len() ==> rows(*final(lines)) == rows(*old(lines)).update(
            i.row as int,
            rows(*old(lines))[i.row as int].insert(i.col as int, ch),
        ),
        i.row >= rows(*old(lines)).len() ==> rows(*final(lines)) == rows(*old(lines)),
{
    lines.insert(edtui_jagged::Index2::new(i.row, i.col), ch)
}

/// `Jagged::get_mut` with a row index, followed by an assignment: replaces
/// the contents of an existing row; a missing row leaves the buffer unchanged.
#[verifier::external_body]
pub(crate) fn set_row(lines: &mut Lines, row: usize, data: Vec<char>)
    ensures
        row < rows(*old(lines)).len() ==> rows(*final(lines)) == rows(*old(lines)).update(row as int, data@),
        row >= rows(*old(lines)).len() ==> rows(*final(lines)) == rows(*old(lines)),
{
    if let Some(r) = lines.get_mut(edtui_jagged::index::RowIndex::new(row)) {
        *r = data;
    }
}

/// `Jagged::get_mut` with a position, followed by an assignment: replaces
/// the character there; a position without a character leaves the buffer
/// unchanged.
#[verifier::external_body]
pub(crate) fn set_char(lines: &mut Lines, i: Index2, ch: char)
    ensures
        char_at(rows(*old(lines)), i) is Some ==> rows(*final(lines)) == rows(*old(lines)).update(
            i.row as int,
            rows(*old(lines))[i.row as int].update(i.col as int, ch),
        ),
        char_at(rows(*old(lines)), i) is None ==> rows(*final(lines)) == rows(*old(lines)),
{
    if let Some(c) = lines.get_mut(edtui_jagged::Index2::new(i.row, i.col)) {
        *c = ch;
    }
}

/// `Jagged::insert` of a row before the given row index.
#[verifier::external_body]
pub(crate) fn insert_row(lines: &mut Lines, row: usize, data: Vec<char>)
    requires
        row <= rows(*old(lines)).len(),
    ensures
        rows(*final(lines)) == rows(*old(lines)).insert(row as int, data@),
{
    lines.insert(edtui_jagged::index::RowIndex::new(row), data)
}

/// `Jagged::push` of a row: appends it after the last row.
#[verifier::external_body]
pub(crate) fn push_row(lines: &mut Lines, data: Vec<char>)
    ensures
        rows(*final(lines)) == rows(*old(lines)).push(data@),
{
    lines.push(data)
}

/// `Jagged::remove` of a character: removes and returns it.
#[verifier::external_body]
pub(crate) fn remove_char_at(lines: &mut Lines, i: Index2) -> (c: char)
    requires
        i.row < rows(*old(lines)).len(),
        i.col < rows(*old(lines))[i.row as int].len(),
    ensures
        c == rows(*old(lines))[i.row as int][i.col as int],
        rows(*final(lines)) == rows(*old(lines)).update(
            i.row as int,
            rows(*old(lines))[i.row as int].remove(i.col as int),
        ),
{
    lines.remove(edtui_jagged::Index2::new(i.row, i.col))
}

/// `Jagged::remove` of a row: removes and returns it.
#[verifier::external_body]
pub(crate) fn remove_row(lines: &mut Lines, row: usize) -> (v: Vec<char>)
    requires
        row < rows(*old(lines)).len(),
    ensures
        v@ == rows(*old(lines))[row as int],
        rows(*final(lines)) == rows(*old(lines)).remove(row as int),
{
    lines.remove(edtui_jagged::index::RowIndex::new(row))
}

/// `Jagged::split_off`: keeps what lies before the position and returns
/// the rest. At column zero whole rows move; otherwise the row is cut in two.
#[verifier::external_body]
pub(crate) fn split_off_at(lines: &mut Lines, at: Index2) -> (rest: Lines)
    requires
        at.col == 0 ==> at.row <= rows(*old(lines)).len(),
        at.col != 0 ==> at.row < rows(*old(lines)).len() && at.col <= rows(*old(lines))[at.row as int].len(),
    ensures
        at.col == 0 ==> rows(*final(lines)) == rows(*old(lines)).take(at.row as int)
            && rows(rest) == rows(*old(lines)).skip(at.row as int),
        at.col != 0 ==> rows(*final(lines)) == rows(*old(lines)).take(at.row as int).push(
                rows(*old(lines))[at.row as int].take(at.col as int))
            && rows(rest) == seq![rows(*old(lines))[at.row as int].skip(at.col as int)]
                + rows(*old(lines)).skip(at.row + 1),
{
    lines.split_off(edtui_jagged::Index2::new(at.row, at.col))
}

/// `Jagged::append`: moves all rows of `other` behind the rows of `lines`.
#[verifier::external_body]
pub(crate) fn append_lines(lines: &mut Lines, other: &mut Lines)
    ensures
        rows(*final(lines)) == rows(*old(lines)) + rows(*old(other)),
        rows(*final(other)) == Seq::<Seq<char>>::empty(),
{
    lines.append(other)
}

/// `Jagged::merge`: like `append`, but the first row of `other` continues the
/// last row of `lines`.
#[verifier::external_body]
pub(crate) fn merge_lines(lines: &mut Lines, other: &mut Lines)
    ensures
        rows(*old(other)).len() == 0 ==> rows(*final(lines)) == rows(*old(lines)),
        rows(*old(other)).len() > 0 && rows(*old(lines)).len() == 0 ==> rows(*final(lines)) == rows(*old(other)),
        rows(*old(other)).len() > 0 && rows(*old(lines)).len() > 0 ==> rows(*final(lines)) ==
            rows(*old(lines)).update(
                rows(*old(lines)).len() - 1,
                rows(*old(lines)).last() + rows(*old(other))[0],
            ) + rows(*old(other)).skip(1),
        rows(*final(other)) == Seq::<Seq<char>>::empty(),
{
    lines.merge(other)
}

/// `Jagged::join_lines`: appends the row below to the given row.
#[verifier::external_body]
pub(crate) fn join_lines(lines: &mut Lines, row: usize)
    requires
        row < usize::MAX,
    ensures
        row + 1 >= rows(*old(lines)).len() ==> rows(*final(lines)) == rows(*old(lines)),
        row + 1 < rows(*old(lines)).len() ==> rows(*final(lines)) == rows(*old(lines)).update(
            row as int,
            rows(*old(lines))[row as int] + rows(*old(lines))[row + 1],
        ).remove(row + 1),
{
    lines.join_lines(row)
}

/// `Jagged::copy_range` over an inclusive range.
#[verifier::external_body]
pub(crate) fn copy_range(lines: &Lines, start: Index2, end: Index2) -> (r: Lines)
    ensures
        rows(r) == copied_range(rows(*lines), start, end),
{
    lines.copy_range(edtui_jagged::Index2::new(start.row, start.col)..=edtui_jagged::Index2::new(end.row, end.col))
}

/// `Jagged::extract` over an inclusive range: removes the range from the
/// buffer and returns it.
#[verifier::external_body]
pub(crate) fn extract_range(lines: &mut Lines, start: Index2, end: Index2) -> (r: Lines)
    ensures
        rows(*final(lines)) == extracted_range(rows(*old(lines)), start, end).0,
        rows(r) == extracted_range(rows(*old(lines)), start, end).1,
{
    lines.extract(edtui_jagged::Index2::new(start.row, start.col)..=edtui_jagged::Index2::new(end.row, end.col))
}

/// `Jagged::match_indices`: the positions where the pattern occurs,
/// comparing characters case-insensitively.
#[verifier::external_body]
pub(crate) fn match_positions(lines: &Lines, pattern: &Vec<char>) -> (r: Vec<Index2>)
    ensures
        r@ == pattern_positions(rows(*lines), pattern@),
{
    lines.match_indices(pattern).map(|(_, i)| Index2 { row: i.row, col: i.col }).collect()
}

} // verus!
