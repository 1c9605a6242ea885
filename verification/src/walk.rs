//! Walks through the buffer: character classes, word boundaries and
//! matching brackets.
use vstd::prelude::*;
use crate::index::{Index2, index_lt};
use crate::lines::{Lines, rows, char_at, row_len, last_col, on_last_row, step_forward, step_backward, on_last_col, get_char, next_position, prev_position, is_last_col};
use crate::text::{is_ascii_alnum, is_ascii_punct, is_ascii_ws, is_alphanumeric_ascii, is_punctuation_ascii, is_whitespace_ascii};

verus! {

/// The class of a character for word motions.
#[derive(Debug, Clone, Copy, PartialEq, Eq, Structural)]
pub enum CharacterClass {
    Unknown,
    Alphanumeric,
    Punctuation,
    Whitespace,
}

/// The class of a character: letters, digits and `_` are word characters,
/// other ASCII punctuation is punctuation; a missing character is unknown.
pub open spec fn class_of(c: Option<char>) -> CharacterClass {
    match c {
        None => CharacterClass::Unknown,
        Some(c) => if is_ascii_alnum(c) || c == '_' {
            CharacterClass::Alphanumeric
        } else if is_ascii_punct(c) {
            CharacterClass::Punctuation
        } else if is_ascii_ws(c) {
            CharacterClass::Whitespace
        } else {
            CharacterClass::Unknown
        },
    }
}

/// Two classes are alike when they are equal and known; an unknown class is
/// alike to no class, not even itself.
pub open spec fn alike(a: CharacterClass, b: CharacterClass) -> bool {
    a != CharacterClass::Unknown && a == b
}

/// Computes the class of a character.
pub fn character_class(c: Option<char>) -> (k: CharacterClass)
    ensures
        k == class_of(c),
{
    match c {
        None => CharacterClass::Unknown,
        Some(c) => if is_alphanumeric_ascii(c) || c == '_' {
            CharacterClass::Alphanumeric
        } else if is_punctuation_ascii(c) {
            CharacterClass::Punctuation
        } else if is_whitespace_ascii(c) {
            CharacterClass::Whitespace
        } else {
            CharacterClass::Unknown
        },
    }
}

/// Compares two classes.
pub fn same_class(a: CharacterClass, b: CharacterClass) -> (r: bool)
    ensures
        r == alike(a, b),
{
    match (a, b) {
        (CharacterClass::Unknown, _) | (_, CharacterClass::Unknown) => false,
        (CharacterClass::Alphanumeric, CharacterClass::Alphanumeric) => true,
        (CharacterClass::Punctuation, CharacterClass::Punctuation) => true,
        (CharacterClass::Whitespace, CharacterClass::Whitespace) => true,
        _ => false,
    }
}

/// Whether a position lies outside the buffer for a walk: its row does not
/// exist, or it is past the last character of a non-empty row.
pub open spec fn walk_out_of_bounds(r: Seq<Seq<char>>, p: Index2) -> bool {
    p.row >= r.len() || (p.col != 0 && p.col >= r[p.row as int].len())
}

/// A forward step reaches a later position: the next row, or the next
/// column of the same row; either way one that exists.
pub proof fn lemma_step_forward(r: Seq<Seq<char>>, p: Index2)
    ensures
        step_forward(r, p) matches Some(q) ==> {
            ||| (q.1.row == p.row + 1 && q.1.row < r.len())
            ||| (q.1.row == p.row && q.1.col == p.col + 1 && p.row < r.len() && q.1.col < r[p.row as int].len())
        },
{
}

/// A backward step reaches an earlier position: the previous row, or the
/// previous column of the same row.
pub proof fn lemma_step_backward(r: Seq<Seq<char>>, p: Index2)
    ensures
        step_backward(r, p) matches Some(q) ==> {
            ||| (q.1.row + 1 == p.row)
            ||| (q.1.row == p.row && q.1.col + 1 == p.col)
        },
{
}

/// Walking forward from `p`: the first position whose character is not
/// alike to `cls`, or the last position of the walk.
pub open spec fn scan_class_fwd(r: Seq<Seq<char>>, p: Index2, cls: CharacterClass) -> Index2
    decreases r.len() - p.row, row_len(r, p.row as int) - p.col,
{
    if !alike(class_of(char_at(r, p)), cls) {
        p
    } else {
        match step_forward(r, p) {
            None => p,
            Some(q) => {
                proof {
                    lemma_step_forward(r, p);
                }
                scan_class_fwd(r, q.1, cls)
            },
        }
    }
}

/// Walks forward from `start` while the characters are alike to `cls`;
/// returns the first position that is not, or the last one of the walk.
pub fn scan_class_forward(lines: &Lines, start: Index2, cls: CharacterClass) -> (p: Index2)
    requires
        start.row < rows(*lines).len(),
    ensures
        p == scan_class_fwd(rows(*lines), start, cls),
{
    let mut cur = start;
    loop
        invariant
            cur.row < rows(*lines).len(),
            scan_class_fwd(rows(*lines), cur, cls) == scan_class_fwd(rows(*lines), start, cls),
        decreases rows(*lines).len() - cur.row, row_len(rows(*lines), cur.row as int) - cur.col,
    {
        let c = get_char(lines, cur);
        if !same_class(character_class(c), cls) {
            return cur;
        }
        proof {
            lemma_step_forward(rows(*lines), cur);
        }
        match next_position(lines, cur) {
            None => {
                return cur;
            },
            Some(step) => {
                cur = step.1;
            },
        }
    }
}

/// Walking forward from `p` over characters alike to `cls`, stopping at the
/// end of a row: the last such position, or `prev` if `p` itself is not alike.
pub open spec fn scan_word_end_fwd(r: Seq<Seq<char>>, p: Index2, cls: CharacterClass, prev: Index2) -> Index2
    decreases r.len() - p.row, row_len(r, p.row as int) - p.col,
{
    if !alike(class_of(char_at(r, p)), cls) {
        prev
    } else if on_last_col(r, p) {
        p
    } else {
        match step_forward(r, p) {
            None => p,
            Some(q) => {
                proof {
                    lemma_step_forward(r, p);
                }
                scan_word_end_fwd(r, q.1, cls, p)
            },
        }
    }
}

/// Walks forward from `start` to the last character alike to `cls`, not
/// beyond the end of the row; returns `prev` if there is none.
pub fn scan_word_end_forward(lines: &Lines, start: Index2, cls: CharacterClass, prev: Index2) -> (p: Index2)
    requires
        start.row < rows(*lines).len(),
    ensures
        p == scan_word_end_fwd(rows(*lines), start, cls, prev),
{
    let mut cur = start;
    let mut last = prev;
    loop
        invariant
            cur.row < rows(*lines).len(),
            scan_word_end_fwd(rows(*lines), cur, cls, last) == scan_word_end_fwd(rows(*lines), start, cls, prev),
        decreases rows(*lines).len() - cur.row, row_len(rows(*lines), cur.row as int) - cur.col,
    {
        let c = get_char(lines, cur);
        if !same_class(character_class(c), cls) {
            return last;
        }
        if is_last_col(lines, cur) {
            return cur;
        }
        proof {
            lemma_step_forward(rows(*lines), cur);
        }
        match next_position(lines, cur) {
            None => {
                return cur;
            },
            Some(step) => {
                last = cur;
                cur = step.1;
            },
        }
    }
}

/// Walking backward from `p`: stops at column zero, or before the first
/// character not alike to `cls` (returning `prev`, the position walked
/// before), or at the start of the buffer.
pub open spec fn scan_class_back(r: Seq<Seq<char>>, p: Index2, cls: CharacterClass, prev: Index2) -> Index2
    decreases p.row, p.col,
{
    if p.col == 0 {
        p
    } else if !alike(class_of(char_at(r, p)), cls) {
        prev
    } else {
        match step_backward(r, p) {
            None => p,
            Some(q) => {
                proof {
                    lemma_step_backward(r, p);
                }
                scan_class_back(r, q.1, cls, p)
            },
        }
    }
}

/// Walks backward from `start` while the characters are alike to `cls`,
/// stopping at column zero.
pub fn scan_class_backward(lines: &Lines, start: Index2, cls: CharacterClass) -> (p: Index2)
    requires
        start.row < rows(*lines).len(),
    ensures
        p == scan_class_back(rows(*lines), start, cls, start),
{
    let mut cur = start;
    let mut last = start;
    loop
        invariant
            cur.row <= start.row,
            start.row < rows(*lines).len(),
            scan_class_back(rows(*lines), cur, cls, last) == scan_class_back(rows(*lines), start, cls, start),
        decreases cur.row, cur.col,
    {
        if cur.col == 0 {
            return cur;
        }
        let c = get_char(lines, cur);
        if !same_class(character_class(c), cls) {
            return last;
        }
        proof {
            lemma_step_backward(rows(*lines), cur);
        }
        match prev_position(lines, cur) {
            None => {
                return cur;
            },
            Some(step) => {
                last = cur;
                cur = step.1;
            },
        }
    }
}

/// The bracket that closes or opens the given one, and whether the walk to
/// it goes backward.
pub open spec fn bracket_partner(c: char) -> Option<(char, bool)> {
    if c == '{' { Some(('}', false)) }
    else if c == '}' { Some(('{', true)) }
    else if c == '(' { Some((')', false)) }
    else if c == ')' { Some(('(', true)) }
    else if c == '[' { Some((']', false)) }
    else if c == ']' { Some(('[', true)) }
    else { None }
}

/// `depth + 1`, saturating.
pub open spec fn inc_depth(depth: usize) -> usize {
    if depth < usize::MAX { (depth + 1) as usize } else { depth }
}

/// Walking forward from `p` with `depth` unclosed `open` brackets: the
/// position of the `close` bracket that brings the depth below zero.
pub open spec fn bracket_fwd(r: Seq<Seq<char>>, p: Index2, open: char, close: char, depth: usize) -> Option<Index2>
    decreases r.len() - p.row, row_len(r, p.row as int) - p.col,
{
    let v = char_at(r, p);
    if v == Some(close) && depth == 0 && open != close {
        Some(p)
    } else {
        let d: usize = if v == Some(open) { inc_depth(depth) } else if v == Some(close) { (depth - 1) as usize } else { depth };
        match step_forward(r, p) {
            None => None,
            Some(q) => {
                proof {
                    lemma_step_forward(r, p);
                }
                bracket_fwd(r, q.1, open, close, d)
            },
        }
    }
}

/// Walking backward from `p`, as [`bracket_fwd`] walks forward.
pub open spec fn bracket_back(r: Seq<Seq<char>>, p: Index2, open: char, close: char, depth: usize) -> Option<Index2>
    decreases p.row, p.col,
{
    let v = char_at(r, p);
    if v == Some(close) && depth == 0 && open != close {
        Some(p)
    } else {
        let d: usize = if v == Some(open) { inc_depth(depth) } else if v == Some(close) { (depth - 1) as usize } else { depth };
        match step_backward(r, p) {
            None => None,
            Some(q) => {
                proof {
                    lemma_step_backward(r, p);
                }
                bracket_back(r, q.1, open, close, d)
            },
        }
    }
}

/// The position of the bracket matching the one at `index`: the walk goes
/// forward from an opening bracket and backward from a closing one, and
/// skips over nested pairs.
pub open spec fn matching_bracket_spec(r: Seq<Seq<char>>, index: Index2) -> Option<Index2> {
    match char_at(r, index) {
        None => None,
        Some(c) => match bracket_partner(c) {
            None => None,
            Some(pair) => if !pair.1 {
                match step_forward(r, index) {
                    None => None,
                    Some(q) => bracket_fwd(r, q.1, c, pair.0, 0),
                }
            } else {
                match step_backward(r, index) {
                    None => None,
                    Some(q) => bracket_back(r, q.1, c, pair.0, 0),
                }
            },
        },
    }
}

/// Finds the bracket matching the one at `index`. Matching is mutual: see
/// `lemma_matching_bracket_symmetric` in the properties module.
pub fn find_matching_bracket(lines: &Lines, index: Index2) -> (r: Option<Index2>)
    ensures
        r == matching_bracket_spec(rows(*lines), index),
{
    let opening = match get_char(lines, index) {
        None => {
            return None;
        },
        Some(c) => c,
    };
    let (closing, reverse) = if opening == '{' { ('}', false) }
        else if opening == '}' { ('{', true) }
        else if opening == '(' { (')', false) }
        else if opening == ')' { ('(', true) }
        else if opening == '[' { (']', false) }
        else if opening == ']' { ('[', true) }
        else { return None; };
    let mut counter: usize = 0;
    if !reverse {
        let mut cur = match next_position(lines, index) {
            None => {
                return None;
            },
            Some(step) => step.1,
        };
        loop
            invariant
                cur.row < rows(*lines).len(),
                opening != closing,
                bracket_fwd(rows(*lines), cur, opening, closing, counter) == matching_bracket_spec(rows(*lines), index),
            decreases rows(*lines).len() - cur.row, row_len(rows(*lines), cur.row as int) - cur.col,
        {
            if let Some(value) = get_char(lines, cur) {
                if value == opening {
                    counter = if counter < usize::MAX { counter + 1 } else { counter };
                }
                if value == closing {
                    if counter == 0 {
                        return Some(cur);
                    }
                    counter = counter - 1;
                }
            }
            proof {
            lemma_step_forward(rows(*lines), cur);
        }
        match next_position(lines, cur) {
                None => {
                    return None;
                },
                Some(step) => {
                    cur = step.1;
                },
            }
        }
    } else {
        let mut cur = match prev_position(lines, index) {
            None => {
                return None;
            },
            Some(step) => step.1,
        };
        loop
            invariant
                cur.row < rows(*lines).len(),
                opening != closing,
                bracket_back(rows(*lines), cur, opening, closing, counter) == matching_bracket_spec(rows(*lines), index),
            decreases cur.row, cur.col,
        {
            if let Some(value) = get_char(lines, cur) {
                if value == opening {
                    counter = if counter < usize::MAX { counter + 1 } else { counter };
                }
                if value == closing {
                    if counter == 0 {
                        return Some(cur);
                    }
                    counter = counter - 1;
                }
            }
            proof {
            lemma_step_backward(rows(*lines), cur);
        }
        match prev_position(lines, cur) {
                None => {
                    return None;
                },
                Some(step) => {
                    cur = step.1;
                },
            }
        }
    }
}


/// The number of positions a walk can visit in the rows before `k`: each
/// row's characters and one more for its end.
pub open spec fn rows_size(r: Seq<Seq<char>>, k: int) -> int
    decreases k,
{
    if k <= 0 { 0 } else { rows_size(r, k - 1) + row_len(r, k - 1) + 1 }
}

/// The place of a position in the order of a walk through the buffer.
pub open spec fn walk_rank(r: Seq<Seq<char>>, p: Index2) -> int {
    rows_size(r, p.row as int) + p.col
}

/// A position that a walk through the buffer can stand on: a character, or
/// the start of an empty row.
pub open spec fn walkable(r: Seq<Seq<char>>, p: Index2) -> bool {
    p.row < r.len() && (p.col < r[p.row as int].len() || p.col == 0)
}

proof fn lemma_rows_size_mono(r: Seq<Seq<char>>, k: int, m: int)
    requires
        0 <= k <= m,
    ensures
        rows_size(r, k) <= rows_size(r, m),
    decreases m,
{
    if k < m {
        lemma_rows_size_mono(r, k, m - 1);
    }
}

/// Every position a walk stands on ranks below the size of the buffer.
pub(crate) proof fn lemma_rank_bounded(r: Seq<Seq<char>>, p: Index2)
    requires
        walkable(r, p),
    ensures
        0 <= walk_rank(r, p) < rows_size(r, r.len() as int),
{
    lemma_rows_size_mono(r, 0, p.row as int);
    lemma_rows_size_mono(r, p.row + 1, r.len() as int);
}

/// A forward step goes to a walkable position of higher rank, and the
/// backward step from there comes back.
pub(crate) proof fn lemma_forward_then_back(r: Seq<Seq<char>>, p: Index2)
    requires
        walkable(r, p),
    ensures
        step_forward(r, p) matches Some(s) ==> {
            &&& walkable(r, s.1)
            &&& walk_rank(r, s.1) > walk_rank(r, p)
            &&& step_backward(r, s.1) matches Some(t) && t.1 == p
        },
{
}

/// A backward step goes to a walkable position of lower rank, and the
/// forward step from there comes back.
pub(crate) proof fn lemma_back_then_forward(r: Seq<Seq<char>>, p: Index2)
    requires
        walkable(r, p),
        rows_size(r, r.len() as int) < usize::MAX,
    ensures
        step_backward(r, p) matches Some(s) ==> {
            &&& walkable(r, s.1)
            &&& walk_rank(r, s.1) < walk_rank(r, p)
            &&& step_forward(r, s.1) matches Some(t) && t.1 == p
        },
{
    if p.row > 0 {
        assert(rows_size(r, p.row as int) == rows_size(r, p.row - 1) + row_len(r, p.row - 1) + 1);
    }
    if let Some(s) = step_backward(r, p) {
        let q = s.1;
        if p.col == 0 {
            assert(p.row > 0);
            assert(q == Index2 { row: (p.row - 1) as usize, col: last_col(r, p.row - 1) as usize });
            assert(walkable(r, q));
            assert(!on_last_row(r, q));
            lemma_rows_size_mono(r, p.row as int, r.len() as int);
            lemma_rows_size_mono(r, 0, p.row - 1);
            assert(q.row as int == p.row - 1);
            assert(0 <= last_col(r, p.row - 1));
            assert(q.col as int == last_col(r, q.row as int));
            assert(on_last_col(r, q));
            assert(walk_rank(r, q) < walk_rank(r, p));
        } else {
            assert(q == Index2 { row: p.row, col: (p.col - 1) as usize });
            assert(walkable(r, q));
            assert(!on_last_col(r, q));
        }
    }
}

/// The depth of a bracket walk after it passes `v`.
pub open spec fn depth_after(v: Option<char>, open: char, close: char, depth: usize) -> usize {
    if v == Some(open) { inc_depth(depth) } else if v == Some(close) { (depth - 1) as usize } else { depth }
}

/// Where a forward bracket walk stops, it stops on the closing bracket.
pub(crate) proof fn lemma_bracket_fwd_ends_on_close(r: Seq<Seq<char>>, p: Index2, open: char, close: char, depth: usize)
    ensures
        bracket_fwd(r, p, open, close, depth) matches Some(j) ==> char_at(r, j) == Some(close),
    decreases r.len() - p.row, row_len(r, p.row as int) - p.col,
{
    let v = char_at(r, p);
    if !(v == Some(close) && depth == 0 && open != close) {
        if let Some(q) = step_forward(r, p) {
            lemma_step_forward(r, p);
            lemma_bracket_fwd_ends_on_close(r, q.1, open, close, depth_after(v, open, close, depth));
        }
    }
}

/// Where a backward bracket walk stops, it stops on the closing bracket.
pub(crate) proof fn lemma_bracket_back_ends_on_close(r: Seq<Seq<char>>, p: Index2, open: char, close: char, depth: usize)
    ensures
        bracket_back(r, p, open, close, depth) matches Some(j) ==> char_at(r, j) == Some(close),
    decreases p.row, p.col,
{
    let v = char_at(r, p);
    if !(v == Some(close) && depth == 0 && open != close) {
        if let Some(q) = step_backward(r, p) {
            lemma_step_backward(r, p);
            lemma_bracket_back_ends_on_close(r, q.1, open, close, depth_after(v, open, close, depth));
        }
    }
}

/// A backward walk for `close` that has passed `p` at the depth a forward
/// walk for `open` has after `p` stands, one step back, at the forward
/// walk's depth before `p`.
proof fn lemma_back_unfold(r: Seq<Seq<char>>, p: Index2, open: char, close: char, d: usize)
    requires
        open != close,
        step_backward(r, p) is Some,
        !(char_at(r, p) == Some(close) && d == 0),
        d < usize::MAX,
    ensures
        bracket_back(r, p, close, open, depth_after(char_at(r, p), open, close, d))
            == bracket_back(r, step_backward(r, p)->Some_0.1, close, open, d),
{
}

/// The same step, with the directions of the two walks exchanged.
proof fn lemma_fwd_unfold(r: Seq<Seq<char>>, p: Index2, open: char, close: char, d: usize)
    requires
        open != close,
        step_forward(r, p) is Some,
        !(char_at(r, p) == Some(close) && d == 0),
        d < usize::MAX,
    ensures
        bracket_fwd(r, p, close, open, depth_after(char_at(r, p), open, close, d))
            == bracket_fwd(r, step_forward(r, p)->Some_0.1, close, open, d),
{
}

/// A forward walk for `open` that stops at `j` is retraced by the backward
/// walk for `close` from just before `j`: that walk reaches the position
/// before `p` at the depth the forward walk had at `p`.
pub(crate) proof fn lemma_fwd_retraced(r: Seq<Seq<char>>, p: Index2, open: char, close: char, d: usize, j: Index2)
    requires
        open != close,
        walkable(r, p),
        rows_size(r, r.len() as int) < usize::MAX,
        d <= walk_rank(r, p),
        step_backward(r, p) is Some,
        !(char_at(r, p) == Some(close) && d == 0),
        bracket_fwd(r, p, open, close, d) == Some(j),
    ensures
        step_backward(r, j) is Some,
        bracket_back(r, step_backward(r, j)->Some_0.1, close, open, 0)
            == bracket_back(r, step_backward(r, p)->Some_0.1, close, open, d),
    decreases r.len() - p.row, row_len(r, p.row as int) - p.col,
{
    lemma_rank_bounded(r, p);
    lemma_forward_then_back(r, p);
    lemma_step_forward(r, p);
    let d2 = depth_after(char_at(r, p), open, close, d);
    let q = step_forward(r, p)->Some_0.1;
    lemma_back_unfold(r, p, open, close, d);
    if !(char_at(r, q) == Some(close) && d2 == 0) {
        lemma_fwd_retraced(r, q, open, close, d2, j);
    }
}

/// A backward walk for `open` that stops at `j` is retraced by the forward
/// walk for `close` from just after `j`, as in [`lemma_fwd_retraced`].
pub(crate) proof fn lemma_back_retraced(r: Seq<Seq<char>>, p: Index2, open: char, close: char, d: usize, j: Index2)
    requires
        open != close,
        walkable(r, p),
        rows_size(r, r.len() as int) < usize::MAX,
        d + walk_rank(r, p) < rows_size(r, r.len() as int),
        step_forward(r, p) is Some,
        !(char_at(r, p) == Some(close) && d == 0),
        bracket_back(r, p, open, close, d) == Some(j),
    ensures
        step_forward(r, j) is Some,
        bracket_fwd(r, step_forward(r, j)->Some_0.1, close, open, 0)
            == bracket_fwd(r, step_forward(r, p)->Some_0.1, close, open, d),
    decreases p.row, p.col,
{
    lemma_rank_bounded(r, p);
    lemma_back_then_forward(r, p);
    lemma_step_backward(r, p);
    let d2 = depth_after(char_at(r, p), open, close, d);
    let q = step_backward(r, p)->Some_0.1;
    lemma_fwd_unfold(r, p, open, close, d);
    if !(char_at(r, q) == Some(close) && d2 == 0) {
        lemma_back_retraced(r, q, open, close, d2, j);
    }
}

/// A forward bracket walk stops at its start or after it.
pub(crate) proof fn lemma_bracket_fwd_not_before(r: Seq<Seq<char>>, p: Index2, open: char, close: char, depth: usize)
    ensures
        bracket_fwd(r, p, open, close, depth) matches Some(j) ==> j == p || index_lt(p, j),
    decreases r.len() - p.row, row_len(r, p.row as int) - p.col,
{
    let v = char_at(r, p);
    if !(v == Some(close) && depth == 0 && open != close) {
        if let Some(q) = step_forward(r, p) {
            lemma_step_forward(r, p);
            lemma_bracket_fwd_not_before(r, q.1, open, close, depth_after(v, open, close, depth));
        }
    }
}

/// A backward bracket walk stops at its start or before it.
pub(crate) proof fn lemma_bracket_back_not_after(r: Seq<Seq<char>>, p: Index2, open: char, close: char, depth: usize)
    ensures
        bracket_back(r, p, open, close, depth) matches Some(j) ==> j == p || index_lt(j, p),
    decreases p.row, p.col,
{
    let v = char_at(r, p);
    if !(v == Some(close) && depth == 0 && open != close) {
        if let Some(q) = step_backward(r, p) {
            lemma_step_backward(r, p);
            lemma_bracket_back_not_after(r, q.1, open, close, depth_after(v, open, close, depth));
        }
    }
}

} // verus!
