//! Positions in the text buffer.
use vstd::prelude::*;

verus! {

/// A position in the buffer: a row and a column within that row.
#[derive(Clone, Copy, Debug, PartialEq, Eq, Structural, Hash)]
pub struct Index2 {
    /// The row index.
    pub row: usize,
    /// The column index.
    pub col: usize,
}

impl Index2 {
    /// Creates a position from a row and a column.
    pub fn new(row: usize, col: usize) -> (r: Self)
        ensures
            r.row == row,
            r.col == col,
    {
        Index2 { row, col }
    }
}

/// `a` comes strictly before `b`: rows first, then columns.
pub open spec fn index_lt(a: Index2, b: Index2) -> bool {
    a.row < b.row || (a.row == b.row && a.col < b.col)
}

/// `a` comes before `b` or equals it.
pub open spec fn index_le(a: Index2, b: Index2) -> bool {
    index_lt(a, b) || a == b
}

/// Whether `a` comes strictly before `b`.
pub fn is_before(a: &Index2, b: &Index2) -> (r: bool)
    ensures
        r == index_lt(*a, *b),
{
    a.row < b.row || (a.row == b.row && a.col < b.col)
}

/// Whether `a` comes before `b` or equals it.
pub fn is_before_or_at(a: &Index2, b: &Index2) -> (r: bool)
    ensures
        r == index_le(*a, *b),
{
    a.row < b.row || (a.row == b.row && a.col <= b.col)
}

/// A position given as a line and a column.
#[derive(Clone, Copy, Debug, PartialEq, Eq, Structural)]
pub struct Position {
    /// The line index.
    pub line: usize,
    /// The column index.
    pub column: usize,
}

impl Position {
    /// Creates a position from a line and a column.
    pub fn new(line: usize, column: usize) -> (r: Self)
        ensures
            r.line == line,
            r.column == column,
    {
        Position { line, column }
    }

    /// The same position as a row/column index.
    pub fn as_index(&self) -> (r: Index2)
        ensures
            r.row == self.line,
            r.col == self.column,
    {
        Index2::new(self.line, self.column)
    }

    /// The position of a row/column index.
    pub fn from_index(index: Index2) -> (r: Self)
        ensures
            r.line == index.row,
            r.column == index.col,
    {
        Position::new(index.row, index.col)
    }
}

} // verus!
