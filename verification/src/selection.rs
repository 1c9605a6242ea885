//! Selections of text.
use vstd::prelude::*;
use crate::index::{Index2, index_le, index_lt};
use crate::lines::{
    Lines, rows, last_col, copied_range, extracted_range, copy_range, extract_range,
    insert_row, last_col_index,
};

verus! {

/// A selection between two positions, both included. In line mode the
/// selection covers whole rows.
#[derive(Debug, Clone, Copy, PartialEq, Eq, Structural)]
pub struct Selection {
    pub start: Index2,
    pub end: Index2,
    pub line_mode: bool,
}

impl Selection {
    /// The selection was made from a later position to an earlier one.
    pub open spec fn reversed(self) -> bool {
        index_lt(self.end, self.start)
    }

    /// The earlier of the two positions.
    pub open spec fn first(self) -> Index2 {
        if self.reversed() { self.end } else { self.start }
    }

    /// The later of the two positions.
    pub open spec fn last(self) -> Index2 {
        if self.reversed() { self.start } else { self.end }
    }

    /// The smaller and the larger row of the selection.
    pub open spec fn covers_row(self, row: int) -> bool {
        (self.start.row <= row <= self.end.row) || (self.end.row <= row <= self.start.row)
    }

    /// Whether a position lies in the selection.
    pub open spec fn covers(self, pos: Index2) -> bool {
        if self.line_mode {
            self.covers_row(pos.row as int)
        } else {
            index_le(self.first(), pos) && index_le(pos, self.last())
        }
    }

    /// Creates a character-wise selection.
    pub fn new(start: Index2, end: Index2) -> (s: Self)
        ensures
            s.start == start,
            s.end == end,
            !s.line_mode,
    {
        Selection { start, end, line_mode: false }
    }

    /// Turns the selection into a line-wise selection.
    pub fn line_mode(self) -> (s: Self)
        ensures
            s == (Selection { line_mode: true, ..self }),
    {
        Selection { line_mode: true, ..self }
    }

    /// Whether the position lies in the selection.
    pub fn contains(&self, pos: &Index2) -> (b: bool)
        ensures
            b == self.covers(*pos),
    {
        if self.line_mode {
            return self.contains_row(pos.row);
        }
        let (start, end) = if self.start.row < self.end.row
            || (self.start.row == self.end.row && self.start.col < self.end.col) {
            (self.start, self.end)
        } else {
            (self.end, self.start)
        };
        let (row, col) = (pos.row, pos.col);
        if row > start.row && row < end.row {
            true
        } else if row > start.row && row == end.row {
            col <= end.col
        } else if row == start.row && row < end.row {
            col >= start.col
        } else if row == start.row && row == end.row {
            col <= end.col && col >= start.col
        } else {
            false
        }
    }

    /// Whether the selection covers any part of the row.
    pub fn contains_row(&self, row_index: usize) -> (b: bool)
        ensures
            b == self.covers_row(row_index as int),
    {
        let (start_row, end_row) = if self.start.row < self.end.row {
            (self.start.row, self.end.row)
        } else {
            (self.end.row, self.start.row)
        };
        row_index >= start_row && row_index <= end_row
    }

    /// The earlier of the two positions.
    pub fn start(&self) -> (r: Index2)
        ensures
            r == self.first(),
    {
        if self.is_reversed() {
            return self.end;
        }
        self.start
    }

    /// The later of the two positions.
    pub fn end(&self) -> (r: Index2)
        ensures
            r == self.last(),
    {
        if self.is_reversed() {
            return self.start;
        }
        self.end
    }

    fn is_reversed(&self) -> (b: bool)
        ensures
            b == self.reversed(),
    {
        self.start.row > self.end.row || (self.start.row == self.end.row && self.start.col > self.end.col)
    }

    /// The inclusive range that a line-wise selection covers in a buffer.
    pub open spec fn line_range(self, r: Seq<Seq<char>>) -> (Index2, Index2) {
        (
            Index2 { row: self.first().row, col: 0 },
            Index2 { row: self.last().row, col: last_col(r, self.last().row as int) as usize },
        )
    }

    /// What copying the selection out of a buffer yields. A line-wise copy
    /// starts with an empty row, which marks it as line-wise.
    pub open spec fn copied_from(self, r: Seq<Seq<char>>) -> Seq<Seq<char>> {
        if self.line_mode {
            seq![Seq::<char>::empty()] + copied_range(r, self.line_range(r).0, self.line_range(r).1)
        } else {
            copied_range(r, self.first(), self.last())
        }
    }

    /// What extracting the selection leaves in a buffer and what it takes out.
    pub open spec fn extracted_from(self, r: Seq<Seq<char>>) -> (Seq<Seq<char>>, Seq<Seq<char>>) {
        if self.line_mode {
            let parts = extracted_range(r, self.line_range(r).0, self.line_range(r).1);
            (parts.0, seq![Seq::<char>::empty()] + parts.1)
        } else {
            extracted_range(r, self.first(), self.last())
        }
    }

    /// Copies the selection out of a buffer.
    pub fn copy_from(&self, lines: &Lines) -> (l: Lines)
        ensures
            rows(l) == self.copied_from(rows(*lines)),
    {
        if self.line_mode {
            let mut st = self.start();
            let mut en = self.end();
            st.col = 0;
            en.col = last_col_index(lines, en.row);
            let mut copied = copy_range(lines, st, en);
            insert_row(&mut copied, 0, Vec::new());
            proof {
                assert(rows(copied) =~= seq![Seq::<char>::empty()] + copied_range(rows(*lines), st, en));
            }
            return copied;
        }
        copy_range(lines, self.start(), self.end())
    }

    /// Removes the selection from a buffer and returns what it held.
    pub fn extract_from(&self, lines: &mut Lines) -> (l: Lines)
        ensures
            rows(*final(lines)) == self.extracted_from(rows(*old(lines))).0,
            rows(l) == self.extracted_from(rows(*old(lines))).1,
    {
        if self.line_mode {
            let st = Index2::new(self.start().row, 0);
            let en = Index2::new(self.end().row, last_col_index(lines, self.end().row));
            let mut extracted = extract_range(lines, st, en);
            insert_row(&mut extracted, 0, Vec::new());
            proof {
                assert(rows(extracted) =~= seq![Seq::<char>::empty()] + extracted_range(rows(*old(lines)), st, en).1);
            }
            return extracted;
        }
        extract_range(lines, self.start(), self.end())
    }

    /// The columns of a row (of the given length) that the selection covers,
    /// both included, or `None` if the selection does not reach the row.
    pub open spec fn columns_in_row(self, row: int, row_len: int) -> Option<(int, int)> {
        if self.first().row > row || self.last().row < row {
            None
        } else {
            Some((
                if self.first().row == row { if self.first().col < row_len { self.first().col as int } else { row_len } } else { 0 },
                if self.last().row == row { if self.last().col < row_len { self.last().col as int } else { row_len } } else { row_len },
            ))
        }
    }

    /// The columns that a selection covers in a row are in order.
    pub proof fn lemma_columns_ordered(self, row: int, row_len: int)
        requires
            row_len >= 0,
        ensures
            self.columns_in_row(row, row_len) matches Some(p) ==> p.0 <= p.1,
    {
    }

    /// The columns of a row that the selection covers.
    pub fn get_selected_columns_in_row(&self, row_index: usize, row_len: usize) -> (r: Option<(usize, usize)>)
        ensures
            r matches Some(p) ==> self.columns_in_row(row_index as int, row_len as int) == Some((p.0 as int, p.1 as int)),
            r is None <==> self.columns_in_row(row_index as int, row_len as int) is None,
    {
        let (start, end) = (self.start(), self.end());
        let start_col = if start.row < row_index {
            0
        } else if start.row > row_index {
            return None;
        } else if start.col < row_len {
            start.col
        } else {
            row_len
        };
        let end_col = if end.row < row_index {
            return None;
        } else if end.row > row_index {
            row_len
        } else if end.col < row_len {
            end.col
        } else {
            row_len
        };
        Some((start_col, end_col))
    }
}

/// Moves the end of the selection, if there is one, to the given position.
pub fn set_selection(selection: &mut Option<Selection>, index: Index2)
    ensures
        *final(selection) == (match *old(selection) {
            Some(s) => Some(Selection { end: index, ..s }),
            None => None,
        }),
{
    if let Some(s) = selection {
        s.end = index;
    }
}

} // verus!
