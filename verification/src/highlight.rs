//! Ranges of text shown in a style of the caller's choosing.
use vstd::prelude::*;
use crate::index::Index2;
use crate::selection::Selection;

verus! {

#[verifier::external_type_specification]
#[verifier::external_body]
pub struct ExStyle(ratatui::style::Style);

/// A range of text, both ends included, with the style it is shown in.
#[derive(Debug, Clone, Copy)]
pub struct Highlight {
    /// One end of the range.
    pub start: Index2,
    /// The other end of the range.
    pub end: Index2,
    /// The style of the range.
    pub style: ratatui::style::Style,
}

impl Highlight {
    /// The range as a character-wise selection.
    pub open spec fn range(self) -> Selection {
        Selection { start: self.start, end: self.end, line_mode: false }
    }

    /// Creates a highlight.
    pub fn new(start: Index2, end: Index2, style: ratatui::style::Style) -> (h: Self)
        ensures
            h.start == start,
            h.end == end,
            h.style == style,
    {
        Highlight { start, end, style }
    }

    /// Whether a position lies in the range.
    pub fn contains(&self, pos: &Index2) -> (b: bool)
        ensures
            b == self.range().covers(*pos),
    {
        Selection::new(self.start, self.end).contains(pos)
    }

    /// The earlier end of the range.
    pub fn start(&self) -> (r: Index2)
        ensures
            r == self.range().first(),
    {
        Selection::new(self.start, self.end).start()
    }

    /// The later end of the range.
    pub fn end(&self) -> (r: Index2)
        ensures
            r == self.range().last(),
    {
        Selection::new(self.start, self.end).end()
    }

    /// Whether the range reaches the row.
    pub fn contains_row(&self, row: usize) -> (b: bool)
        ensures
            b == self.range().covers_row(row as int),
    {
        Selection::new(self.start, self.end).contains_row(row)
    }

    /// The columns of a row (of the given length) that the range covers,
    /// both included, or `None` if the range does not reach the row.
    pub fn get_columns_in_row(&self, row: usize, row_len: usize) -> (r: Option<(usize, usize)>)
        ensures
            r matches Some(p) ==> self.range().columns_in_row(row as int, row_len as int) == Some((p.0 as int, p.1 as int)),
            r is None <==> self.range().columns_in_row(row as int, row_len as int) is None,
    {
        Selection::new(self.start, self.end).get_selected_columns_in_row(row, row_len)
    }
}

} // verus!
