//! The state of a text search.
use vstd::prelude::*;
use crate::index::{Index2, index_le};
use crate::lines::{Lines, rows, pattern_positions, match_positions};
use crate::selection::Selection;
use crate::text::string_from_chars;

verus! {

/// The number of bytes UTF-8 takes for a character.
pub open spec fn utf8_char_len(c: char) -> int {
    if (c as u32) < 0x80 { 1 } else if (c as u32) < 0x800 { 2 } else if (c as u32) < 0x10000 { 3 } else { 4 }
}

/// The number of bytes UTF-8 takes for a sequence of characters.
pub open spec fn utf8_len(s: Seq<char>) -> int
    decreases s.len(),
{
    if s.len() == 0 { 0 } else { utf8_len(s.drop_last()) + utf8_char_len(s.last()) }
}

/// The byte length of a pattern, saturating at `usize::MAX`.
pub open spec fn pattern_byte_len(s: Seq<char>) -> int {
    if utf8_len(s) <= usize::MAX { utf8_len(s) } else { usize::MAX as int }
}

/// `a + b`, saturating at `usize::MAX`.
pub open spec fn sat_add(a: int, b: int) -> int {
    if a + b <= usize::MAX { a + b } else { usize::MAX as int }
}

/// The index of the first match at or after `start`, if any.
pub open spec fn first_match_from(matches: Seq<Index2>, start: Index2) -> Option<int> {
    if exists|i: int| 0 <= i < matches.len() && index_le(start, matches[i]) {
        Some(choose|i: int| 0 <= i < matches.len() && index_le(start, matches[i])
            && forall|j: int| 0 <= j < i ==> !index_le(start, #[trigger] matches[j]))
    } else {
        None
    }
}

/// The number of bytes UTF-8 takes for characters (saturating).
pub fn utf8_byte_len(chars: &[char]) -> (n: usize)
    ensures
        n == pattern_byte_len(chars@),
{
    let mut n: usize = 0;
    let mut i: usize = 0;
    while i < chars.len()
        invariant
            i <= chars@.len(),
            n == pattern_byte_len(chars@.take(i as int)),
        decreases chars@.len() - i,
    {
        let c = chars[i];
        let k: usize = if (c as u32) < 0x80 { 1 } else if (c as u32) < 0x800 { 2 } else if (c as u32) < 0x10000 { 3 } else { 4 };
        proof {
            assert(chars@.take(i + 1).drop_last() =~= chars@.take(i as int));
            lemma_utf8_len_monotone(chars@, i as int);
        }
        n = n.saturating_add(k);
        i = i + 1;
    }
    assert(chars@.take(i as int) =~= chars@);
    n
}

/// The state of a search: the pattern typed so far, the positions where it
/// matches and which match is selected.
#[derive(Clone, Debug)]
pub struct SearchState {
    pub start_cursor: Index2,
    pub pattern: Vec<char>,
    pub matches: Vec<Index2>,
    pub selected_index: Option<usize>,
}

/// Selecting the first match at or after the start of the search (the very
/// first match if none lies after it): the new selected index and the match.
/// Without matches the selection stays.
pub open spec fn first_spec(s: SearchState) -> (Option<usize>, Option<Index2>) {
    match first_match_from(s.matches@, s.start_cursor) {
        Some(i) => (Some(i as usize), Some(s.matches@[i])),
        None => if s.matches@.len() > 0 {
            (Some(0usize), Some(s.matches@[0]))
        } else {
            (s.selected_index, None)
        },
    }
}

/// Selecting the match after the selected one, wrapping to the first.
/// Nothing is selected without a selected match.
pub open spec fn next_spec(s: SearchState) -> (Option<usize>, Option<Index2>) {
    match s.selected_index {
        None => (None, None),
        Some(i) => {
            let n: int = if i + 1 >= s.matches@.len() { 0 } else { i + 1 };
            (Some(n as usize), if n < s.matches@.len() { Some(s.matches@[n]) } else { None })
        },
    }
}

/// Selecting the match before the selected one, wrapping to the last.
/// Without matches the selection stays.
pub open spec fn previous_spec(s: SearchState) -> (Option<usize>, Option<Index2>) {
    let len = s.matches@.len();
    if len == 0 {
        (s.selected_index, None)
    } else {
        let n: int = match s.selected_index {
            Some(i) => if i == 0 { len - 1 } else { i - 1 },
            None => len - 1,
        };
        (Some(n as usize), if n < len { Some(s.matches@[n]) } else { None })
    }
}

impl SearchState {
    /// The state of a search that has not started: from (0, 0), with an
    /// empty pattern, no matches and nothing selected.
    pub open spec fn is_initial(self) -> bool {
        &&& self.start_cursor == (Index2 { row: 0, col: 0 })
        &&& self.pattern@ == Seq::<char>::empty()
        &&& self.matches@ == Seq::<Index2>::empty()
        &&& self.selected_index is None
    }

    /// A search that has not started.
    pub fn new() -> (s: Self)
        ensures
            s.is_initial(),
    {
        SearchState { start_cursor: Index2::new(0, 0), pattern: Vec::new(), matches: Vec::new(), selected_index: None }
    }

    /// The length of the pattern in bytes (saturating).
    pub fn len(&self) -> (n: usize)
        ensures
            n == pattern_byte_len(self.pattern@),
    {
        utf8_byte_len(self.pattern.as_slice())
    }

    /// Starts a new search from the given cursor.
    pub fn start(&mut self, start_cursor: Index2)
        ensures
            final(self).start_cursor == start_cursor,
            final(self).pattern@ == Seq::<char>::empty(),
            final(self).matches@ == Seq::<Index2>::empty(),
            final(self).selected_index == old(self).selected_index,
    {
        self.clear();
        self.start_cursor = start_cursor;
    }

    /// Clears the pattern and the matches.
    pub fn clear(&mut self)
        ensures
            final(self).start_cursor == old(self).start_cursor,
            final(self).pattern@ == Seq::<char>::empty(),
            final(self).matches@ == Seq::<Index2>::empty(),
            final(self).selected_index == old(self).selected_index,
    {
        self.pattern.clear();
        self.matches.clear();
    }

    /// Finds the positions where the pattern matches in the buffer.
    pub fn trigger_search(&mut self, lines: &Lines)
        ensures
            final(self).matches@ == pattern_positions(rows(*lines), old(self).pattern@),
            final(self).pattern == old(self).pattern,
            final(self).start_cursor == old(self).start_cursor,
            final(self).selected_index == old(self).selected_index,
    {
        self.matches = match_positions(lines, &self.pattern);
    }

    /// Appends a character to the pattern.
    pub fn push_char(&mut self, ch: char)
        ensures
            final(self).pattern@ == old(self).pattern@.push(ch),
            final(self).matches == old(self).matches,
            final(self).start_cursor == old(self).start_cursor,
            final(self).selected_index == old(self).selected_index,
    {
        self.pattern.push(ch);
    }

    /// Removes the last character of the pattern, if any.
    pub fn remove_char(&mut self)
        ensures
            old(self).pattern@.len() > 0 ==> final(self).pattern@ == old(self).pattern@.drop_last(),
            old(self).pattern@.len() == 0 ==> final(self).pattern@ == old(self).pattern@,
            final(self).matches == old(self).matches,
            final(self).start_cursor == old(self).start_cursor,
            final(self).selected_index == old(self).selected_index,
    {
        let _ = self.pattern.pop();
    }

    /// Selects the first match at or after the position where the search
    /// started, or the very first match if there is none after it.
    pub fn first(&mut self) -> (r: Option<Index2>)
        ensures
            *final(self) == (SearchState { selected_index: first_spec(*old(self)).0, ..*old(self) }),
            r == first_spec(*old(self)).1,
    {
        let mut i: usize = 0;
        while i < self.matches.len()
            invariant
                i <= self.matches@.len(),
                *self == *old(self),
                forall|j: int| 0 <= j < i ==> !index_le(self.start_cursor, #[trigger] self.matches@[j]),
            decreases self.matches@.len() - i,
        {
            let m = self.matches[i];
            if m.row > self.start_cursor.row || (m.row == self.start_cursor.row && m.col >= self.start_cursor.col) {
                proof {
                    let w = i as int;
                    assert(0 <= w < self.matches@.len() && index_le(self.start_cursor, self.matches@[w]));
                    let c = first_match_from(self.matches@, self.start_cursor)->0;
                    if c < w {
                        assert(!index_le(self.start_cursor, self.matches@[c]));
                    }
                    if c > w {
                        assert(!index_le(self.start_cursor, self.matches@[w]));
                    }
                }
                self.selected_index = Some(i);
                return Some(m);
            }
            i = i + 1;
        }
        if self.matches.len() > 0 {
            self.selected_index = Some(0);
            return Some(self.matches[0]);
        }
        None
    }

    /// The selected match, if any.
    pub fn current(&self) -> (r: Option<Index2>)
        ensures
            r == (match self.selected_index {
                Some(i) => if i < self.matches@.len() { Some(self.matches@[i as int]) } else { None },
                None => None,
            }),
    {
        match self.selected_index {
            Some(i) => if i < self.matches.len() { Some(self.matches[i]) } else { None },
            None => None,
        }
    }

    /// Selects the match after the selected one, wrapping around to the first.
    pub fn next(&mut self) -> (r: Option<Index2>)
        ensures
            *final(self) == (SearchState { selected_index: next_spec(*old(self)).0, ..*old(self) }),
            r == next_spec(*old(self)).1,
    {
        if let Some(selected) = self.selected_index {
            let new_selected = if selected >= self.matches.len() || selected + 1 >= self.matches.len() { 0 } else { selected + 1 };
            self.selected_index = Some(new_selected);
            return if new_selected < self.matches.len() { Some(self.matches[new_selected]) } else { None };
        }
        None
    }

    /// Selects the match before the selected one, wrapping around to the last.
    pub fn previous(&mut self) -> (r: Option<Index2>)
        ensures
            *final(self) == (SearchState { selected_index: previous_spec(*old(self)).0, ..*old(self) }),
            r == previous_spec(*old(self)).1,
    {
        let len = self.matches.len();
        if len == 0 {
            return None;
        }
        let new_selected = match self.selected_index {
            Some(i) => if i == 0 { len - 1 } else { i - 1 },
            None => len - 1,
        };
        self.selected_index = Some(new_selected);
        if new_selected < len { Some(self.matches[new_selected]) } else { None }
    }

    /// The pattern as a string.
    pub fn pattern_string(&self) -> (s: String)
        ensures
            s@ == self.pattern@,
    {
        string_from_chars(self.pattern.as_slice())
    }

    /// The selection that covers the selected match: from its start to the
    /// column `len - 1` bytes further (saturating).
    pub fn selected_match(&self) -> (r: Option<Selection>)
        ensures
            r == self.selected_match_spec(),
    {
        match self.current() {
            Some(start) => {
                let n = self.len();
                let k = if n > 0 { n - 1 } else { 0 };
                let end = Index2::new(start.row, start.col.saturating_add(k));
                Some(Selection::new(start, end))
            },
            None => None,
        }
    }

    /// The selection that covers the selected match: from its start to the
    /// column `len - 1` bytes further (saturating).
    pub open spec fn selected_match_spec(&self) -> Option<Selection> {
        match self.current_spec() {
            Some(start) => Some(Selection {
                start,
                end: Index2 {
                    row: start.row,
                    col: sat_add(
                        start.col as int,
                        if pattern_byte_len(self.pattern@) > 0 { pattern_byte_len(self.pattern@) - 1 } else { 0 },
                    ) as usize,
                },
                line_mode: false,
            }),
            None => None,
        }
    }

    /// The selected match, if any.
    pub open spec fn current_spec(&self) -> Option<Index2> {
        match self.selected_index {
            Some(i) => if i < self.matches@.len() { Some(self.matches@[i as int]) } else { None },
            None => None,
        }
    }
}

proof fn lemma_utf8_len_monotone(s: Seq<char>, i: int)
    requires
        0 <= i < s.len(),
    ensures
        utf8_len(s.take(i + 1)) == utf8_len(s.take(i)) + utf8_char_len(s[i]),
        utf8_len(s.take(i)) >= 0,
{
    assert(s.take(i + 1).drop_last() =~= s.take(i));
    lemma_utf8_len_nonneg(s.take(i));
}

/// UTF-8 lengths are never negative.
pub proof fn lemma_utf8_len_nonneg(s: Seq<char>)
    ensures
        utf8_len(s) >= 0,
    decreases s.len(),
{
    if s.len() > 0 {
        lemma_utf8_len_nonneg(s.drop_last());
    }
}

} // verus!
