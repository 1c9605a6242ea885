//! Styled runs of text, as a row is shown on screen: splitting them where a
//! selection starts and ends, cropping them where the view is scrolled, and
//! finding screen columns in them.
use vstd::prelude::*;
use crate::index::Index2;
use crate::search::{utf8_len, pattern_byte_len, utf8_byte_len, lemma_utf8_len_nonneg};
use crate::selection::Selection;
use crate::text::{str_chars, char_width, chars_width, display_width, string_from_chars, str_width, unicode_str_width, cols_before};
use crate::view::LineWrapper;
use crate::view::capped_width;
use crate::text::chars_display_width;
use crate::text::lemma_width_nonneg;

verus! {

/// A run of text in one style.
#[derive(Debug, PartialEq)]
pub struct InternalSpan {
    /// The characters of the run.
    pub content: Vec<char>,
    /// Its style.
    pub style: ratatui::style::Style,
}

impl Clone for InternalSpan {
    fn clone(&self) -> (c: Self)
        ensures
            span_view(c) == span_view(*self),
    {
        self.clone_span()
    }
}

/// A span as its characters and style.
pub open spec fn span_view(s: InternalSpan) -> (Seq<char>, ratatui::style::Style) {
    (s.content@, s.style)
}

/// Spans as their characters and styles.
pub open spec fn spans_view(s: Seq<InternalSpan>) -> Seq<(Seq<char>, ratatui::style::Style)> {
    Seq::new(s.len(), |i: int| span_view(s[i]))
}

/// The first `mid` characters and the rest.
pub open spec fn cut_at(s: Seq<char>, mid: int) -> (Seq<char>, Seq<char>) {
    let m = if mid < s.len() { mid } else { s.len() as int };
    (s.take(m), s.skip(m))
}

/// The number of UTF-8 bytes of the spans, all together.
pub open spec fn spans_bytes(s: Seq<(Seq<char>, ratatui::style::Style)>) -> int
    decreases s.len(),
{
    if s.len() == 0 {
        0
    } else {
        spans_bytes(s.drop_last()) + utf8_len(s.last().0)
    }
}

/// The number of UTF-8 bytes of the spans, capped at `usize::MAX`.
pub open spec fn capped_bytes(s: Seq<(Seq<char>, ratatui::style::Style)>) -> int {
    if spans_bytes(s) <= usize::MAX { spans_bytes(s) } else { usize::MAX as int }
}

/// The pieces that one span becomes when the characters from `split_start`
/// to `split_end` (both included, counted over all spans) take `style`; the
/// span starts at character `offset`.
pub open spec fn split_piece(
    c: Seq<char>,
    st: ratatui::style::Style,
    offset: int,
    split_start: int,
    split_end: int,
    style: ratatui::style::Style,
) -> Seq<(Seq<char>, ratatui::style::Style)> {
    let start = offset;
    let end = offset + (if c.len() > 0 { c.len() - 1 } else { 0 });
    if end < split_start || start > split_end {
        seq![(c, st)]
    } else if split_start <= start && split_end < end {
        let p = cut_at(c, split_end - start + 1);
        seq![(p.0, style), (p.1, st)]
    } else if split_start > start && split_end >= end {
        let p = cut_at(c, split_start - start);
        seq![(p.0, st), (p.1, style)]
    } else if split_start > start && split_end < end {
        let p = cut_at(c, split_start - start);
        let q = cut_at(p.1, (split_end - start + 1) - (split_start - start));
        seq![(p.0, st), (q.0, style), (q.1, st)]
    } else {
        seq![(c, style)]
    }
}

/// Span `i` has the range to restyle strictly inside it, so that it is cut
/// in three.
pub open spec fn middle_cut(s: Seq<(Seq<char>, ratatui::style::Style)>, i: int, split_start: int, split_end: int) -> bool {
    let start = flat(s.take(i)).len() as int;
    let end = start + (if s[i].0.len() > 0 { s[i].0.len() - 1 } else { 0 });
    &&& !(end < split_start || start > split_end)
    &&& split_start > start
    &&& split_end < end
}

/// The spans from index `i` on, split as `split_piece` says; span `i`
/// starts at character `offset`.
pub open spec fn split_from(
    s: Seq<(Seq<char>, ratatui::style::Style)>,
    i: int,
    offset: int,
    split_start: int,
    split_end: int,
    style: ratatui::style::Style,
) -> Seq<(Seq<char>, ratatui::style::Style)>
    decreases s.len() - i,
{
    if i < 0 || i >= s.len() {
        seq![]
    } else {
        split_piece(s[i].0, s[i].1, offset, split_start, split_end, style)
            + split_from(s, i + 1, offset + s[i].0.len(), split_start, split_end, style)
    }
}

/// Where cropping `crop_at` bytes from the left cuts the spans: the index
/// of the first span that stays and how many of its characters go (by its
/// byte offset), scanning from span `i`, which starts at byte `offset`.
pub open spec fn crop_scan(s: Seq<(Seq<char>, ratatui::style::Style)>, i: int, offset: int, crop_at: int) -> (int, int)
    decreases s.len() - i,
{
    if i < 0 || i >= s.len() {
        (s.len() as int, 0)
    } else if offset >= crop_at {
        (i, 0)
    } else if offset + pattern_byte_len(s[i].0) > crop_at {
        (i, crop_at - offset)
    } else {
        crop_scan(s, i + 1, offset + pattern_byte_len(s[i].0), crop_at)
    }
}

/// The spans after cropping `crop_at` bytes from the left.
pub open spec fn cropped(s: Seq<(Seq<char>, ratatui::style::Style)>, crop_at: int) -> Seq<(Seq<char>, ratatui::style::Style)> {
    let (first, cut) = crop_scan(s, 0, 0, crop_at);
    let rest = s.skip(first);
    if cut > 0 && rest.len() > 0 {
        rest.update(0, (cut_at(rest[0].0, cut).1, rest[0].1))
    } else {
        rest
    }
}

/// The characters of spans, one span after the other.
pub open spec fn flat(s: Seq<(Seq<char>, ratatui::style::Style)>) -> Seq<char>
    decreases s.len(),
{
    if s.len() == 0 {
        Seq::empty()
    } else {
        flat(s.drop_last()) + s.last().0
    }
}

impl InternalSpan {
    /// A span of the characters of `content` in `style`.
    pub fn new(content: &str, style: &ratatui::style::Style) -> (s: Self)
        ensures
            s.content@ == content@,
            s.style == *style,
    {
        InternalSpan { content: str_chars(content), style: *style }
    }

    /// The number of UTF-8 bytes of the spans (saturating).
    pub fn spans_len(spans: &[InternalSpan]) -> (n: usize)
        ensures
            n == capped_bytes(spans_view(spans@)),
    {
        let ghost v = spans_view(spans@);
        let mut n: usize = 0;
        let mut i: usize = 0;
        while i < spans.len()
            invariant
                v == spans_view(spans@),
                i <= spans@.len(),
                n == (if spans_bytes(v.take(i as int)) <= usize::MAX { spans_bytes(v.take(i as int)) } else { usize::MAX as int }),
                spans_bytes(v.take(i as int)) >= 0,
            decreases spans@.len() - i,
        {
            let k = utf8_byte_len(spans[i].content.as_slice());
            proof {
                assert(v.take(i + 1).drop_last() =~= v.take(i as int));
                assert(v.take(i + 1).last() == v[i as int]);
                lemma_utf8_len_nonneg(v[i as int].0);
            }
            n = n.saturating_add(k);
            i = i + 1;
        }
        assert(v.take(i as int) =~= v);
        n
    }

    /// Gives the characters from `split_start` to `split_end` (both
    /// included, counted over all spans) the style `style`, splitting spans
    /// where the range starts and ends.
    pub fn split_spans(spans: &[InternalSpan], split_start: usize, split_end: usize, style: &ratatui::style::Style) -> (v: Vec<InternalSpan>)
        requires
            flat(spans_view(spans@)).len() <= usize::MAX,
            split_start <= split_end + 1 || !(exists|i: int| 0 <= i < spans@.len()
                && #[trigger] middle_cut(spans_view(spans@), i, split_start as int, split_end as int)),
        ensures
            spans_view(v@) == split_from(spans_view(spans@), 0, 0, split_start as int, split_end as int, *style),
    {
        let ghost s = spans_view(spans@);
        let mut out: Vec<InternalSpan> = Vec::new();
        let mut offset: usize = 0;
        let mut i: usize = 0;
        proof {
            lemma_flat_prefix(s, 0);
        }
        while i < spans.len()
            invariant
                s == spans_view(spans@),
                i <= s.len(),
                offset == flat(s.take(i as int)).len(),
                flat(s).len() <= usize::MAX,
                spans_view(out@) + split_from(s, i as int, offset as int, split_start as int, split_end as int, *style)
                    == split_from(s, 0, 0, split_start as int, split_end as int, *style),
                split_start <= split_end + 1 || !(exists|j: int| 0 <= j < s.len()
                    && #[trigger] middle_cut(s, j, split_start as int, split_end as int)),
            decreases s.len() - i,
        {
            let span = &spans[i];
            let c = &span.content;
            let len = c.len();
            proof {
                lemma_flat_prefix(s, i + 1);
                assert(s.take(i + 1).drop_last() =~= s.take(i as int));
            }
            let start = offset;
            let end = if len > 0 { offset + (len - 1) } else { offset };
            let ghost before = spans_view(out@);
            let ghost piece = split_piece(c@, span.style, offset as int, split_start as int, split_end as int, *style);
            if end < split_start || start > split_end {
                out.push(InternalSpan { content: c.clone(), style: span.style });
            } else if split_start <= start && split_end < end {
                let (left, right) = split_chars_at(c, split_end - start + 1);
                out.push(InternalSpan { content: left, style: *style });
                out.push(InternalSpan { content: right, style: span.style });
            } else if split_start > start && split_end >= end {
                let (left, right) = split_chars_at(c, split_start - start);
                out.push(InternalSpan { content: left, style: span.style });
                out.push(InternalSpan { content: right, style: *style });
            } else if split_start > start && split_end < end {
                proof {
                    if split_start > split_end + 1 {
                        assert(middle_cut(s, i as int, split_start as int, split_end as int));
                    }
                }
                let (left, rest) = split_chars_at(c, split_start - start);
                let (middle, right) = split_chars_at(&rest, (split_end - start + 1) - (split_start - start));
                out.push(InternalSpan { content: left, style: span.style });
                out.push(InternalSpan { content: middle, style: *style });
                out.push(InternalSpan { content: right, style: span.style });
            } else {
                out.push(InternalSpan { content: c.clone(), style: *style });
            }
            proof {
                assert(spans_view(out@) =~= before + piece);
                assert(split_from(s, i as int, offset as int, split_start as int, split_end as int, *style)
                    == piece + split_from(s, i + 1, offset + len, split_start as int, split_end as int, *style));
                assert(before + (piece + split_from(s, i + 1, offset + len, split_start as int, split_end as int, *style))
                    =~= spans_view(out@) + split_from(s, i + 1, offset + len, split_start as int, split_end as int, *style));
            }
            offset = offset + len;
            i = i + 1;
        }
        proof {
            assert(split_from(s, i as int, offset as int, split_start as int, split_end as int, *style) =~= seq![]);
            assert(spans_view(out@) + seq![] =~= spans_view(out@));
        }
        out
    }

    /// Gives the part of the spans that a selection covers in a row the
    /// style `style`; `None` if the selection does not reach the row. The
    /// row is taken to be as long as the spans' UTF-8 bytes.
    pub fn apply_selection(spans: &[InternalSpan], row_index: usize, selection: &Selection, style: &ratatui::style::Style) -> (r: Option<Vec<InternalSpan>>)
        requires
            flat(spans_view(spans@)).len() <= usize::MAX,
        ensures
            ({
                let n = capped_bytes(spans_view(spans@));
                match selection.columns_in_row(row_index as int, n) {
                    None => r is None,
                    Some(p) => r matches Some(v) && spans_view(v@) == split_from(spans_view(spans@), 0, 0, p.0, p.1, *style),
                }
            }),
    {
        let n = InternalSpan::spans_len(spans);
        match selection.get_selected_columns_in_row(row_index, n) {
            None => None,
            Some((start, end)) => Some(InternalSpan::split_spans(spans, start, end, style)),
        }
    }

    /// Crops `crop_at` bytes of text from the left of the spans, as when the
    /// view is scrolled to the right.
    pub fn crop_spans(spans: &mut Vec<InternalSpan>, crop_at: usize)
        ensures
            spans_view(final(spans)@) == cropped(spans_view(old(spans)@), crop_at as int),
    {
        let ghost s = spans_view(spans@);
        let mut offset: usize = 0;
        let mut i: usize = 0;
        let mut first: usize = spans.len();
        let mut cut: usize = 0;
        while i < spans.len()
            invariant_except_break
                first == s.len(),
                cut == 0,
            invariant
                s == spans_view(spans@),
                s == spans_view(old(spans)@),
                i <= s.len(),
                offset <= crop_at,
                crop_scan(s, 0, 0, crop_at as int) == crop_scan(s, i as int, offset as int, crop_at as int),
            ensures
                crop_scan(s, 0, 0, crop_at as int) == (first as int, cut as int),
                first <= s.len(),
                s == spans_view(spans@),
                cut > 0 ==> first < s.len(),
            decreases s.len() - i,
        {
            let w = utf8_byte_len(spans[i].content.as_slice());
            if offset >= crop_at {
                first = i;
                break;
            }
            proof {
                lemma_utf8_len_nonneg(s[i as int].0);
            }
            if w > crop_at - offset {
                first = i;
                cut = crop_at - offset;
                break;
            }
            offset = offset + w;
            i = i + 1;
        }
        if first > 0 {
            let mut kept: Vec<InternalSpan> = Vec::new();
            let mut j: usize = first;
            while j < spans.len()
                invariant
                    s == spans_view(spans@),
                    first <= j <= s.len(),
                    spans_view(kept@) == s.subrange(first as int, j as int),
                decreases s.len() - j,
            {
                let ghost before = spans_view(kept@);
                kept.push(spans[j].clone_span());
                assert(spans_view(kept@) =~= before.push(s[j as int]));
                assert(s.subrange(first as int, j + 1) =~= s.subrange(first as int, j as int).push(s[j as int]));
                j = j + 1;
            }
            *spans = kept;
            assert(s.subrange(first as int, s.len() as int) =~= s.skip(first as int));
        } else {
            assert(s.skip(0) =~= s);
        }
        if cut > 0 {
            let ghost before = spans_view(spans@);
            let first_span = spans[0].clone_span();
            let (_left, right) = split_chars_at(&first_span.content, cut);
            spans.set(0, InternalSpan { content: right, style: first_span.style });
            assert(spans_view(spans@) =~= before.update(0, (cut_at(before[0].0, cut as int).1, before[0].1)));
        }
    }

    /// A copy of the span.
    pub fn clone_span(&self) -> (c: Self)
        ensures
            span_view(c) == span_view(*self),
    {
        InternalSpan { content: self.content.clone(), style: self.style }
    }
}

/// The first `mid` characters and the rest.
pub fn split_chars_at(s: &Vec<char>, mid: usize) -> (r: (Vec<char>, Vec<char>))
    ensures
        (r.0@, r.1@) == cut_at(s@, mid as int),
{
    let m = if mid < s.len() { mid } else { s.len() };
    let mut left: Vec<char> = Vec::new();
    let mut right: Vec<char> = Vec::new();
    let mut i: usize = 0;
    while i < s.len()
        invariant
            m <= s@.len(),
            i <= s@.len(),
            left@ == s@.take(if i < m { i as int } else { m as int }),
            right@ == (if i <= m { Seq::<char>::empty() } else { s@.subrange(m as int, i as int) }),
        decreases s@.len() - i,
    {
        if i < m {
            left.push(s[i]);
            assert(s@.take(i + 1) =~= s@.take(i as int).push(s@[i as int]));
        } else {
            right.push(s[i]);
            assert(s@.subrange(m as int, i + 1) =~= (if i <= m { Seq::<char>::empty() } else { s@.subrange(m as int, i as int) }).push(s@[i as int]));
        }
        i = i + 1;
    }
    assert(s@.subrange(m as int, s@.len() as int) =~= s@.skip(m as int));
    proof {
        if m == s@.len() {
            assert(s@.skip(m as int) =~= Seq::<char>::empty());
        }
    }
    (left, right)
}

/// The characters of the first `k` spans are as many as the first `k`
/// spans' characters, and no more than all of them.
pub proof fn lemma_flat_prefix(s: Seq<(Seq<char>, ratatui::style::Style)>, k: int)
    requires
        0 <= k <= s.len(),
    ensures
        flat(s.take(k)).len() <= flat(s).len(),
        k > 0 ==> flat(s.take(k)).len() == flat(s.take(k - 1)).len() + s[k - 1].0.len(),
    decreases s.len(),
{
    if k == s.len() {
        assert(s.take(k) =~= s);
    } else {
        assert(s.take(k) =~= s.drop_last().take(k));
        lemma_flat_prefix(s.drop_last(), k);
    }
    if k > 0 {
        assert(s.take(k).drop_last() =~= s.take(k - 1));
    }
}

/// A row of text on the screen: its characters from the scroll offset on,
/// the styles of plain and selected text, and its row index.
pub struct InternalLine<'a> {
    /// The characters of the row.
    pub line: &'a [char],
    /// The style of plain text.
    pub base: ratatui::style::Style,
    /// The style of selected text.
    pub highlighted: ratatui::style::Style,
    /// The row index in the buffer.
    pub row_index: usize,
    /// How many characters are scrolled out on the left.
    pub scroll_offset: usize,
}

/// Whether any of the selections covers the position.
pub open spec fn any_covers(sels: Seq<Option<Selection>>, pos: Index2) -> bool
    decreases sels.len(),
{
    if sels.len() == 0 {
        false
    } else {
        any_covers(sels.drop_last(), pos) || (sels.last() matches Some(s) && s.covers(pos))
    }
}

/// The runs of a row, from its `i`-th shown character on, grouped by
/// whether they are selected; `cur` is the run being built and `prev`
/// whether it is selected.
pub open spec fn group_from(
    l: Seq<char>,
    sels: Seq<Option<Selection>>,
    row: usize,
    offset: int,
    i: int,
    cur: Seq<char>,
    prev: bool,
    base: ratatui::style::Style,
    highlighted: ratatui::style::Style,
) -> Seq<(Seq<char>, ratatui::style::Style)>
    decreases l.len() - offset - i,
{
    if offset + i >= l.len() || i < 0 {
        seq![(cur, if prev { highlighted } else { base })]
    } else {
        let c = any_covers(sels, Index2 { row, col: (offset + i) as usize });
        if i != 0 && prev != c {
            seq![(cur, if prev { highlighted } else { base })]
                + group_from(l, sels, row, offset, i + 1, seq![l[offset + i]], c, base, highlighted)
        } else {
            group_from(l, sels, row, offset, i + 1, cur.push(l[offset + i]), c, base, highlighted)
        }
    }
}

impl<'a> InternalLine<'a> {
    /// A row shown from column `col_offset` on.
    pub fn new(line: &'a [char], base: ratatui::style::Style, highlighted: ratatui::style::Style, row_index: usize, col_offset: usize) -> (l: Self)
        ensures
            l.line@ == line@,
            l.base == base,
            l.highlighted == highlighted,
            l.row_index == row_index,
            l.scroll_offset == col_offset,
    {
        InternalLine { line, base, highlighted, row_index, scroll_offset: col_offset }
    }

    /// The spans of the shown part of the row: runs of characters that the
    /// selections cover take the highlighted style, the others the plain
    /// one. There is always at least one span, maybe empty.
    pub fn into_spans(self, selections: &[Option<Selection>]) -> (v: Vec<InternalSpan>)
        ensures
            spans_view(v@) == group_from(self.line@, selections@, self.row_index, self.scroll_offset as int, 0, seq![], false,
                self.base, self.highlighted),
    {
        let l = self.line;
        let ghost lv = l@;
        let ghost sels = selections@;
        let offset = self.scroll_offset;
        let base = self.base;
        let hl = self.highlighted;
        let row = self.row_index;
        let mut spans: Vec<InternalSpan> = Vec::new();
        let mut current: Vec<char> = Vec::new();
        let mut prev = false;
        if offset >= l.len() {
            spans.push(InternalSpan { content: current, style: base });
            assert(spans_view(spans@) =~= group_from(lv, sels, row, offset as int, 0, seq![], false, base, hl));
            return spans;
        }
        let mut i: usize = 0;
        while i < l.len() - offset
            invariant
                lv == l@,
                sels == selections@,
                offset < lv.len(),
                i <= lv.len() - offset,
                spans_view(spans@) + group_from(lv, sels, row, offset as int, i as int, current@, prev, base, hl)
                    == group_from(lv, sels, row, offset as int, 0, seq![], false, base, hl),
            decreases lv.len() - offset - i,
        {
            let pos = Index2::new(row, offset + i);
            let selected = covered_by_any(selections, &pos);
            let ch = l[offset + i];
            let ghost before = spans_view(spans@);
            let ghost cur = current@;
            if i != 0 && prev != selected {
                let done = InternalSpan { content: current, style: if prev { hl } else { base } };
                spans.push(done);
                current = Vec::new();
                current.push(ch);
                proof {
                    assert(spans_view(spans@) =~= before.push((cur, if prev { hl } else { base })));
                    assert(before + (seq![(cur, if prev { hl } else { base })]
                        + group_from(lv, sels, row, offset as int, i + 1, seq![ch], selected, base, hl))
                        =~= spans_view(spans@) + group_from(lv, sels, row, offset as int, i + 1, current@, selected, base, hl));
                }
            } else {
                current.push(ch);
                assert(current@ == cur.push(ch));
            }
            prev = selected;
            i = i + 1;
        }
        let ghost before = spans_view(spans@);
        let ghost cur = current@;
        spans.push(InternalSpan { content: current, style: if prev { hl } else { base } });
        assert(spans_view(spans@) =~= before + seq![(cur, if prev { hl } else { base })]);
        spans
    }
}

/// Whether any of the selections covers the position.
pub fn covered_by_any(selections: &[Option<Selection>], pos: &Index2) -> (b: bool)
    ensures
        b == any_covers(selections@, *pos),
{
    let mut found = false;
    let mut i: usize = 0;
    while i < selections.len()
        invariant
            i <= selections@.len(),
            found == any_covers(selections@.take(i as int), *pos),
        decreases selections@.len() - i,
    {
        assert(selections@.take(i + 1).drop_last() =~= selections@.take(i as int));
        if let Some(s) = &selections[i] {
            if s.contains(pos) {
                found = true;
            }
        }
        i = i + 1;
    }
    assert(selections@.take(i as int) =~= selections@);
    found
}

/// The characters of spans, one span after the other.
pub fn flat_chars(spans: &[InternalSpan]) -> (v: Vec<char>)
    requires
        flat(spans_view(spans@)).len() <= usize::MAX,
    ensures
        v@ == flat(spans_view(spans@)),
{
    let ghost s = spans_view(spans@);
    let mut all: Vec<char> = Vec::new();
    let mut i: usize = 0;
    while i < spans.len()
        invariant
            s == spans_view(spans@),
            i <= s.len(),
            all@ == flat(s.take(i as int)),
            flat(s).len() <= usize::MAX,
        decreases s.len() - i,
    {
        proof {
            lemma_flat_prefix(s, i + 1);
            assert(s.take(i + 1).drop_last() =~= s.take(i as int));
        }
        let c = &spans[i].content;
        let mut j: usize = 0;
        let ghost start = all@;
        while j < c.len()
            invariant
                j <= c@.len(),
                all@ == start + c@.take(j as int),
                start.len() + c@.len() <= usize::MAX,
            decreases c@.len() - j,
        {
            all.push(c[j]);
            assert(start + c@.take(j + 1) =~= (start + c@.take(j as int)).push(c@[j as int]));
            j = j + 1;
        }
        assert(c@.take(j as int) =~= c@);
        i = i + 1;
    }
    assert(s.take(i as int) =~= s);
    all
}

/// The screen column of the `n`-th character of spans: the width of the
/// characters before it (all of them, if there are fewer), capped at
/// `usize::MAX`.
pub open spec fn width_position(s: Seq<(Seq<char>, ratatui::style::Style)>, n: int, tab_width: usize) -> usize {
    let f = flat(s);
    capped_width(f.take(if n < f.len() { n } else { f.len() as int }), tab_width)
}

/// The screen column of the `n`-th character of spans.
pub fn unicode_width_position_in_spans(spans: &[InternalSpan], n: usize, tab_width: usize) -> (w: usize)
    requires
        flat(spans_view(spans@)).len() <= usize::MAX,
    ensures
        w == width_position(spans_view(spans@), n as int, tab_width),
{
    let all = flat_chars(spans);
    let m = if n < all.len() { n } else { all.len() };
    let mut prefix: Vec<char> = Vec::new();
    let mut k: usize = 0;
    while k < m
        invariant
            m <= all@.len(),
            k <= m,
            prefix@ == all@.take(k as int),
        decreases m - k,
    {
        prefix.push(all[k]);
        assert(all@.take(k + 1) =~= all@.take(k as int).push(all@[k as int]));
        k = k + 1;
    }
    chars_width(prefix.as_slice(), tab_width)
}

/// The screen column of the `n`-th character of spans; without spans, `n`.
pub fn find_position_in_spans(spans: &[InternalSpan], char_pos: usize, tab_width: usize) -> (w: usize)
    requires
        flat(spans_view(spans@)).len() <= usize::MAX,
    ensures
        spans@.len() == 0 ==> w == char_pos,
        spans@.len() > 0 ==> w == width_position(spans_view(spans@), char_pos as int, tab_width),
{
    if spans.len() == 0 {
        return char_pos;
    }
    unicode_width_position_in_spans(spans, char_pos, tab_width)
}

/// The number of characters of spans.
pub fn count_characters_in_spans(spans: &[InternalSpan]) -> (n: usize)
    requires
        flat(spans_view(spans@)).len() <= usize::MAX,
    ensures
        n == flat(spans_view(spans@)).len(),
{
    let ghost s = spans_view(spans@);
    let mut n: usize = 0;
    let mut i: usize = 0;
    while i < spans.len()
        invariant
            s == spans_view(spans@),
            i <= s.len(),
            n == flat(s.take(i as int)).len(),
            flat(s).len() <= usize::MAX,
        decreases s.len() - i,
    {
        proof {
            lemma_flat_prefix(s, i + 1);
        }
        n = n + spans[i].content.len();
        i = i + 1;
    }
    assert(s.take(i as int) =~= s);
    n
}

/// Characters with each tab replaced by `tab_width` spaces.
pub open spec fn expand_tabs(s: Seq<char>, tab_width: usize) -> Seq<char>
    decreases s.len(),
{
    if s.len() == 0 {
        Seq::empty()
    } else {
        expand_tabs(s.drop_last(), tab_width) + (if s.last() == '\t' { Seq::new(tab_width as nat, |i: int| ' ') } else { seq![s.last()] })
    }
}

/// The display width of a span: that of its text with tabs as spaces.
pub fn span_width(span: &InternalSpan, tab_width: usize) -> (w: usize)
    requires
        span.content@.len() * (if tab_width > 1 { tab_width as int } else { 1 }) <= usize::MAX,
    ensures
        w == unicode_str_width(expand_tabs(span.content@, tab_width)),
        span.content@.len() == 0 ==> w == 0,
{
    let c = &span.content;
    let mut out: Vec<char> = Vec::new();
    let mut i: usize = 0;
    while i < c.len()
        invariant
            i <= c@.len(),
            out@ == expand_tabs(c@.take(i as int), tab_width),
            out@.len() <= i * (if tab_width > 1 { tab_width as int } else { 1 }),
            c@.len() * (if tab_width > 1 { tab_width as int } else { 1 }) <= usize::MAX,
        decreases c@.len() - i,
    {
        assert(c@.take(i + 1).drop_last() =~= c@.take(i as int));
        let ghost before = out@;
        proof {
            assert((i + 1) * (if tab_width > 1 { tab_width as int } else { 1 }) <= c@.len() * (if tab_width > 1 { tab_width as int } else { 1 })) by (nonlinear_arith)
                requires i + 1 <= c@.len();
            assert((i + 1) * (if tab_width > 1 { tab_width as int } else { 1 }) == i * (if tab_width > 1 { tab_width as int } else { 1 }) + (if tab_width > 1 { tab_width as int } else { 1 })) by (nonlinear_arith);
        }
        if c[i] == '\t' {
            let mut k: usize = 0;
            while k < tab_width
                invariant
                    k <= tab_width,
                    out@ == before + Seq::new(k as nat, |j: int| ' '),
                    before.len() + tab_width <= usize::MAX,
                decreases tab_width - k,
            {
                out.push(' ');
                assert(before + Seq::new((k + 1) as nat, |j: int| ' ') =~= (before + Seq::new(k as nat, |j: int| ' ')).push(' '));
                k = k + 1;
            }
        } else {
            out.push(c[i]);
            assert(out@ =~= before + seq![c@[i as int]]);
        }
        i = i + 1;
    }
    assert(c@.take(i as int) =~= c@);
    let text = string_from_chars(out.as_slice());
    str_width(text.as_str())
}

/// The factor by which tabs can lengthen text: the tab width, at least one.
pub open spec fn tab_factor(tab_width: usize) -> int {
    if tab_width > 1 { tab_width as int } else { 1 }
}

/// Every span's text, with tabs as spaces, fits in memory.
pub open spec fn widths_fit(s: Seq<(Seq<char>, ratatui::style::Style)>, tab_width: usize) -> bool {
    forall|i: int| 0 <= i < s.len() ==> #[trigger] s[i].0.len() * tab_factor(tab_width) <= usize::MAX
}

/// The display widths of spans added up.
pub open spec fn sum_span_widths(s: Seq<(Seq<char>, ratatui::style::Style)>, tab_width: usize) -> int
    decreases s.len(),
{
    if s.len() == 0 {
        0
    } else {
        sum_span_widths(s.drop_last(), tab_width) + unicode_str_width(expand_tabs(s.last().0, tab_width))
    }
}

/// The display width of spans added up, capped at `usize::MAX`.
pub open spec fn capped_span_widths(s: Seq<(Seq<char>, ratatui::style::Style)>, tab_width: usize) -> int {
    if sum_span_widths(s, tab_width) <= usize::MAX { sum_span_widths(s, tab_width) } else { usize::MAX as int }
}

/// The display width of spans (saturating).
pub fn spans_width(spans: &[InternalSpan], tab_width: usize) -> (w: usize)
    requires
        widths_fit(spans_view(spans@), tab_width),
    ensures
        w == capped_span_widths(spans_view(spans@), tab_width),
{
    let ghost s = spans_view(spans@);
    let mut sum: usize = 0;
    let mut i: usize = 0;
    while i < spans.len()
        invariant
            s == spans_view(spans@),
            i <= s.len(),
            widths_fit(s, tab_width),
            sum == capped_span_widths(s.take(i as int), tab_width),
            sum_span_widths(s.take(i as int), tab_width) >= 0,
        decreases s.len() - i,
    {
        assert(s.take(i + 1).drop_last() =~= s.take(i as int));
        assert(s[i as int].0.len() * tab_factor(tab_width) <= usize::MAX);
        let w = span_width(&spans[i], tab_width);
        sum = sum.saturating_add(w);
        i = i + 1;
    }
    assert(s.take(i as int) =~= s);
    sum
}

/// Rows of spans as their characters and styles.
pub open spec fn rows_view(w: Seq<Vec<InternalSpan>>) -> Seq<Seq<(Seq<char>, ratatui::style::Style)>> {
    Seq::new(w.len(), |i: int| spans_view(w[i]@))
}

/// Where the `char_pos`-th character (counted from the start of screen row
/// `row`) of a wrapped row is shown: on the screen row that holds it, at the
/// width of the characters before it there. A position past the end goes
/// just after the last character, or to the start of a new screen row if
/// the last one is full.
pub open spec fn wrapped_position(
    w: Seq<Seq<(Seq<char>, ratatui::style::Style)>>,
    row: int,
    char_pos: int,
    max_width: int,
    tab_width: usize,
) -> (int, int)
    decreases w.len() - row,
{
    if row < 0 || row >= w.len() {
        let last = if w.len() > 0 { capped_span_widths(w.last(), tab_width) } else { 0 };
        if last >= max_width {
            (w.len() as int, 0)
        } else {
            (if w.len() > 0 { w.len() - 1 } else { 0 }, last)
        }
    } else {
        let count = flat(w[row]).len() as int;
        let max_pos = if count > 0 { count - 1 } else { 0 };
        if char_pos <= max_pos {
            (row, width_position(w[row], char_pos, tab_width) as int)
        } else if row + 1 < w.len() {
            wrapped_position(w, row + 1, char_pos - count, max_width, tab_width)
        } else {
            wrapped_position(w, w.len() as int, char_pos, max_width, tab_width)
        }
    }
}

/// The screen row and column of the `position`-th character of a row that
/// was wrapped into rows of spans.
pub fn find_position_in_wrapped_spans(wrapped: &[Vec<InternalSpan>], position: usize, max_width: usize, tab_width: usize) -> (p: Index2)
    requires
        forall|i: int| 0 <= i < wrapped@.len() ==> flat(#[trigger] spans_view(wrapped@[i]@)).len() <= usize::MAX,
        wrapped@.len() > 0 ==> widths_fit(spans_view(wrapped@.last()@), tab_width),
    ensures
        wrapped@.len() == 0 ==> p == (Index2 { row: 0, col: position }),
        wrapped@.len() > 0 ==> (p.row as int, p.col as int) == wrapped_position(rows_view(wrapped@), 0, position as int, max_width as int, tab_width),
{
    let ghost w = rows_view(wrapped@);
    if wrapped.len() == 0 {
        return Index2::new(0, position);
    }
    let mut char_pos: usize = position;
    let mut row: usize = 0;
    while row < wrapped.len()
        invariant
            w == rows_view(wrapped@),
            w.len() > 0,
            row < w.len(),
            forall|i: int| 0 <= i < wrapped@.len() ==> flat(#[trigger] spans_view(wrapped@[i]@)).len() <= usize::MAX,
            wrapped_position(w, 0, position as int, max_width as int, tab_width)
                == wrapped_position(w, row as int, char_pos as int, max_width as int, tab_width),
        ensures
            wrapped_position(w, 0, position as int, max_width as int, tab_width)
                == wrapped_position(w, w.len() as int, char_pos as int, max_width as int, tab_width),
        decreases w.len() - row,
    {
        assert(w[row as int] == spans_view(wrapped@[row as int]@));
        let count = count_characters_in_spans(wrapped[row].as_slice());
        let max_pos = if count > 0 { count - 1 } else { 0 };
        if char_pos <= max_pos {
            let col = unicode_width_position_in_spans(wrapped[row].as_slice(), char_pos, tab_width);
            return Index2::new(row, col);
        }
        if row + 1 < wrapped.len() {
            char_pos = char_pos - count;
            row = row + 1;
        } else {
            break;
        }
    }
    let last = wrapped.len() - 1;
    assert(w.last() == spans_view(wrapped@.last()@));
    let last_width = spans_width(wrapped[last].as_slice(), tab_width);
    if last_width >= max_width {
        Index2::new(wrapped.len(), 0)
    } else {
        Index2::new(last, last_width)
    }
}

/// Every character of the text fits on a screen row `max_width` cells wide.
pub open spec fn chars_fit(c: Seq<char>, max_width: int, tab_width: usize) -> bool {
    forall|j: int| 0 <= j < c.len() ==> display_width(#[trigger] c[j], tab_width) <= max_width
}

/// Every character of the spans fits on a screen row.
pub open spec fn spans_fit(s: Seq<(Seq<char>, ratatui::style::Style)>, max_width: int, tab_width: usize) -> bool {
    forall|i: int| 0 <= i < s.len() ==> chars_fit(#[trigger] s[i].0, max_width, tab_width)
}

/// The display width of text with tabs as spaces.
pub open spec fn text_width(c: Seq<char>, tab_width: usize) -> int {
    unicode_str_width(expand_tabs(c, tab_width)) as int
}

/// Wrapping the rest `rem` of a span in style `st` that does not fit: while
/// it is wider than the room left (`room` cells), the part that fits ends
/// the current screen row and a new row starts with the whole width free.
/// Gives the finished rows, the new current row and the part left over.
pub open spec fn split_rest(
    rem: Seq<char>,
    st: ratatui::style::Style,
    room: int,
    max_width: int,
    tab_width: usize,
    current: Seq<(Seq<char>, ratatui::style::Style)>,
) -> (Seq<Seq<(Seq<char>, ratatui::style::Style)>>, Seq<(Seq<char>, ratatui::style::Style)>, Seq<char>)
    decreases rem.len(), (if room < max_width { 1int } else { 0int }),
    when chars_fit(rem, max_width, tab_width) && 0 <= room <= max_width
{
    if rem.len() > 0 && text_width(rem, tab_width) > room {
        let p = cut_at(rem, cols_before(rem, 0, 0, room, tab_width) as int);
        let r = split_rest(p.1, st, max_width, max_width, tab_width, seq![]);
        (seq![current.push((p.0, st))] + r.0, r.1, r.2)
    } else {
        (seq![], current, rem)
    }
}

/// The screen rows of spans from span `i` on, with `current` the row being
/// filled, `width` cells wide so far.
pub open spec fn wrap_spans_from(
    s: Seq<(Seq<char>, ratatui::style::Style)>,
    i: int,
    current: Seq<(Seq<char>, ratatui::style::Style)>,
    width: int,
    max_width: int,
    tab_width: usize,
) -> Seq<Seq<(Seq<char>, ratatui::style::Style)>>
    decreases s.len() - i,
{
    if i < 0 || i >= s.len() {
        if current.len() > 0 { seq![current] } else { seq![] }
    } else if width + text_width(s[i].0, tab_width) > max_width {
        let r = split_rest(s[i].0, s[i].1, max_width - width, max_width, tab_width, current);
        r.0 + wrap_spans_from(s, i + 1, r.1.push((r.2, s[i].1)), text_width(r.2, tab_width), max_width, tab_width)
    } else {
        wrap_spans_from(s, i + 1, current.push(s[i]), width + text_width(s[i].0, tab_width), max_width, tab_width)
    }
}

/// Splitting never yields an empty first part when the room is the whole
/// width and the first character fits.
proof fn lemma_split_progress(rem: Seq<char>, max_width: int, tab_width: usize)
    requires
        rem.len() > 0,
        chars_fit(rem, max_width, tab_width),
    ensures
        cols_before(rem, 0, 0, max_width, tab_width) >= 1,
{
    assert(display_width(rem[0], tab_width) <= max_width);
}

/// A copy of a row of spans.
pub fn clone_spans(v: &Vec<InternalSpan>) -> (c: Vec<InternalSpan>)
    ensures
        spans_view(c@) == spans_view(v@),
{
    let mut c: Vec<InternalSpan> = Vec::new();
    let mut i: usize = 0;
    while i < v.len()
        invariant
            i <= v@.len(),
            spans_view(c@) == spans_view(v@).take(i as int),
        decreases v@.len() - i,
    {
        let ghost before = spans_view(c@);
        c.push(v[i].clone_span());
        assert(spans_view(c@) =~= before.push(spans_view(v@)[i as int]));
        assert(spans_view(v@).take(i + 1) =~= spans_view(v@).take(i as int).push(spans_view(v@)[i as int]));
        i = i + 1;
    }
    assert(spans_view(v@).take(i as int) =~= spans_view(v@));
    c
}

impl LineWrapper {
    /// Cuts text where its running width would exceed `split_at` cells.
    pub fn split_str_at(s: &Vec<char>, split_at: usize, tab_width: usize) -> (r: (Vec<char>, Vec<char>))
        ensures
            (r.0@, r.1@) == cut_at(s@, cols_before(s@, 0, 0, split_at as int, tab_width) as int),
    {
        let mut width: usize = 0;
        let mut i: usize = 0;
        while i < s.len()
            invariant
                i <= s@.len(),
                width <= split_at,
                cols_before(s@, 0, 0, split_at as int, tab_width) == i + cols_before(s@, i as int, width as int, split_at as int, tab_width),
            ensures
                i <= s@.len(),
                cols_before(s@, 0, 0, split_at as int, tab_width) == i,
            decreases s@.len() - i,
        {
            let w = char_width(s[i], tab_width);
            if w > split_at || width > split_at - w {
                break;
            }
            width = width + w;
            i = i + 1;
        }
        split_chars_at(s, i)
    }

    /// Cuts a span where its running width would exceed `split_at` cells;
    /// both parts keep its style.
    pub fn split_span_at(span: &InternalSpan, split_at: usize, tab_width: usize) -> (r: (InternalSpan, InternalSpan))
        ensures
            ({
                let p = cut_at(span.content@, cols_before(span.content@, 0, 0, split_at as int, tab_width) as int);
                span_view(r.0) == (p.0, span.style) && span_view(r.1) == (p.1, span.style)
            }),
    {
        let (a, b) = LineWrapper::split_str_at(&span.content, split_at, tab_width);
        (InternalSpan { content: a, style: span.style }, InternalSpan { content: b, style: span.style })
    }

    /// Wraps spans into screen rows no wider than `max_width` cells,
    /// splitting spans where a row ends.
    pub fn wrap_spans(spans: Vec<InternalSpan>, max_width: usize, tab_width: usize) -> (v: Vec<Vec<InternalSpan>>)
        requires
            spans_fit(spans_view(spans@), max_width as int, tab_width),
            widths_fit(spans_view(spans@), tab_width),
        ensures
            rows_view(v@) == wrap_spans_from(spans_view(spans@), 0, seq![], 0, max_width as int, tab_width),
    {
        let ghost s = spans_view(spans@);
        let mut wrapped: Vec<Vec<InternalSpan>> = Vec::new();
        let mut current: Vec<InternalSpan> = Vec::new();
        let mut width: usize = 0;
        let mut i: usize = 0;
        assert(spans_view(current@) =~= Seq::<(Seq<char>, ratatui::style::Style)>::empty());
        assert(rows_view(wrapped@) + wrap_spans_from(s, 0, seq![], 0, max_width as int, tab_width)
            =~= wrap_spans_from(s, 0, seq![], 0, max_width as int, tab_width));
        while i < spans.len()
            invariant
                s == spans_view(spans@),
                i <= s.len(),
                width <= max_width,
                spans_fit(s, max_width as int, tab_width),
                widths_fit(s, tab_width),
                rows_view(wrapped@) + wrap_spans_from(s, i as int, spans_view(current@), width as int, max_width as int, tab_width)
                    == wrap_spans_from(s, 0, seq![], 0, max_width as int, tab_width),
            decreases s.len() - i,
        {
            let span = spans[i].clone_span();
            assert(span_view(span) == s[i as int]);
            assert(s[i as int].0.len() * tab_factor(tab_width) <= usize::MAX);
            assert(chars_fit(s[i as int].0, max_width as int, tab_width));
            let w = span_width(&span, tab_width);
            if w > max_width - width {
                let ghost r0 = split_rest(span.content@, span.style, (max_width - width) as int, max_width as int, tab_width, spans_view(current@));
                let ghost base = rows_view(wrapped@);
                let mut remaining = span;
                let mut room: usize = max_width - width;
                loop
                    invariant
                        i < s.len(),
                        room <= max_width,
                        remaining.style == s[i as int].1,
                        chars_fit(remaining.content@, max_width as int, tab_width),
                        remaining.content@.len() * tab_factor(tab_width) <= usize::MAX,
                        r0.0 == rows_view(wrapped@).skip(base.len() as int)
                            + split_rest(remaining.content@, remaining.style, room as int, max_width as int, tab_width, spans_view(current@)).0,
                        r0.1 == split_rest(remaining.content@, remaining.style, room as int, max_width as int, tab_width, spans_view(current@)).1,
                        r0.2 == split_rest(remaining.content@, remaining.style, room as int, max_width as int, tab_width, spans_view(current@)).2,
                        base.len() <= rows_view(wrapped@).len(),
                        rows_view(wrapped@).take(base.len() as int) == base,
                    ensures
                        r0.0 == rows_view(wrapped@).skip(base.len() as int),
                        r0.1 == spans_view(current@),
                        r0.2 == remaining.content@,
                        remaining.style == s[i as int].1,
                        text_width(remaining.content@, tab_width) <= room <= max_width,
                        remaining.content@.len() * tab_factor(tab_width) <= usize::MAX,
                        base.len() <= rows_view(wrapped@).len(),
                        rows_view(wrapped@).take(base.len() as int) == base,
                    decreases remaining.content@.len(), (if room < max_width { 1int } else { 0int }),
                {
                    let rw = span_width(&remaining, tab_width);
                    if rw <= room {
                        break;
                    }
                    let ghost rem = remaining.content@;
                    let (fit, rest) = LineWrapper::split_span_at(&remaining, room, tab_width);
                    proof {
                        if room == max_width {
                            lemma_split_progress(rem, max_width as int, tab_width);
                        }
                        assert forall|j: int| 0 <= j < rest.content@.len() implies display_width(#[trigger] rest.content@[j], tab_width) <= max_width by {
                            let k = cols_before(rem, 0, 0, room as int, tab_width) as int;
                            let m = if k < rem.len() { k } else { rem.len() as int };
                            assert(rest.content@[j] == rem[m + j]);
                        }
                        assert(rest.content@.len() <= rem.len());
                        assert(rest.content@.len() * tab_factor(tab_width) <= rem.len() * tab_factor(tab_width)) by (nonlinear_arith)
                            requires rest.content@.len() <= rem.len(), tab_factor(tab_width) >= 1;
                    }
                    let ghost cur_before = spans_view(current@);
                    let ghost rows_before = rows_view(wrapped@);
                    current.push(fit);
                    let row = clone_spans(&current);
                    wrapped.push(row);
                    proof {
                        assert(spans_view(current@) =~= cur_before.push(span_view(fit)));
                        assert(rows_view(wrapped@) =~= rows_before.push(spans_view(current@)));
                        assert(rows_view(wrapped@).skip(base.len() as int) =~= rows_before.skip(base.len() as int).push(spans_view(current@)));
                        assert(rows_view(wrapped@).take(base.len() as int) =~= rows_before.take(base.len() as int));
                    }
                    current = Vec::new();
                    remaining = rest;
                    room = max_width;
                    proof {
                        assert(spans_view(current@) =~= Seq::<(Seq<char>, ratatui::style::Style)>::empty());
                        let rr = split_rest(remaining.content@, remaining.style, room as int, max_width as int, tab_width, seq![]);
                        assert(r0.0 =~= rows_view(wrapped@).skip(base.len() as int) + rr.0);
                    }
                }
                let ghost cur_before = spans_view(current@);
                let ghost last = remaining.content@;
                let rw = span_width(&remaining, tab_width);
                current.push(remaining);
                width = rw;
                proof {
                    assert(spans_view(current@) =~= cur_before.push((last, s[i as int].1)));
                    assert(rows_view(wrapped@) =~= base + r0.0);
                    assert(base + (r0.0 + wrap_spans_from(s, i + 1, spans_view(current@), width as int, max_width as int, tab_width))
                        =~= rows_view(wrapped@) + wrap_spans_from(s, i + 1, spans_view(current@), width as int, max_width as int, tab_width));
                }
            } else {
                let ghost cur_before = spans_view(current@);
                current.push(span);
                width = width + w;
                assert(spans_view(current@) =~= cur_before.push(s[i as int]));
            }
            i = i + 1;
        }
        if current.len() > 0 {
            let ghost before = rows_view(wrapped@);
            let ghost last = spans_view(current@);
            wrapped.push(current);
            assert(rows_view(wrapped@) =~= before.push(last));
        } else {
            assert(rows_view(wrapped@) + seq![] =~= rows_view(wrapped@));
        }
        wrapped
    }
}

/// The characters of two runs of spans, one after the other.
pub proof fn lemma_flat_concat(a: Seq<(Seq<char>, ratatui::style::Style)>, b: Seq<(Seq<char>, ratatui::style::Style)>)
    ensures
        flat(a + b) == flat(a) + flat(b),
    decreases b.len(),
{
    if b.len() == 0 {
        assert(a + b =~= a);
        assert(flat(a) + flat(b) =~= flat(a));
    } else {
        assert((a + b).drop_last() =~= a + b.drop_last());
        lemma_flat_concat(a, b.drop_last());
        assert(flat(a) + flat(b.drop_last()) + b.last().0 =~= flat(a) + (flat(b.drop_last()) + b.last().0));
    }
}

/// The pieces of one span hold its characters.
proof fn lemma_piece_keeps_text(
    c: Seq<char>,
    st: ratatui::style::Style,
    offset: int,
    split_start: int,
    split_end: int,
    style: ratatui::style::Style,
)
    requires
        split_start <= split_end + 1 || !({
            let start = offset;
            let end = offset + (if c.len() > 0 { c.len() - 1 } else { 0 });
            &&& !(end < split_start || start > split_end)
            &&& split_start > start
            &&& split_end < end
        }),
    ensures
        flat(split_piece(c, st, offset, split_start, split_end, style)) == c,
{
    let pieces = split_piece(c, st, offset, split_start, split_end, style);
    let e = Seq::<(Seq<char>, ratatui::style::Style)>::empty();
    assert(flat(e) == Seq::<char>::empty());
    if pieces.len() == 1 {
        assert(pieces.drop_last() =~= e);
        assert(flat(pieces) =~= pieces[0].0);
    } else if pieces.len() == 2 {
        assert(pieces.drop_last().drop_last() =~= e);
        assert(flat(pieces.drop_last()) =~= pieces[0].0);
        assert(flat(pieces) =~= pieces[0].0 + pieces[1].0);
    } else {
        assert(pieces.drop_last().drop_last().drop_last() =~= e);
        assert(flat(pieces.drop_last().drop_last()) =~= pieces[0].0);
        assert(flat(pieces.drop_last()) =~= pieces[0].0 + pieces[1].0);
        assert(flat(pieces) =~= pieces[0].0 + pieces[1].0 + pieces[2].0);
    }
    let start = offset;
    let end = offset + (if c.len() > 0 { c.len() - 1 } else { 0 });
    if end < split_start || start > split_end {
    } else if split_start <= start && split_end < end {
        let p = cut_at(c, split_end - start + 1);
        assert(p.0 + p.1 =~= c);
    } else if split_start > start && split_end >= end {
        let p = cut_at(c, split_start - start);
        assert(p.0 + p.1 =~= c);
    } else if split_start > start && split_end < end {
        let p = cut_at(c, split_start - start);
        let q = cut_at(p.1, (split_end - start + 1) - (split_start - start));
        assert(q.0 + q.1 =~= p.1);
        assert(p.0 + q.0 + q.1 =~= c);
    }
}

/// Restyling a range keeps the characters of the spans, when the range is
/// not reversed.
pub proof fn lemma_split_keeps_text(
    s: Seq<(Seq<char>, ratatui::style::Style)>,
    split_start: int,
    split_end: int,
    style: ratatui::style::Style,
)
    requires
        split_start <= split_end,
    ensures
        flat(split_from(s, 0, 0, split_start, split_end, style)) == flat(s),
{
    lemma_split_from_keeps_text(s, 0, 0, split_start, split_end, style);
    assert(s.skip(0) =~= s);
}

proof fn lemma_split_from_keeps_text(
    s: Seq<(Seq<char>, ratatui::style::Style)>,
    i: int,
    offset: int,
    split_start: int,
    split_end: int,
    style: ratatui::style::Style,
)
    requires
        0 <= i <= s.len(),
        split_start <= split_end,
    ensures
        flat(split_from(s, i, offset, split_start, split_end, style)) == flat(s.skip(i)),
    decreases s.len() - i,
{
    if i >= s.len() {
        assert(s.skip(i) =~= Seq::<(Seq<char>, ratatui::style::Style)>::empty());
        assert(flat(Seq::<(Seq<char>, ratatui::style::Style)>::empty()) == Seq::<char>::empty());
    } else {
        let piece = split_piece(s[i].0, s[i].1, offset, split_start, split_end, style);
        let rest = split_from(s, i + 1, offset + s[i].0.len(), split_start, split_end, style);
        lemma_piece_keeps_text(s[i].0, s[i].1, offset, split_start, split_end, style);
        lemma_split_from_keeps_text(s, i + 1, offset + s[i].0.len(), split_start, split_end, style);
        lemma_flat_concat(piece, rest);
        assert(s.skip(i) =~= seq![s[i]] + s.skip(i + 1));
        lemma_flat_concat(seq![s[i]], s.skip(i + 1));
        assert(seq![s[i]].drop_last() =~= Seq::<(Seq<char>, ratatui::style::Style)>::empty());
        assert(flat(Seq::<(Seq<char>, ratatui::style::Style)>::empty()) == Seq::<char>::empty());
        assert(flat(seq![s[i]]) =~= s[i].0);
    }
}

/// Spans never hold a negative number of bytes.
pub proof fn lemma_spans_bytes_nonneg(s: Seq<(Seq<char>, ratatui::style::Style)>)
    ensures
        spans_bytes(s) >= 0,
        capped_bytes(s) >= 0,
    decreases s.len(),
{
    if s.len() > 0 {
        lemma_spans_bytes_nonneg(s.drop_last());
        lemma_utf8_len_nonneg(s.last().0);
    }
}

} // verus!
