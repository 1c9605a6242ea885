//! The view of the editor: what part of the buffer is shown and where.
use vstd::prelude::*;
use crate::lines::{Lines, rows, get_row, num_rows, rows_of_vecs};
use crate::text::{char_width, chars_width, display_width, chars_display_width};

verus! {

/// An (x, y) offset.
#[derive(Debug, Clone, Copy, PartialEq, Eq, Structural, Hash)]
pub struct Offset {
    /// The x-offset.
    pub x: usize,
    /// The y-offset.
    pub y: usize,
}

impl Offset {
    /// Creates an offset.
    pub fn new(x: usize, y: usize) -> (o: Self)
        ensures
            o.x == x,
            o.y == y,
    {
        Offset { x, y }
    }
}

/// A cell on the screen.
#[derive(Debug, Clone, Copy, PartialEq, Eq, Structural, Hash)]
pub struct ScreenPosition {
    pub x: u16,
    pub y: u16,
}

/// A rectangle on the screen.
#[derive(Debug, Clone, Copy, PartialEq, Eq, Structural, Hash)]
pub struct Area {
    pub x: u16,
    pub y: u16,
    pub width: u16,
    pub height: u16,
}

/// Which line numbers the editor shows in its gutter.
#[derive(Debug, Clone, Copy, PartialEq, Eq, Structural, Hash)]
pub enum LineNumbers {
    /// No line numbers.
    Hidden,
    /// The number of each row.
    Absolute,
    /// The distance of each row from the cursor row.
    Relative,
}

/// The number of decimal digits of a positive number.
pub open spec fn decimal_digits(n: nat) -> nat
    decreases n,
{
    if n < 10 {
        1
    } else {
        1 + decimal_digits(n / 10)
    }
}

/// The width of the line number gutter: none when line numbers are hidden,
/// else room for the largest row number (at least one row) and a space.
pub fn line_number_width(line_numbers: LineNumbers, num_rows: usize) -> (w: u16)
    ensures
        line_numbers == LineNumbers::Hidden ==> w == 0,
        line_numbers != LineNumbers::Hidden ==> w == decimal_digits(if num_rows > 0 { num_rows as nat } else { 1 }) + 1,
{
    if line_numbers == LineNumbers::Hidden {
        return 0;
    }
    let total: usize = if num_rows > 0 { num_rows } else { 1 };
    proof {
        reveal_with_fuel(pow10, 21);
        assert(pow10(20) == 100000000000000000000);
        lemma_digits_bound(total as nat, 20);
    }
    let mut m: usize = total;
    let mut digits: u16 = 1;
    while m >= 10
        invariant
            m >= 1,
            1 <= digits,
            decimal_digits(total as nat) <= 20,
            digits + decimal_digits(m as nat) == decimal_digits(total as nat) + 1,
        decreases m,
    {
        m = m / 10;
        digits = digits + 1;
    }
    digits + 1
}

/// Ten to the power `k`.
pub open spec fn pow10(k: nat) -> nat
    decreases k,
{
    if k == 0 {
        1
    } else {
        10 * pow10((k - 1) as nat)
    }
}

/// A number below `10^k` has at most `k` digits.
pub proof fn lemma_digits_bound(n: nat, k: nat)
    requires
        k >= 1,
        n < pow10(k),
    ensures
        1 <= decimal_digits(n) <= k,
    decreases n,
{
    if n >= 10 {
        assert(k >= 2) by {
            if k == 1 {
                assert(pow10(1) == 10 * pow10(0));
            }
        }
        assert(pow10(k) == 10 * pow10((k - 1) as nat));
        lemma_digits_bound(n / 10, (k - 1) as nat);
    }
}

/// The number shown in the gutter for a row: its distance from the cursor
/// row with relative numbers (the cursor row shows its own number), else
/// its one-based number.
pub fn line_number(line_numbers: LineNumbers, row: usize, cursor_row: usize) -> (n: usize)
    requires
        row < usize::MAX,
    ensures
        n == (if line_numbers == LineNumbers::Relative && row != cursor_row {
            if row > cursor_row { row - cursor_row } else { cursor_row - row }
        } else {
            row + 1
        }),
{
    if line_numbers == LineNumbers::Relative && row != cursor_row {
        if row > cursor_row { row - cursor_row } else { cursor_row - row }
    } else {
        row + 1
    }
}

/// The view state of the editor.
#[derive(Debug, Clone, Copy, PartialEq, Eq, Structural)]
pub struct ViewState {
    /// The offset of the viewport: the top-left shown buffer position.
    pub viewport: Offset,
    /// The number of buffer rows shown on the viewport.
    pub num_rows: usize,
    /// Where on the screen the text of the editor starts.
    pub screen_coordinates: Offset,
    /// The area of the screen the text was last rendered to.
    pub screen_area: Area,
    /// The number of spaces used to display a tab.
    pub tab_width: usize,
    /// Whether long lines wrap.
    pub wrap: bool,
    /// Whether newlines are blocked (single-line input fields).
    pub single_line: bool,
    /// The cursor's position on the screen, from the last render.
    pub cursor_screen_position: Option<ScreenPosition>,
    /// Which line numbers are shown.
    pub line_numbers: LineNumbers,
}

impl ViewState {
    /// The view of an editor that has not been rendered yet: no offset, no
    /// rows shown, no screen area, tabs of width zero, no wrapping, not
    /// single-line, no cursor position and no line numbers.
    pub open spec fn is_initial(self) -> bool {
        &&& self.viewport == (Offset { x: 0, y: 0 })
        &&& self.num_rows == 0
        &&& self.screen_coordinates == (Offset { x: 0, y: 0 })
        &&& self.screen_area == (Area { x: 0, y: 0, width: 0, height: 0 })
        &&& self.tab_width == 0
        &&& !self.wrap
        &&& !self.single_line
        &&& self.cursor_screen_position is None
        &&& self.line_numbers == LineNumbers::Hidden
    }

    /// The view of an editor that has not been rendered yet.
    pub fn new() -> (v: Self)
        ensures
            v.is_initial(),
    {
        ViewState {
            viewport: Offset::new(0, 0),
            num_rows: 0,
            screen_coordinates: Offset::new(0, 0),
            screen_area: Area { x: 0, y: 0, width: 0, height: 0 },
            tab_width: 0,
            wrap: false,
            single_line: false,
            cursor_screen_position: None,
            line_numbers: LineNumbers::Hidden,
        }
    }
}

impl From<Area> for Offset {
    /// The top-left corner of an area.
    fn from(area: Area) -> (o: Offset) {
        Offset { x: area.x as usize, y: area.y as usize }
    }
}

impl vstd::std_specs::convert::FromSpecImpl<Area> for Offset {
    open spec fn obeys_from_spec() -> bool {
        true
    }

    open spec fn from_spec(area: Area) -> Offset {
        Offset { x: area.x as usize, y: area.y as usize }
    }
}

/// The cells that the character at `i` takes; a position past the end of
/// the row counts as one cell.
pub open spec fn cell_width(line: Seq<char>, i: int, tab_width: usize) -> int {
    if i < line.len() {
        display_width(line[i], tab_width)
    } else {
        1
    }
}

/// How many characters of `line`, from `i` on, can be shown after `acc`
/// cells are taken, while the running width stays below `width`.
pub open spec fn fit_forward(line: Seq<char>, i: int, acc: int, width: int, tab_width: usize) -> nat
    decreases line.len() - i,
{
    if i >= line.len() {
        0
    } else if acc + display_width(line[i], tab_width) >= width {
        0
    } else {
        1 + fit_forward(line, i + 1, acc + display_width(line[i], tab_width), width, tab_width)
    }
}

/// How many positions, from `i` down to the start of the row, fit after
/// `acc` cells are taken, while the running width stays below `width`.
pub open spec fn fit_backward(line: Seq<char>, i: int, acc: int, width: int, tab_width: usize) -> nat
    decreases i + 1,
{
    if i < 0 {
        0
    } else if acc + cell_width(line, i, tab_width) >= width {
        0
    } else {
        1 + fit_backward(line, i - 1, acc + cell_width(line, i, tab_width), width, tab_width)
    }
}

/// The horizontal viewport offset that keeps the cursor column visible on a
/// viewport `width` cells wide: no row resets it to zero; a cursor left of
/// the viewport becomes its left edge; a cursor right of the last column
/// that fits makes the viewport end at the cursor.
pub open spec fn horizontal_offset(vx: int, width: int, cursor_col: int, line: Option<Seq<char>>, tab_width: usize) -> int {
    match line {
        None => 0,
        Some(l) => {
            if cursor_col < vx {
                cursor_col
            } else if cursor_col > vx + fit_forward(l, vx, 0, width, tab_width) {
                let back = fit_backward(l, cursor_col, 0, width, tab_width);
                if cursor_col >= back {
                    cursor_col - back
                } else {
                    0
                }
            } else {
                vx
            }
        },
    }
}

/// The vertical viewport offset that keeps the cursor row among the
/// `height` rows shown.
pub open spec fn vertical_offset(vy: int, height: int, cursor_row: int) -> int {
    let span = if height > 0 { height - 1 } else { 0 };
    if cursor_row < vy {
        cursor_row
    } else if cursor_row >= span + vy {
        cursor_row - span
    } else {
        vy
    }
}

/// The pieces that `LineWrapper::determine_split` cuts `rem` cells into.
pub open spec fn chunks(rem: usize, max_width: usize) -> Seq<usize>
    decreases rem,
{
    if rem == 0 || max_width == 0 {
        seq![]
    } else if rem <= max_width {
        seq![rem]
    } else {
        seq![max_width] + chunks((rem - max_width) as usize, max_width)
    }
}

/// The widths of the screen rows that a row `line_width` cells wide takes
/// on a screen `max_width` cells wide.
pub open spec fn split_widths(line_width: usize, max_width: usize) -> Seq<usize> {
    if line_width == 0 {
        seq![0]
    } else {
        chunks(line_width, max_width)
    }
}

/// The width of a row of characters, capped at `usize::MAX`.
pub open spec fn capped_width(s: Seq<char>, tab_width: usize) -> usize {
    if chars_display_width(s, tab_width) <= usize::MAX {
        chars_display_width(s, tab_width) as usize
    } else {
        usize::MAX
    }
}

/// The number of screen rows that a row of text takes when wrapped.
pub open spec fn wrapped_height(s: Seq<char>, max_width: usize, tab_width: usize) -> int {
    split_widths(capped_width(s, tab_width), max_width).len() as int
}

/// Walks the rows upward from `row` (the `i`-th row visited), with
/// `remaining` screen rows left, until a row no longer fits; the viewport
/// then starts just below it.
pub open spec fn scroll_walk(
    r: Seq<Seq<char>>,
    row: int,
    i: int,
    remaining: int,
    cursor_row: int,
    vy: int,
    max_width: usize,
    tab_width: usize,
) -> int
    decreases row + 1,
{
    if row < 0 {
        vy
    } else if remaining < wrapped_height(r[row], max_width, tab_width) {
        let back = if i > 0 { i - 1 } else { 0 };
        if cursor_row >= back {
            cursor_row - back
        } else {
            0
        }
    } else {
        scroll_walk(r, row - 1, i + 1, remaining - wrapped_height(r[row], max_width, tab_width), cursor_row, vy, max_width, tab_width)
    }
}

/// The vertical viewport offset after scrolling down with wrapped rows.
pub open spec fn scrolled_down(
    r: Seq<Seq<char>>,
    vy: int,
    num_rows: int,
    max_width: usize,
    max_height: int,
    cursor_row: int,
    tab_width: usize,
) -> int {
    if cursor_row < vy + num_rows || num_rows == 0 {
        vy
    } else {
        let start = if cursor_row < r.len() { cursor_row } else { r.len() - 1 };
        scroll_walk(r, start, 0, max_height, cursor_row, vy, max_width, tab_width)
    }
}

/// The row that an optional row reference holds.
pub open spec fn row_view(line: Option<&Vec<char>>) -> Option<Seq<char>> {
    match line {
        Some(l) => Some(l@),
        None => None,
    }
}

impl ViewState {
    /// This view with another viewport offset.
    pub open spec fn with_viewport(self, x: usize, y: usize) -> ViewState {
        ViewState { viewport: Offset { x, y }, ..self }
    }

    /// Sets where on the screen the editor text starts.
    pub fn set_screen_coordinates(&mut self, offset: Offset)
        ensures
            *final(self) == (ViewState { screen_coordinates: offset, ..*old(self) }),
    {
        self.screen_coordinates = offset;
    }

    /// Updates the viewport's horizontal offset so that the cursor column is
    /// visible on a viewport `width` cells wide, and returns it.
    pub fn update_viewport_horizontal(&mut self, width: usize, cursor_col: usize, line: Option<&Vec<char>>) -> (x: usize)
        ensures
            x == horizontal_offset(old(self).viewport.x as int, width as int, cursor_col as int, row_view(line), old(self).tab_width),
            *final(self) == old(self).with_viewport(x, old(self).viewport.y),
    {
        let line = match line {
            Some(l) => l,
            None => {
                self.viewport.x = 0;
                return 0;
            },
        };
        let vx = self.viewport.x;
        let tab_width = self.tab_width;
        if cursor_col < vx {
            self.viewport.x = cursor_col;
            return cursor_col;
        }
        let ghost l = line@;
        // the last column that fits when the viewport stays
        let mut i: usize = vx;
        let mut cur: usize = 0;
        while i < line.len()
            invariant
                vx <= i,
                l == line@,
                fit_forward(l, vx as int, 0, width as int, tab_width) == (i - vx) + fit_forward(l, i as int, cur as int, width as int, tab_width),
            ensures
                vx <= i,
                fit_forward(l, vx as int, 0, width as int, tab_width) == (i - vx) + fit_forward(l, i as int, cur as int, width as int, tab_width),
                fit_forward(l, i as int, cur as int, width as int, tab_width) == 0,
            decreases line.len() - i,
        {
            let w = char_width(line[i], tab_width);
            let next = cur.saturating_add(w);
            if next >= width {
                break;
            }
            cur = next;
            i = i + 1;
        }
        if cursor_col <= i {
            return vx;
        }
        // scroll right: the viewport ends at the cursor
        let mut j: usize = cursor_col;
        let mut back: usize = 0;
        let mut new_x: usize = cursor_col;
        loop
            invariant
                j <= cursor_col,
                l == line@,
                new_x == j,
                fit_backward(l, cursor_col as int, 0, width as int, tab_width) == (cursor_col - j) + fit_backward(l, j as int, back as int, width as int, tab_width),
            ensures
                new_x as int == (if cursor_col >= fit_backward(l, cursor_col as int, 0, width as int, tab_width) {
                    cursor_col - fit_backward(l, cursor_col as int, 0, width as int, tab_width)
                } else {
                    0
                }),
            decreases j,
        {
            let w = if j < line.len() { char_width(line[j], tab_width) } else { 1 };
            let next = back.saturating_add(w);
            if next >= width {
                break;
            }
            if j == 0 {
                new_x = 0;
                break;
            }
            back = next;
            j = j - 1;
            new_x = j;
        }
        self.viewport.x = new_x;
        new_x
    }

    /// Updates the viewport's vertical offset so that the cursor row is among
    /// the `height` rows shown, and returns it.
    pub fn update_viewport_vertical(&mut self, height: usize, cursor_row: usize) -> (y: usize)
        requires
            old(self).viewport.y + (if height > 0 { height - 1 } else { 0 }) <= usize::MAX,
        ensures
            y == vertical_offset(old(self).viewport.y as int, height as int, cursor_row as int),
            *final(self) == old(self).with_viewport(old(self).viewport.x, y),
    {
        let max_cursor_pos = height.saturating_sub(1) + self.viewport.y;
        if cursor_row < self.viewport.y {
            self.viewport.y = cursor_row;
        }
        if cursor_row >= max_cursor_pos {
            self.viewport.y = self.viewport.y + (cursor_row - max_cursor_pos);
        }
        self.viewport.y
    }

    /// Updates the viewport's vertical offset when long rows wrap: the
    /// cursor row must be visible on a screen `width` cells wide and
    /// `height` rows high.
    pub fn update_viewport_vertical_wrap(&mut self, width: usize, height: usize, cursor_row: usize, lines: &Lines) -> (y: usize)
        requires
            width > 0,
        ensures
            y == scrolled_down(rows(*lines), (if cursor_row < old(self).viewport.y { cursor_row } else { old(self).viewport.y }) as int,
                old(self).num_rows as int, width, height as int, cursor_row as int, old(self).tab_width),
            *final(self) == old(self).with_viewport(old(self).viewport.x, y),
    {
        if cursor_row < self.viewport.y {
            self.viewport.y = cursor_row;
        }
        self.scroll_down(lines, width, height, cursor_row);
        self.viewport.y
    }

    /// Sets the number of buffer rows shown on the viewport.
    pub fn update_num_rows(&mut self, num_rows: usize)
        ensures
            *final(self) == (ViewState { num_rows, ..*old(self) }),
    {
        self.num_rows = num_rows;
    }

    /// Scrolls the viewport down until the cursor row is visible, counting
    /// the screen rows that each wrapped row takes.
    fn scroll_down(&mut self, lines: &Lines, max_width: usize, max_height: usize, cursor_row: usize)
        requires
            max_width > 0,
        ensures
            final(self).viewport.y == scrolled_down(rows(*lines), old(self).viewport.y as int,
                old(self).num_rows as int, max_width, max_height as int, cursor_row as int, old(self).tab_width),
            *final(self) == old(self).with_viewport(old(self).viewport.x, final(self).viewport.y),
    {
        let vy = self.viewport.y;
        let nr = self.num_rows;
        if cursor_row < vy || cursor_row - vy < nr || nr == 0 {
            return;
        }
        let len = num_rows(lines);
        if len == 0 {
            return;
        }
        let ghost r = rows(*lines);
        let tab_width = self.tab_width;
        let start: usize = if cursor_row < len { cursor_row } else { len - 1 };
        let mut row: usize = start;
        let mut i: usize = 0;
        let mut remaining: usize = max_height;
        loop
            invariant
                r == rows(*lines),
                len == r.len(),
                row < len,
                i + row == start,
                max_width > 0,
                *self == *old(self),
                vy == old(self).viewport.y,
                tab_width == old(self).tab_width,
                scrolled_down(r, vy as int, old(self).num_rows as int, max_width, max_height as int, cursor_row as int, tab_width)
                    == scroll_walk(r, start as int, 0, max_height as int, cursor_row as int, vy as int, max_width, tab_width),
                scroll_walk(r, start as int, 0, max_height as int, cursor_row as int, vy as int, max_width, tab_width)
                    == scroll_walk(r, row as int, i as int, remaining as int, cursor_row as int, vy as int, max_width, tab_width),
            decreases row,
        {
            let line = match get_row(lines, row) {
                Some(v) => v,
                None => {
                    return;
                },
            };
            let line_width = chars_width(line.as_slice(), tab_width);
            let h = LineWrapper::determine_split(line_width, max_width).len();
            if remaining < h {
                let back = if i > 0 { i - 1 } else { 0 };
                self.viewport.y = cursor_row.saturating_sub(back);
                return;
            }
            remaining = remaining - h;
            if row == 0 {
                assert(scroll_walk(r, -1, i + 1, remaining as int, cursor_row as int, vy as int, max_width, tab_width) == vy);
                return;
            }
            row = row - 1;
            i = i + 1;
        }
    }
}

/// Wraps rows of text to the width of the screen.
pub struct LineWrapper;

/// The rows that `LineWrapper::wrap_line` cuts `line` into, from position
/// `i` on, with `cur` on the current screen row, `w` cells wide.
pub open spec fn wrap_from(line: Seq<char>, i: int, cur: Seq<char>, w: int, max_width: usize, tab_width: usize) -> Seq<Seq<char>>
    decreases line.len() - i,
{
    if i >= line.len() {
        if cur.len() > 0 {
            seq![cur]
        } else {
            seq![]
        }
    } else if w + display_width(line[i], tab_width) > max_width {
        seq![cur] + wrap_from(line, i + 1, seq![line[i]], display_width(line[i], tab_width), max_width, tab_width)
    } else {
        wrap_from(line, i + 1, cur.push(line[i]), w + display_width(line[i], tab_width), max_width, tab_width)
    }
}

/// The rows of a wrapped line: a new screen row starts where the next
/// character would exceed `max_width` cells.
pub open spec fn wrapped(line: Seq<char>, max_width: usize, tab_width: usize) -> Seq<Seq<char>> {
    wrap_from(line, 0, seq![], 0, max_width, tab_width)
}

impl LineWrapper {
    /// Splits a row `line_width` cells wide into the widths of the screen
    /// rows it takes, none wider than `max_width`.
    pub fn determine_split(line_width: usize, max_width: usize) -> (v: Vec<usize>)
        requires
            max_width > 0 || line_width == 0,
        ensures
            v@ == split_widths(line_width, max_width),
    {
        if line_width == 0 {
            let mut v: Vec<usize> = Vec::new();
            v.push(0);
            return v;
        }
        let mut remaining: usize = line_width;
        let mut split: Vec<usize> = Vec::new();
        while remaining > 0
            invariant
                max_width > 0,
                line_width > 0,
                split@ + chunks(remaining, max_width) == chunks(line_width, max_width),
            decreases remaining,
        {
            let ghost prev = split@;
            let ghost old_rem = remaining;
            let chunk = if remaining < max_width { remaining } else { max_width };
            split.push(chunk);
            remaining = remaining.saturating_sub(max_width);
            proof {
                assert(chunks(old_rem, max_width) =~= seq![chunk] + chunks(remaining, max_width));
                assert(prev + (seq![chunk] + chunks(remaining, max_width)) =~= split@ + chunks(remaining, max_width));
            }
        }
        assert(split@ + chunks(remaining, max_width) =~= split@);
        split
    }

    /// Wraps a row of text into screen rows no wider than `max_width`
    /// cells (a single character wider than that takes a row of its own).
    pub fn wrap_line(line: &[char], max_width: usize, tab_width: usize) -> (v: Vec<Vec<char>>)
        ensures
            rows_of_vecs(v@) == wrapped(line@, max_width, tab_width),
    {
        let ghost l = line@;
        let mut lines: Vec<Vec<char>> = Vec::new();
        let mut line_width: usize = 0;
        let mut current: Vec<char> = Vec::new();
        let mut i: usize = 0;
        while i < line.len()
            invariant
                l == line@,
                i <= l.len(),
                rows_of_vecs(lines@) + wrap_from(l, i as int, current@, line_width as int, max_width, tab_width)
                    == wrap_from(l, 0, seq![], 0, max_width, tab_width),
            decreases l.len() - i,
        {
            let ch = line[i];
            let w = char_width(ch, tab_width);
            if w > max_width || line_width > max_width - w {
                let ghost before = lines@;
                let done = current.clone();
                assert(done@ =~= current@);
                lines.push(done);
                proof {
                    assert(rows_of_vecs(lines@) =~= rows_of_vecs(before).push(current@));
                    assert(rows_of_vecs(before) + wrap_from(l, i as int, current@, line_width as int, max_width, tab_width)
                        =~= rows_of_vecs(lines@) + wrap_from(l, i + 1, seq![ch], w as int, max_width, tab_width));
                }
                current = Vec::new();
                current.push(ch);
                line_width = w;
            } else {
                let ghost cur = current@;
                current.push(ch);
                line_width = line_width + w;
                assert(current@ == cur.push(ch));
            }
            i = i + 1;
        }
        if current.len() > 0 {
            let ghost before = lines@;
            let ghost last = current@;
            lines.push(current);
            assert(rows_of_vecs(lines@) =~= rows_of_vecs(before).push(last));
        }
        lines
    }
}

/// The number of characters in rows of text, all together.
pub open spec fn total_len(s: Seq<Seq<char>>) -> int
    decreases s.len(),
{
    if s.len() == 0 {
        0
    } else {
        total_len(s.drop_last()) + s.last().len()
    }
}

/// The characters of two runs of rows, counted together.
pub proof fn lemma_total_len_concat(a: Seq<Seq<char>>, b: Seq<Seq<char>>)
    ensures
        total_len(a + b) == total_len(a) + total_len(b),
    decreases b.len(),
{
    if b.len() == 0 {
        assert(a + b =~= a);
    } else {
        assert((a + b).drop_last() =~= a + b.drop_last());
        lemma_total_len_concat(a, b.drop_last());
    }
}

/// A first part of some rows holds no more characters than all of them.
pub proof fn lemma_total_len_prefix(s: Seq<Seq<char>>, k: int)
    requires
        0 <= k <= s.len(),
    ensures
        0 <= total_len(s.take(k)) <= total_len(s),
    decreases s.len(),
{
    if k == s.len() {
        assert(s.take(k) =~= s);
        lemma_total_len_nonneg(s);
    } else {
        assert(s.take(k) =~= s.drop_last().take(k));
        lemma_total_len_prefix(s.drop_last(), k);
    }
}

/// Rows never hold a negative number of characters.
pub proof fn lemma_total_len_nonneg(s: Seq<Seq<char>>)
    ensures
        total_len(s) >= 0,
    decreases s.len(),
{
    if s.len() > 0 {
        lemma_total_len_nonneg(s.drop_last());
    }
}

/// Wrapping keeps every character: the screen rows of a line hold as many
/// characters as the line.
pub proof fn lemma_wrap_keeps_length(line: Seq<char>, i: int, cur: Seq<char>, w: int, max_width: usize, tab_width: usize)
    requires
        0 <= i <= line.len(),
    ensures
        total_len(wrap_from(line, i, cur, w, max_width, tab_width)) == cur.len() + line.len() - i,
    decreases line.len() - i,
{
    if i >= line.len() {
        if cur.len() > 0 {
            assert(seq![cur].drop_last() =~= Seq::<Seq<char>>::empty());
            assert(total_len(Seq::<Seq<char>>::empty()) == 0);
            assert(total_len(seq![cur]) == cur.len());
        } else {
            assert(total_len(Seq::<Seq<char>>::empty()) == 0);
        }
    } else if w + display_width(line[i], tab_width) > max_width {
        let rest = wrap_from(line, i + 1, seq![line[i]], display_width(line[i], tab_width), max_width, tab_width);
        lemma_wrap_keeps_length(line, i + 1, seq![line[i]], display_width(line[i], tab_width), max_width, tab_width);
        lemma_total_len_concat(seq![cur], rest);
        assert(seq![cur].drop_last() =~= Seq::<Seq<char>>::empty());
        assert(total_len(Seq::<Seq<char>>::empty()) == 0);
        assert(total_len(seq![cur]) == cur.len());
    } else {
        lemma_wrap_keeps_length(line, i + 1, cur.push(line[i]), w + display_width(line[i], tab_width), max_width, tab_width);
    }
}

/// The screen rows taken by the buffer rows drawn so far, each giving how
/// many screen rows it took.
pub open spec fn screen_rows_taken(s: Seq<usize>) -> int
    decreases s.len(),
{
    if s.len() == 0 { 0 } else { screen_rows_taken(s.drop_last()) + s.last() }
}

proof fn lemma_screen_rows_taken_prefix(s: Seq<usize>, i: int)
    requires
        0 <= i <= s.len(),
    ensures
        0 <= screen_rows_taken(s.take(i)) <= screen_rows_taken(s),
    decreases s.len(),
{
    if i < s.len() {
        assert(s.drop_last().take(i) =~= s.take(i));
        lemma_screen_rows_taken_prefix(s.drop_last(), i);
    } else {
        assert(s.take(i) =~= s);
        if s.len() > 0 {
            lemma_screen_rows_taken_prefix(s.drop_last(), 0);
        }
    }
}

/// Whether the next buffer row is drawn: rows are drawn one after another
/// from the top of an area `height` screen rows high, each taking its screen
/// rows, for as long as a screen row is left.
pub fn next_row_fits(taken: &Vec<usize>, height: usize) -> (b: bool)
    ensures
        b == (screen_rows_taken(taken@) < height),
{
    if height == 0 {
        proof {
            lemma_screen_rows_taken_prefix(taken@, 0);
        }
        return false;
    }
    let mut sum: usize = 0;
    let mut i: usize = 0;
    assert(taken@.take(0) =~= Seq::<usize>::empty());
    while i < taken.len()
        invariant
            i <= taken.len(),
            sum == screen_rows_taken(taken@.take(i as int)),
            sum < height,
        decreases taken.len() - i,
    {
        assert(taken@.take(i + 1).drop_last() =~= taken@.take(i as int));
        assert(taken@.take(i + 1).last() == taken[i as int]);
        if taken[i] >= height - sum {
            proof {
                lemma_screen_rows_taken_prefix(taken@, i + 1);
            }
            return false;
        }
        sum = sum + taken[i];
        i = i + 1;
    }
    assert(taken@.take(i as int) =~= taken@);
    sum < height
}

/// The cell that shows the cursor: where the cursor was drawn, or, where its
/// row was not drawn, the left of the area on the screen row as far below
/// its top as the cursor's row (taken modulo the screen's coordinates).
pub fn cursor_cell(found: Option<ScreenPosition>, left: u16, top: u16, cursor_row: usize) -> (p: ScreenPosition)
    requires
        found is Some || top + (cursor_row as u16) <= u16::MAX,
    ensures
        p == (match found {
            Some(f) => f,
            None => ScreenPosition { x: left, y: (top + (cursor_row as u16)) as u16 },
        }),
{
    match found {
        Some(f) => f,
        None => ScreenPosition { x: left, y: top + (cursor_row as u16) },
    }
}

} // verus!
