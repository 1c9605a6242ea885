//! Characters and strings: classification, display width and conversions.
use vstd::prelude::*;

verus! {

/// `char::is_ascii_whitespace`: space, tab, line feed, form feed, carriage return.
pub open spec fn is_ascii_ws(c: char) -> bool {
    c == ' ' || c == '\t' || c == '\n' || c == '\x0C' || c == '\r'
}

/// `char::is_ascii_alphanumeric`.
pub open spec fn is_ascii_alnum(c: char) -> bool {
    ('0' <= c && c <= '9') || ('a' <= c && c <= 'z') || ('A' <= c && c <= 'Z')
}

/// `char::is_ascii_alphabetic`.
pub open spec fn is_ascii_alpha(c: char) -> bool {
    ('a' <= c && c <= 'z') || ('A' <= c && c <= 'Z')
}

/// `char::is_ascii_punctuation`.
pub open spec fn is_ascii_punct(c: char) -> bool {
    ('!' <= c && c <= '/') || (':' <= c && c <= '@') || ('[' <= c && c <= '`') || ('{' <= c && c <= '~')
}

/// Whether the character is ASCII whitespace.
pub fn is_whitespace_ascii(c: char) -> (b: bool)
    ensures
        b == is_ascii_ws(c),
{
    c == ' ' || c == '\t' || c == '\n' || c == '\x0C' || c == '\r'
}

/// Whether the character is an ASCII letter or digit.
pub fn is_alphanumeric_ascii(c: char) -> (b: bool)
    ensures
        b == is_ascii_alnum(c),
{
    ('0' <= c && c <= '9') || ('a' <= c && c <= 'z') || ('A' <= c && c <= 'Z')
}

/// Whether the character is an ASCII letter.
pub fn is_alphabetic_ascii(c: char) -> (b: bool)
    ensures
        b == is_ascii_alpha(c),
{
    ('a' <= c && c <= 'z') || ('A' <= c && c <= 'Z')
}

/// Whether the character is ASCII punctuation.
pub fn is_punctuation_ascii(c: char) -> (b: bool)
    ensures
        b == is_ascii_punct(c),
{
    ('!' <= c && c <= '/') || (':' <= c && c <= '@') || ('[' <= c && c <= '`') || ('{' <= c && c <= '~')
}

/// What `char::is_whitespace` says of a character: whether it has the
/// Unicode `White_Space` property (tab to carriage return, space, next line,
/// no-break space, ogham space mark, the spaces from en quad to hair space,
/// line and paragraph separator, narrow no-break space, medium mathematical
/// space and ideographic space).
pub open spec fn unicode_whitespace(c: char) -> bool {
    let n = c as u32;
    ||| 0x09 <= n <= 0x0D
    ||| n == 0x20
    ||| n == 0x85
    ||| n == 0xA0
    ||| n == 0x1680
    ||| 0x2000 <= n <= 0x200A
    ||| n == 0x2028
    ||| n == 0x2029
    ||| n == 0x202F
    ||| n == 0x205F
    ||| n == 0x3000
}

/// `char::is_whitespace`.
#[verifier::external_body]
pub(crate) fn is_whitespace_unicode(c: char) -> (b: bool)
    ensures
        b == unicode_whitespace(c),
{
    c.is_whitespace()
}

/// The display width that `unicode_width` gives a character (`None` for
/// control characters).
pub uninterp spec fn unicode_char_width(c: char) -> Option<usize>;

/// `UnicodeWidthChar::width`.
#[verifier::external_body]
pub(crate) fn char_unicode_width(c: char) -> (w: Option<usize>)
    ensures
        w == unicode_char_width(c),
{
    unicode_width::UnicodeWidthChar::width(c)
}

/// The width a character takes on screen: a tab takes `tab_width` cells,
/// other characters their Unicode width (zero if they have none).
pub open spec fn display_width(c: char, tab_width: usize) -> int {
    if c == '\t' {
        tab_width as int
    } else {
        match unicode_char_width(c) {
            Some(w) => w as int,
            None => 0,
        }
    }
}

/// The width a character takes on screen.
pub fn char_width(ch: char, tab_width: usize) -> (w: usize)
    ensures
        w == display_width(ch, tab_width),
{
    if ch == '\t' {
        return tab_width;
    }
    match char_unicode_width(ch) {
        Some(w) => w,
        None => 0,
    }
}

/// The summed display width of a sequence of characters.
pub open spec fn chars_display_width(s: Seq<char>, tab_width: usize) -> int
    decreases s.len(),
{
    if s.len() == 0 {
        0
    } else {
        chars_display_width(s.drop_last(), tab_width) + display_width(s.last(), tab_width)
    }
}

/// The summed display width of characters, saturating at `usize::MAX`.
pub fn chars_width(chars: &[char], tab_width: usize) -> (w: usize)
    ensures
        chars_display_width(chars@, tab_width) <= usize::MAX ==> w == chars_display_width(chars@, tab_width),
        chars_display_width(chars@, tab_width) > usize::MAX ==> w == usize::MAX,
{
    let mut sum: usize = 0;
    let mut i: usize = 0;
    while i < chars.len()
        invariant
            i <= chars@.len(),
            chars_display_width(chars@.take(i as int), tab_width) <= usize::MAX ==> sum == chars_display_width(chars@.take(i as int), tab_width),
            chars_display_width(chars@.take(i as int), tab_width) > usize::MAX ==> sum == usize::MAX,
        decreases chars@.len() - i,
    {
        proof {
            assert(chars@.take(i + 1).drop_last() =~= chars@.take(i as int));
            lemma_width_nonneg(chars@.take(i as int), tab_width);
        }
        let w = char_width(chars[i], tab_width);
        sum = sum.saturating_add(w);
        i = i + 1;
    }
    proof {
        assert(chars@.take(i as int) =~= chars@);
    }
    sum
}

/// The display width of characters is never negative.
pub proof fn lemma_width_nonneg(s: Seq<char>, tab_width: usize)
    ensures
        chars_display_width(s, tab_width) >= 0,
    decreases s.len(),
{
    if s.len() > 0 {
        lemma_width_nonneg(s.drop_last(), tab_width);
    }
}

/// How many leading characters of `l`, from `i` on and after `acc` cells,
/// end at or left of screen column `col`.
pub open spec fn cols_before(l: Seq<char>, i: int, acc: int, col: int, tab_width: usize) -> nat
    decreases l.len() - i,
{
    if i >= l.len() {
        0
    } else if acc + display_width(l[i], tab_width) > col {
        0
    } else {
        1 + cols_before(l, i + 1, acc + display_width(l[i], tab_width), col, tab_width)
    }
}

/// The display width that `unicode_width` gives a string.
pub uninterp spec fn unicode_str_width(s: Seq<char>) -> usize;

/// `UnicodeWidthStr::width`.
#[verifier::external_body]
pub(crate) fn str_width(s: &str) -> (w: usize)
    ensures
        w == unicode_str_width(s@),
        s@.len() == 0 ==> w == 0,
{
    unicode_width::UnicodeWidthStr::width(s)
}

/// `str::chars` collected: the characters of a string.
#[verifier::external_body]
pub(crate) fn str_chars(s: &str) -> (v: Vec<char>)
    ensures
        v@ == s@,
{
    s.chars().collect()
}

/// `String::from_iter` over characters.
#[verifier::external_body]
pub(crate) fn string_from_chars(v: &[char]) -> (s: String)
    ensures
        s@ == v@,
{
    v.iter().collect()
}

/// The text as pasted into a single-line editor: line breaks become spaces
/// and carriage returns are dropped.
pub open spec fn single_line_text(s: Seq<char>) -> Seq<char>
    decreases s.len(),
{
    if s.len() == 0 {
        s
    } else {
        let rest = single_line_text(s.drop_last());
        if s.last() == '\n' {
            rest.push(' ')
        } else if s.last() == '\r' {
            rest
        } else {
            rest.push(s.last())
        }
    }
}

/// Replaces line breaks by spaces and drops carriage returns.
pub fn to_single_line(s: &String) -> (t: String)
    ensures
        t@ == single_line_text(s@),
{
    let chars = str_chars(s.as_str());
    let mut out: Vec<char> = Vec::new();
    let mut k: usize = 0;
    while k < chars.len()
        invariant
            chars@ == s@,
            k <= chars@.len(),
            out@ == single_line_text(chars@.take(k as int)),
        decreases chars@.len() - k,
    {
        proof {
            assert(chars@.take(k + 1).drop_last() =~= chars@.take(k as int));
        }
        let c = chars[k];
        if c == '\n' {
            out.push(' ');
        } else if c != '\r' {
            out.push(c);
        }
        k = k + 1;
    }
    proof {
        assert(chars@.take(k as int) =~= chars@);
    }
    string_from_chars(out.as_slice())
}

} // verus!
