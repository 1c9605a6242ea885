//! Syntax highlighting settings: a theme and a syntax, found by name and
//! file extension in sets of themes and syntaxes.
use std::sync::Arc;
use vstd::prelude::*;
use crate::spans::{InternalSpan, InternalLine, span_view, spans_view, flat, cropped, split_from, lemma_split_keeps_text};
use crate::selection::Selection;
use crate::text::string_from_chars;
use crate::text::str_chars;

verus! {

#[verifier::external_type_specification]
#[verifier::external_body]
pub struct ExTheme(syntect::highlighting::Theme);

#[verifier::external_type_specification]
#[verifier::external_body]
pub struct ExThemeSet(syntect::highlighting::ThemeSet);

#[verifier::external_type_specification]
#[verifier::external_body]
pub struct ExSyntaxReference(syntect::parsing::SyntaxReference);

#[verifier::external_type_specification]
#[verifier::external_body]
pub struct ExSyntaxSet(syntect::parsing::SyntaxSet);

/// The names of the themes that a theme set holds.
pub uninterp spec fn theme_names(set: syntect::highlighting::ThemeSet) -> Set<Seq<char>>;

/// The file extensions of the syntaxes that a syntax set holds.
pub uninterp spec fn syntax_extensions(set: syntect::parsing::SyntaxSet) -> Set<Seq<char>>;

/// The theme that a theme set holds under a name.
pub uninterp spec fn theme_named(set: syntect::highlighting::ThemeSet, name: Seq<char>) -> syntect::highlighting::Theme;

/// The syntax that a syntax set gives for a file extension.
pub uninterp spec fn syntax_for(set: syntect::parsing::SyntaxSet, extension: Seq<char>) -> syntect::parsing::SyntaxReference;

/// The pieces that syntect's line highlighting gives for a line, each with
/// the RGB foreground of its style, or `None` where it fails.
pub uninterp spec fn highlighted_pieces(
    syntax: syntect::parsing::SyntaxReference,
    theme: syntect::highlighting::Theme,
    set: syntect::parsing::SyntaxSet,
    line: Seq<char>,
) -> Option<Seq<(Seq<char>, u8, u8, u8)>>;

/// The style with the given foreground color.
pub uninterp spec fn rgb_style(r: u8, g: u8, b: u8) -> ratatui::style::Style;

/// A character in ASCII lower case.
pub open spec fn ascii_lower(c: char) -> char {
    if 'A' <= c && c <= 'Z' { ((c as u32) + 32) as char } else { c }
}

/// Two texts are equal but for the case of ASCII letters.
pub open spec fn eq_ignore_ascii_case(a: Seq<char>, b: Seq<char>) -> bool {
    a.len() == b.len() && forall|i: int| 0 <= i < a.len() ==> ascii_lower(#[trigger] a[i]) == ascii_lower(b[i])
}

/// One of the extensions is the given one, but for ASCII case.
pub open spec fn extension_known(exts: Set<Seq<char>>, ext: Seq<char>) -> bool {
    exists|e: Seq<char>| #[trigger] exts.contains(e) && eq_ignore_ascii_case(e, ext)
}

/// Some syntax of the set is for the extension.
pub open spec fn has_extension(set: syntect::parsing::SyntaxSet, ext: Seq<char>) -> bool {
    extension_known(syntax_extensions(set), ext)
}

/// `ThemeSet::load_defaults`: syntect's own themes. Its documentation lists
/// among them `base16-ocean.dark`, `base16-eighties.dark`,
/// `base16-mocha.dark`, `base16-ocean.light`, `InspiredGitHub`,
/// `Solarized (dark)` and `Solarized (light)`; the contract claims those.
#[verifier::external_body]
pub(crate) fn default_theme_set() -> (s: Arc<syntect::highlighting::ThemeSet>)
    ensures
        theme_names(*s).contains("base16-ocean.dark"@),
        theme_names(*s).contains("base16-eighties.dark"@),
        theme_names(*s).contains("base16-mocha.dark"@),
        theme_names(*s).contains("base16-ocean.light"@),
        theme_names(*s).contains("InspiredGitHub"@),
        theme_names(*s).contains("Solarized (dark)"@),
        theme_names(*s).contains("Solarized (light)"@),
{
    Arc::new(syntect::highlighting::ThemeSet::load_defaults())
}

/// `SyntaxSet::load_defaults_newlines`: syntect's own syntaxes. Its
/// documented examples find the syntax for the extension `rs` in it; the
/// contract claims that one and no other.
#[verifier::external_body]
pub(crate) fn default_syntax_set() -> (s: Arc<syntect::parsing::SyntaxSet>)
    ensures
        extension_known(syntax_extensions(*s), "rs"@),
{
    Arc::new(syntect::parsing::SyntaxSet::load_defaults_newlines())
}

/// `ThemeSet::themes.get`, cloned: a theme is found exactly when the set
/// holds one by that name, and it is (a copy of) the theme held under it.
#[verifier::external_body]
fn find_theme(set: &syntect::highlighting::ThemeSet, name: &str) -> (t: Option<syntect::highlighting::Theme>)
    ensures
        t is Some <==> theme_names(*set).contains(name@),
        t matches Some(x) ==> x == theme_named(*set, name@),
{
    set.themes.get(name).cloned()
}

/// `SyntaxSet::find_syntax_by_extension`, cloned: a syntax is found exactly
/// when one of the set is for the extension, compared without regard to
/// ASCII case; which one it is (the last such syntax of the set) depends on
/// the set and the extension alone.
#[verifier::external_body]
fn find_syntax(set: &syntect::parsing::SyntaxSet, extension: &str) -> (r: Option<syntect::parsing::SyntaxReference>)
    ensures
        r is Some <==> extension_known(syntax_extensions(*set), extension@),
        r matches Some(x) ==> x == syntax_for(*set, extension@),
{
    set.find_syntax_by_extension(extension).cloned()
}

/// Highlighted pieces, each text taken by its characters.
pub open spec fn pieces_view(p: Seq<(Vec<char>, u8, u8, u8)>) -> Seq<(Seq<char>, u8, u8, u8)> {
    Seq::new(p.len(), |i: int| (p[i].0@, p[i].1, p[i].2, p[i].3))
}

/// The text of highlighted pieces, one after the other.
pub open spec fn pieces_text(p: Seq<(Seq<char>, u8, u8, u8)>) -> Seq<char>
    decreases p.len(),
{
    if p.len() == 0 {
        Seq::empty()
    } else {
        pieces_text(p.drop_last()) + p.last().0
    }
}

/// `HighlightLines::highlight_line` for one line with a fresh highlighter:
/// the pieces of the line with the RGB foreground of their style, or `None`
/// where syntect fails. The pieces, one after the other, give back the line
/// (syntect documents this of its highlight iterator); which pieces and
/// colors come out is left to a name: the highlighter is made afresh for
/// the call, so they depend on the syntax, theme, syntax set and line alone.
#[verifier::external_body]
fn highlight_pieces(
    syntax_ref: &syntect::parsing::SyntaxReference,
    theme: &syntect::highlighting::Theme,
    set: &syntect::parsing::SyntaxSet,
    line: &str,
) -> (r: Option<Vec<(Vec<char>, u8, u8, u8)>>)
    ensures
        (r is None) == (highlighted_pieces(*syntax_ref, *theme, *set, line@) is None),
        r matches Some(p) ==> highlighted_pieces(*syntax_ref, *theme, *set, line@) == Some(pieces_view(p@)),
        r matches Some(p) ==> pieces_text(pieces_view(p@)) == line@,
{
    let mut highlighter = syntect::easy::HighlightLines::new(syntax_ref, theme);
    match highlighter.highlight_line(line, set) {
        Ok(pieces) => Some(pieces.into_iter().map(|(st, text)| (text.chars().collect(), st.foreground.r, st.foreground.g, st.foreground.b)).collect()),
        Err(_) => None,
    }
}

/// `Style::default().fg(Color::Rgb(r, g, b))`.
#[verifier::external_body]
pub(crate) fn style_with_rgb(r: u8, g: u8, b: u8) -> (s: ratatui::style::Style)
    ensures
        s == rgb_style(r, g, b),
{
    ratatui::style::Style::default().fg(ratatui::style::Color::Rgb(r, g, b))
}

/// Why a syntax highlighter could not be set up.
#[derive(Debug)]
pub enum SyntaxHighlighterError<'a> {
    /// No theme has the name.
    ThemeNotFound(&'a str),
    /// No syntax is for the file extension.
    ExtensionNotFound(&'a str),
}

impl<'a> SyntaxHighlighterError<'a> {
    /// The message that describes the error.
    pub fn message(&self) -> (s: String)
        ensures
            s@ == (match *self {
                SyntaxHighlighterError::ThemeNotFound(t) => "Could not find theme "@ + t@,
                SyntaxHighlighterError::ExtensionNotFound(e) => "Could not find extension "@ + e@,
            }),
    {
        let (head, name) = match self {
            SyntaxHighlighterError::ThemeNotFound(t) => ("Could not find theme ", *t),
            SyntaxHighlighterError::ExtensionNotFound(e) => ("Could not find extension ", *e),
        };
        let mut out = String::from_str(head);
        out.append(name);
        out
    }
}

/// Syntax highlighting settings: a theme and a syntax, and the sets they
/// come from.
pub struct SyntaxHighlighter {
    theme: syntect::highlighting::Theme,
    theme_set: Arc<syntect::highlighting::ThemeSet>,
    syntax_ref: syntect::parsing::SyntaxReference,
    syntax_set: Arc<syntect::parsing::SyntaxSet>,
}

/// The spans of a highlighted line: each piece in its foreground color;
/// where highlighting failed, the whole line in the base style.
pub open spec fn highlighted_spans(
    pieces: Option<Seq<(Seq<char>, u8, u8, u8)>>,
    line: Seq<char>,
    base: ratatui::style::Style,
) -> Seq<(Seq<char>, ratatui::style::Style)> {
    match pieces {
        None => seq![(line, base)],
        Some(p) => Seq::new(p.len(), |i: int| (p[i].0, rgb_style(p[i].1, p[i].2, p[i].3))),
    }
}

/// The spans of a line from what the highlighter gave for it.
pub fn spans_from_highlights(pieces: Option<Vec<(Vec<char>, u8, u8, u8)>>, line: &str, base: &ratatui::style::Style) -> (v: Vec<InternalSpan>)
    ensures
        spans_view(v@) == highlighted_spans(match pieces { Some(p) => Some(pieces_view(p@)), None => None }, line@, *base),
{
    let mut spans: Vec<InternalSpan> = Vec::new();
    match pieces {
        None => {
            spans.push(InternalSpan { content: str_chars(line), style: *base });
            assert(spans_view(spans@) =~= seq![(line@, *base)]);
        },
        Some(p) => {
            let ghost pv = pieces_view(p@);
            let mut rest = p;
            let mut i: usize = 0;
            let n = rest.len();
            while i < n
                invariant
                    n == pv.len(),
                    i <= n,
                    pieces_view(rest@) == pv,
                    spans_view(spans@) == highlighted_spans(Some(pv), line@, *base).take(i as int),
                decreases n - i,
            {
                let piece = &rest[i];
                let text = piece.0.clone();
                let (r, g, b) = (piece.1, piece.2, piece.3);
                let ghost before = spans_view(spans@);
                let style = style_with_rgb(r, g, b);
                spans.push(InternalSpan { content: text, style });
                proof {
                    assert(text@ == pv[i as int].0);
                    assert(spans_view(spans@) =~= before.push((pv[i as int].0, rgb_style(pv[i as int].1, pv[i as int].2, pv[i as int].3))));
                    assert(highlighted_spans(Some(pv), line@, *base).take(i + 1)
                        =~= highlighted_spans(Some(pv), line@, *base).take(i as int).push(highlighted_spans(Some(pv), line@, *base)[i as int]));
                }
                i = i + 1;
            }
            assert(highlighted_spans(Some(pv), line@, *base).take(n as int) =~= highlighted_spans(Some(pv), line@, *base));
        },
    }
    spans
}

/// The spans of highlighted pieces hold the pieces' text.
pub proof fn lemma_highlighted_text(p: Seq<(Seq<char>, u8, u8, u8)>, base: ratatui::style::Style)
    ensures
        flat(highlighted_spans(Some(p), Seq::empty(), base)) == pieces_text(p),
    decreases p.len(),
{
    let h = highlighted_spans(Some(p), Seq::empty(), base);
    if p.len() == 0 {
        assert(h =~= Seq::<(Seq<char>, ratatui::style::Style)>::empty());
    } else {
        lemma_highlighted_text(p.drop_last(), base);
        assert(h.drop_last() =~= highlighted_spans(Some(p.drop_last()), Seq::empty(), base));
    }
}

impl SyntaxHighlighter {
    /// The theme.
    pub closed spec fn current_theme(&self) -> syntect::highlighting::Theme {
        self.theme
    }

    /// The set of themes that themes are looked up in by name.
    pub closed spec fn themes(&self) -> syntect::highlighting::ThemeSet {
        *self.theme_set
    }

    /// The syntax.
    pub closed spec fn syntax(&self) -> syntect::parsing::SyntaxReference {
        self.syntax_ref
    }

    /// The set of syntaxes that syntaxes are looked up in by extension.
    pub closed spec fn syntaxes(&self) -> syntect::parsing::SyntaxSet {
        *self.syntax_set
    }

    /// A highlighter with the theme of the given name and the syntax for
    /// the given file extension, from syntect's default sets. Fails with
    /// `ThemeNotFound` for a theme that the set lacks, else with
    /// `ExtensionNotFound` for an extension that no syntax is for.
    pub fn new<'c>(theme: &'c str, extension: &'c str) -> (r: Result<Self, SyntaxHighlighterError<'c>>)
        ensures
            match r {
                Ok(h) => theme_names(h.themes()).contains(theme@) && has_extension(h.syntaxes(), extension@)
                    && h.current_theme() == theme_named(h.themes(), theme@)
                    && h.syntax() == syntax_for(h.syntaxes(), extension@),
                Err(SyntaxHighlighterError::ThemeNotFound(t)) => t@ == theme@,
                Err(SyntaxHighlighterError::ExtensionNotFound(e)) => e@ == extension@,
            },
            (theme@ == "base16-ocean.dark"@ || theme@ == "base16-eighties.dark"@ || theme@ == "base16-mocha.dark"@
                || theme@ == "base16-ocean.light"@ || theme@ == "InspiredGitHub"@ || theme@ == "Solarized (dark)"@
                || theme@ == "Solarized (light)"@) ==> !(r matches Err(SyntaxHighlighterError::ThemeNotFound(_))),
            (theme@ == "base16-ocean.dark"@ || theme@ == "base16-eighties.dark"@ || theme@ == "base16-mocha.dark"@
                || theme@ == "base16-ocean.light"@ || theme@ == "InspiredGitHub"@ || theme@ == "Solarized (dark)"@
                || theme@ == "Solarized (light)"@) && extension@ == "rs"@ ==> r is Ok,
    {
        let theme_set = default_theme_set();
        let syntax_set = default_syntax_set();
        Self::from_sets(theme_set, syntax_set, theme, extension)
    }

    /// A highlighter with the theme of the given name and the syntax for
    /// the given file extension, looked up in the given sets. Fails with
    /// `ThemeNotFound` exactly for a theme that the theme set lacks, else
    /// with `ExtensionNotFound` exactly for an extension that no syntax of
    /// the syntax set is for.
    pub fn from_sets<'c>(
        theme_set: Arc<syntect::highlighting::ThemeSet>,
        syntax_set: Arc<syntect::parsing::SyntaxSet>,
        theme: &'c str,
        extension: &'c str,
    ) -> (r: Result<Self, SyntaxHighlighterError<'c>>)
        ensures
            (r matches Err(SyntaxHighlighterError::ThemeNotFound(t)) && t@ == theme@)
                <==> !theme_names(*theme_set).contains(theme@),
            (r matches Err(SyntaxHighlighterError::ExtensionNotFound(e)) && e@ == extension@)
                <==> theme_names(*theme_set).contains(theme@) && !has_extension(*syntax_set, extension@),
            r matches Ok(h) ==> {
                &&& h.themes() == *theme_set
                &&& h.syntaxes() == *syntax_set
                &&& h.current_theme() == theme_named(*theme_set, theme@)
                &&& h.syntax() == syntax_for(*syntax_set, extension@)
            },
            r is Ok <==> theme_names(*theme_set).contains(theme@) && has_extension(*syntax_set, extension@),
    {
        let found_theme = match find_theme(&theme_set, theme) {
            Some(t) => t,
            None => {
                return Err(SyntaxHighlighterError::ThemeNotFound(theme));
            },
        };
        let syntax_ref = match find_syntax(&syntax_set, extension) {
            Some(s) => s,
            None => {
                return Err(SyntaxHighlighterError::ExtensionNotFound(extension));
            },
        };
        Ok(SyntaxHighlighter { theme: found_theme, theme_set, syntax_ref, syntax_set })
    }

    /// A highlighter from the given theme, syntax and sets.
    pub fn with_sets(
        theme: syntect::highlighting::Theme,
        theme_set: Arc<syntect::highlighting::ThemeSet>,
        syntax_ref: syntect::parsing::SyntaxReference,
        syntax_set: Arc<syntect::parsing::SyntaxSet>,
    ) -> (h: SyntaxHighlighter)
        ensures
            h.current_theme() == theme,
            h.themes() == *theme_set,
            h.syntax() == syntax_ref,
            h.syntaxes() == *syntax_set,
    {
        SyntaxHighlighter { theme, theme_set, syntax_ref, syntax_set }
    }

    /// The highlighter with another theme.
    pub fn custom_theme(self, theme: syntect::highlighting::Theme) -> (h: Self)
        ensures
            h.current_theme() == theme,
            h.themes() == self.themes(),
            h.syntax() == self.syntax(),
            h.syntaxes() == self.syntaxes(),
    {
        let mut h = self;
        h.theme = theme;
        h
    }

    /// The highlighter with another syntax.
    pub fn custom_syntax_ref(self, syntax_ref: syntect::parsing::SyntaxReference) -> (h: Self)
        ensures
            h.current_theme() == self.current_theme(),
            h.themes() == self.themes(),
            h.syntax() == syntax_ref,
            h.syntaxes() == self.syntaxes(),
    {
        let mut h = self;
        h.syntax_ref = syntax_ref;
        h
    }

    /// The highlighter with the theme of the given name from its theme
    /// set; `ThemeNotFound` if the set has none by that name.
    pub fn theme(self, theme: &str) -> (r: Result<Self, SyntaxHighlighterError<'_>>)
        ensures
            r is Err <==> !theme_names(self.themes()).contains(theme@),
            r matches Err(e) ==> e matches SyntaxHighlighterError::ThemeNotFound(t) && t@ == theme@,
            r matches Ok(h) ==> h.current_theme() == theme_named(self.themes(), theme@) && h.themes() == self.themes()
                && h.syntax() == self.syntax() && h.syntaxes() == self.syntaxes(),
    {
        let found = match find_theme(&self.theme_set, theme) {
            Some(t) => t,
            None => {
                return Err(SyntaxHighlighterError::ThemeNotFound(theme));
            },
        };
        let mut h = self;
        h.theme = found;
        Ok(h)
    }

    /// The highlighter with the syntax for the given file extension from
    /// its syntax set; `ExtensionNotFound` if no syntax is for it.
    pub fn extension(self, extension: &str) -> (r: Result<Self, SyntaxHighlighterError<'_>>)
        ensures
            r is Err <==> !has_extension(self.syntaxes(), extension@),
            r matches Err(e) ==> e matches SyntaxHighlighterError::ExtensionNotFound(x) && x@ == extension@,
            r matches Ok(h) ==> h.syntax() == syntax_for(self.syntaxes(), extension@) && h.themes() == self.themes()
                && h.current_theme() == self.current_theme() && h.syntaxes() == self.syntaxes(),
    {
        let found = match find_syntax(&self.syntax_set, extension) {
            Some(s) => s,
            None => {
                return Err(SyntaxHighlighterError::ExtensionNotFound(extension));
            },
        };
        let mut h = self;
        h.syntax_ref = found;
        Ok(h)
    }

    /// The spans of a line highlighted with the theme and syntax; where
    /// highlighting fails, the whole line in the base style.
    pub fn highlight_line(&self, line: &str, base_style: &ratatui::style::Style) -> (v: Vec<InternalSpan>)
        ensures
            spans_view(v@) == highlighted_spans(
                highlighted_pieces(self.syntax(), self.current_theme(), self.syntaxes(), line@),
                line@,
                *base_style,
            ),
            flat(spans_view(v@)) == line@,
    {
        let pieces = highlight_pieces(&self.syntax_ref, &self.theme, &self.syntax_set, line);
        proof {
            if pieces is Some {
                lemma_highlighted_text(pieces_view(pieces->0@), *base_style);
                assert(highlighted_spans(Some(pieces_view(pieces->0@)), Seq::empty(), *base_style)
                    =~= highlighted_spans(Some(pieces_view(pieces->0@)), line@, *base_style));
            } else {
                let e = Seq::<(Seq<char>, ratatui::style::Style)>::empty();
                assert(seq![(line@, *base_style)].drop_last() =~= e);
                assert(flat(e) == Seq::<char>::empty());
                assert(flat(seq![(line@, *base_style)]) =~= line@);
            }
        }
        let v = spans_from_highlights(pieces, line, base_style);
        v
    }
}

/// The spans after each selection that reaches the row restyles its
/// columns, one selection after the other.
pub open spec fn selections_applied(
    s: Seq<(Seq<char>, ratatui::style::Style)>,
    sels: Seq<Option<Selection>>,
    row: usize,
    style: ratatui::style::Style,
) -> Seq<(Seq<char>, ratatui::style::Style)>
    decreases sels.len(),
{
    if sels.len() == 0 {
        s
    } else {
        let before = selections_applied(s, sels.drop_last(), row, style);
        let n = crate::spans::capped_bytes(before);
        match sels.last() {
            Some(sel) => match sel.columns_in_row(row as int, n) {
                Some(p) => if sel.covers_row(row as int) { split_from(before, 0, 0, p.0, p.1, style) } else { before },
                None => before,
            },
            None => before,
        }
    }
}

impl<'a> InternalLine<'a> {
    /// The spans of the shown part of a highlighted row: the highlighter's
    /// spans, restyled where the selections cover the row, cropped by the
    /// scroll offset.
    pub fn into_highlighted_spans(self, selections: &[Option<Selection>], highlighter: &SyntaxHighlighter) -> (v: Vec<InternalSpan>)
        requires
            self.line@.len() <= usize::MAX,
        ensures
            ({
                let p = highlighted_pieces(highlighter.syntax(), highlighter.current_theme(), highlighter.syntaxes(), self.line@);
                let h = highlighted_spans(p, self.line@, self.base);
                let a = selections_applied(h, selections@, self.row_index, self.highlighted);
                spans_view(v@) == (if self.scroll_offset > 0 { cropped(a, self.scroll_offset as int) } else { a })
            }),
    {
        let text = string_from_chars(self.line);
        let spans = highlighter.highlight_line(text.as_str(), &self.base);
        select_and_crop(spans, selections, self.row_index, &self.highlighted, self.scroll_offset)
    }
}

/// Restyles spans where the selections cover the row, then crops them by
/// the scroll offset.
pub fn select_and_crop(
    spans: Vec<InternalSpan>,
    selections: &[Option<Selection>],
    row: usize,
    highlighted: &ratatui::style::Style,
    scroll_offset: usize,
) -> (v: Vec<InternalSpan>)
    requires
        flat(spans_view(spans@)).len() <= usize::MAX,
    ensures
        ({
            let a = selections_applied(spans_view(spans@), selections@, row, *highlighted);
            spans_view(v@) == (if scroll_offset > 0 { cropped(a, scroll_offset as int) } else { a })
        }),
{
    let ghost s0 = spans_view(spans@);
    let mut current = spans;
    let mut i: usize = 0;
    while i < selections.len()
        invariant
            i <= selections@.len(),
            spans_view(current@) == selections_applied(s0, selections@.take(i as int), row, *highlighted),
            flat(spans_view(current@)).len() == flat(s0).len(),
            flat(s0).len() <= usize::MAX,
        decreases selections@.len() - i,
    {
        assert(selections@.take(i + 1).drop_last() =~= selections@.take(i as int));
        if let Some(sel) = &selections[i] {
            if sel.contains_row(row) {
                let applied = InternalSpan::apply_selection(current.as_slice(), row, sel, highlighted);
                if let Some(next) = applied {
                    proof {
                        let n = crate::spans::capped_bytes(spans_view(current@));
                        let p = sel.columns_in_row(row as int, n)->0;
                        crate::spans::lemma_spans_bytes_nonneg(spans_view(current@));
                        sel.lemma_columns_ordered(row as int, n);
                        lemma_split_keeps_text(spans_view(current@), p.0, p.1, *highlighted);
                    }
                    current = next;
                }
            }
        }
        i = i + 1;
    }
    assert(selections@.take(i as int) =~= selections@);
    if scroll_offset > 0 {
        InternalSpan::crop_spans(&mut current, scroll_offset);
    }
    current
}

} // verus!
