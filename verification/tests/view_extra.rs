use edtui::lines::Lines;
use edtui::spans::{span_width, spans_width, InternalSpan};
use edtui::syntax::{SyntaxHighlighter, SyntaxHighlighterError};
use edtui::view::{cursor_cell, line_number, line_number_width, next_row_fits, LineNumbers, ScreenPosition, ViewState};
use ratatui::style::Style;

#[test]
fn line_number_gutter_width() {
    assert_eq!(line_number_width(LineNumbers::Hidden, 500), 0);
    assert_eq!(line_number_width(LineNumbers::Absolute, 0), 2);
    assert_eq!(line_number_width(LineNumbers::Absolute, 9), 2);
    assert_eq!(line_number_width(LineNumbers::Relative, 10), 3);
    assert_eq!(line_number_width(LineNumbers::Absolute, 12345), 6);
}

#[test]
fn span_widths_count_tabs_and_wide_characters() {
    let span = InternalSpan::new("a\tb", &Style::default());
    assert_eq!(span_width(&span, 4), 6);
    assert_eq!(span_width(&span, 0), 2);
    let wide = InternalSpan::new("🙂!", &Style::default());
    assert_eq!(span_width(&wide, 4), 3);
    assert_eq!(spans_width(&[span, wide], 4), 9);
}

#[test]
fn vertical_viewport_with_wrapped_rows() {
    let lines = Lines::from("aaaaaaaa\nb\nc\nd");
    let mut view = ViewState::new();
    view.num_rows = 2;
    // the first row takes two screen rows of width 4; three screen rows
    // show rows 1..=3 when the cursor is on row 3
    assert_eq!(view.update_viewport_vertical_wrap(4, 3, 3, &lines), 1);
    // a cursor on a shown row leaves the viewport alone
    assert_eq!(view.update_viewport_vertical_wrap(4, 3, 2, &lines), 1);
    // scrolling up to the cursor
    assert_eq!(view.update_viewport_vertical_wrap(4, 3, 0, &lines), 0);
}

#[test]
fn syntax_highlighter_finds_themes_and_syntaxes() {
    let highlighter = SyntaxHighlighter::new("base16-ocean.dark", "rs");
    assert!(highlighter.is_ok());
    let highlighter = highlighter.ok().unwrap();
    let spans = highlighter.highlight_line("fn main() {}", &Style::default());
    let text: String = spans.iter().flat_map(|s| s.content.iter()).collect();
    assert_eq!(text, "fn main() {}");
    assert!(spans.len() > 1);

    let switched = highlighter.theme("Solarized (dark)");
    assert!(switched.is_ok());
    match switched.ok().unwrap().theme("no such theme") {
        Err(SyntaxHighlighterError::ThemeNotFound(t)) => assert_eq!(t, "no such theme"),
        _ => panic!("expected a missing theme"),
    }
}

#[test]
fn syntax_highlighter_errors() {
    match SyntaxHighlighter::new("no such theme", "rs") {
        Err(e @ SyntaxHighlighterError::ThemeNotFound(_)) => assert_eq!(e.message(), "Could not find theme no such theme"),
        _ => panic!("expected a missing theme"),
    }
    match SyntaxHighlighter::new("InspiredGitHub", "no-such-extension") {
        Err(e @ SyntaxHighlighterError::ExtensionNotFound(_)) => {
            assert_eq!(e.message(), "Could not find extension no-such-extension")
        }
        _ => panic!("expected a missing extension"),
    }
    // extensions are compared without regard to ASCII case
    assert!(SyntaxHighlighter::new("InspiredGitHub", "RS").is_ok());
}

#[test]
fn highlighted_spans_take_theme_colors() {
    let highlighter = SyntaxHighlighter::new("base16-ocean.dark", "rs").ok().unwrap();
    let base = Style::default();
    let spans = highlighter.highlight_line("let x = 1;", &base);
    assert!(spans.iter().any(|s| s.style != base));
}

#[test]
fn gutter_numbers() {
    assert_eq!(line_number(LineNumbers::Absolute, 4, 1), 5);
    assert_eq!(line_number(LineNumbers::Relative, 4, 1), 3);
    assert_eq!(line_number(LineNumbers::Relative, 1, 4), 3);
    assert_eq!(line_number(LineNumbers::Relative, 2, 2), 3);
}

#[test]
fn rows_are_drawn_until_the_area_is_full() {
    assert!(next_row_fits(&vec![], 3));
    assert!(!next_row_fits(&vec![], 0));
    assert!(next_row_fits(&vec![1, 1], 3));
    assert!(!next_row_fits(&vec![1, 2], 3));
    assert!(!next_row_fits(&vec![4], 3));
    assert!(next_row_fits(&vec![0, 0, 2], 3));
}

#[test]
fn cursor_cell_falls_back_to_the_cursor_row() {
    let found = ScreenPosition { x: 7, y: 9 };
    assert_eq!(cursor_cell(Some(found), 2, 3, 40), found);
    assert_eq!(cursor_cell(None, 2, 3, 4), ScreenPosition { x: 2, y: 7 });
    assert_eq!(cursor_cell(None, 0, 1, 65537), ScreenPosition { x: 0, y: 2 });
}

#[test]
fn syntax_highlighter_from_given_sets() {
    let themes = std::sync::Arc::new(syntect::highlighting::ThemeSet::load_defaults());
    let syntaxes = std::sync::Arc::new(syntect::parsing::SyntaxSet::load_defaults_newlines());
    match SyntaxHighlighter::from_sets(themes.clone(), syntaxes.clone(), "no such theme", "no-such-extension") {
        Err(SyntaxHighlighterError::ThemeNotFound(t)) => assert_eq!(t, "no such theme"),
        _ => panic!("expected a missing theme"),
    }
    match SyntaxHighlighter::from_sets(themes.clone(), syntaxes.clone(), "InspiredGitHub", "no-such-extension") {
        Err(SyntaxHighlighterError::ExtensionNotFound(e)) => assert_eq!(e, "no-such-extension"),
        _ => panic!("expected a missing extension"),
    }
    let empty = std::sync::Arc::new(syntect::highlighting::ThemeSet::new());
    assert!(SyntaxHighlighter::from_sets(empty, syntaxes.clone(), "InspiredGitHub", "rs").is_err());
    assert!(SyntaxHighlighter::from_sets(themes, syntaxes, "InspiredGitHub", "rs").is_ok());
}
