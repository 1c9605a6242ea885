use ratatui::style::Color;
use edtui::highlight::Highlight;
use edtui::index::Index2;
use ratatui::style::Style;

#[test]
fn test_highlight_contains() {
    let highlight = Highlight::new(Index2::new(0, 2), Index2::new(0, 5), Style::default());

    assert!(!highlight.contains(&Index2::new(0, 1)));
    assert!(highlight.contains(&Index2::new(0, 2)));
    assert!(highlight.contains(&Index2::new(0, 3)));
    assert!(highlight.contains(&Index2::new(0, 5)));
    assert!(!highlight.contains(&Index2::new(0, 6)));
}

#[test]
fn test_highlight_multiline() {
    let highlight = Highlight::new(Index2::new(0, 5), Index2::new(2, 3), Style::default());

    assert!(!highlight.contains(&Index2::new(0, 4)));
    assert!(highlight.contains(&Index2::new(0, 5)));
    assert!(highlight.contains(&Index2::new(1, 0)));
    assert!(highlight.contains(&Index2::new(1, 100)));
    assert!(highlight.contains(&Index2::new(2, 0)));
    assert!(highlight.contains(&Index2::new(2, 3)));
    assert!(!highlight.contains(&Index2::new(2, 4)));
}

#[test]
fn test_highlight_columns_in_row() {
    let highlight = Highlight::new(
        Index2::new(1, 3),
        Index2::new(3, 7),
        Style::default().bg(Color::Yellow),
    );

    assert_eq!(highlight.get_columns_in_row(0, 10), None);
    assert_eq!(highlight.get_columns_in_row(1, 10), Some((3, 10)));
    assert_eq!(highlight.get_columns_in_row(2, 10), Some((0, 10)));
    assert_eq!(highlight.get_columns_in_row(3, 10), Some((0, 7)));
    assert_eq!(highlight.get_columns_in_row(4, 10), None);
}
