use edtui::view::LineWrapper;
use edtui::spans::InternalSpan;
use ratatui::style::Style;

fn raw(s: &str) -> InternalSpan {
    InternalSpan::new(s, &Style::default())
}

#[test]
fn test_line_wrapper_determine_split() {
    let line_widths = LineWrapper::determine_split(5, 3);

    assert_eq!(line_widths[0], 3);
    assert_eq!(line_widths[1], 2);

    let line_widths = LineWrapper::determine_split(6, 3);

    assert_eq!(line_widths[0], 3);
    assert_eq!(line_widths[1], 3);
}

#[test]
fn test_line_wrapper_wrap_line() {
    let line: Vec<char> = "Hello World".chars().collect();
    let wrapped = LineWrapper::wrap_line(&line, 4, 0);
    let rows: Vec<String> = wrapped.iter().map(|r| r.iter().collect()).collect();
    assert_eq!(rows, vec!["Hell", "o Wo", "rld"]);

    let wrapped = LineWrapper::wrap_line(&['\t', 'a'], 1, 2);
    assert_eq!(wrapped, vec![vec![], vec!['\t'], vec!['a']]);
}

#[test]
fn test_wrap_spans() {
    let spans = vec![raw("Hello"), raw("World")];
    let wrapped_spans = LineWrapper::wrap_spans(spans, 3, 0);

    assert_eq!(wrapped_spans[0], vec![raw("Hel")]);
    assert_eq!(wrapped_spans[1], vec![raw("lo"), raw("W")]);
    assert_eq!(wrapped_spans[2], vec![raw("orl")]);
    assert_eq!(wrapped_spans[3], vec![raw("d")]);
}

#[test]
fn test_wrap_spans_with_emoji() {
    let spans = vec![raw("Hell🙂!")];
    let wrapped_spans = LineWrapper::wrap_spans(spans, 4, 0);

    assert_eq!(wrapped_spans[0], vec![raw("Hell")]);
    assert_eq!(wrapped_spans[1], vec![raw("🙂!")]);
}

#[test]
fn test_split_span_at_with_emoji() {
    let span = raw("🙂!");
    let (left, right) = LineWrapper::split_span_at(&span, 2, 0);

    assert_eq!(left, raw("🙂"));
    assert_eq!(right, raw("!"));
}
