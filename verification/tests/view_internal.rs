use edtui::index::Index2;
use edtui::selection::Selection;
use edtui::spans::{InternalLine, InternalSpan, find_position_in_wrapped_spans, unicode_width_position_in_spans};
use ratatui::style::{Style, Stylize};

#[test]
fn internal_test_internal_line_into_spans() {
    // given
    let base = Style::default();
    let hightlighted = Style::default().red();
    let line = "Hello".chars().into_iter().collect::<Vec<char>>();

    let selection = Some(Selection::new(Index2::new(0, 0), Index2::new(0, 2)));
    let selections = vec![selection];

    // when
    let spans = InternalLine::new(&line, base, hightlighted, 0, 0).into_spans(&selections);

    // then
    assert_eq!(spans[0], InternalSpan::new("Hel", &hightlighted));
    assert_eq!(spans[1], InternalSpan::new("lo", &base));
}

#[test]
fn internal_test_internal_span_split_spans() {
    // given
    let base = &Style::default();
    let hightlighted = &Style::default().red();
    let spans = vec![
        InternalSpan::new("Hel", base),
        InternalSpan::new("lo!", base),
    ];

    // when
    let new_spans = InternalSpan::split_spans(&spans, 1, 1, hightlighted);

    // then
    assert_eq!(new_spans[0], InternalSpan::new("H", base));
    assert_eq!(new_spans[1], InternalSpan::new("e", hightlighted));
    assert_eq!(new_spans[2], InternalSpan::new("l", base));
    assert_eq!(new_spans[3], InternalSpan::new("lo!", base));

    // when
    let new_spans = InternalSpan::split_spans(&spans, 1, 2, hightlighted);

    // then
    assert_eq!(new_spans[0], InternalSpan::new("H", base));
    assert_eq!(new_spans[1], InternalSpan::new("el", hightlighted));
    assert_eq!(new_spans[2], InternalSpan::new("lo!", base));

    // when
    let new_spans = InternalSpan::split_spans(&spans, 1, 3, hightlighted);

    // then
    assert_eq!(new_spans[0], InternalSpan::new("H", base));
    assert_eq!(new_spans[1], InternalSpan::new("el", hightlighted));
    assert_eq!(new_spans[2], InternalSpan::new("l", hightlighted));
    assert_eq!(new_spans[3], InternalSpan::new("o!", base));

    // when
    let new_spans = InternalSpan::split_spans(&spans, 1, 10, hightlighted);

    // then
    assert_eq!(new_spans[0], InternalSpan::new("H", base));
    assert_eq!(new_spans[1], InternalSpan::new("el", hightlighted));
    assert_eq!(new_spans[2], InternalSpan::new("lo!", hightlighted));
}

#[test]
fn test_split_spans_with_emoji() {
    // given
    let base = &Style::default();
    let hightlighted = &Style::default().red();
    let spans = vec![InternalSpan::new("Hell🙂!", base)];

    // when
    let new_spans = InternalSpan::split_spans(&spans, 2, 4, hightlighted);

    // then
    assert_eq!(new_spans[0], InternalSpan::new("He", base));
    assert_eq!(new_spans[1], InternalSpan::new("ll🙂", hightlighted));
    assert_eq!(new_spans[2], InternalSpan::new("!", base));
}

#[test]
fn internal_test_internal_span_crop_spans() {
    // given
    let base = &Style::default();
    let original_spans = vec![
        InternalSpan::new("Hel", base),
        InternalSpan::new("lo", base),
        InternalSpan::new("World!", base),
    ];
    let mut spans = original_spans.clone();

    // when
    InternalSpan::crop_spans(&mut spans, 1);

    // then
    assert_eq!(spans[0], InternalSpan::new("el", base));
    assert_eq!(spans[1], InternalSpan::new("lo", base));
    assert_eq!(spans[2], InternalSpan::new("World!", base));

    // when
    let mut spans = original_spans.clone();
    InternalSpan::crop_spans(&mut spans, 2);

    // then
    assert_eq!(spans[0], InternalSpan::new("l", base));
    assert_eq!(spans[1], InternalSpan::new("lo", base));
    assert_eq!(spans[2], InternalSpan::new("World!", base));

    // when
    let mut spans = original_spans.clone();
    InternalSpan::crop_spans(&mut spans, 3);

    // then
    assert_eq!(spans[0], InternalSpan::new("lo", base));
    assert_eq!(spans[1], InternalSpan::new("World!", base));
}

#[test]
fn internal_test_internal_span_apply_selection() {
    // given
    let base = &Style::default();
    let hightlighted = &Style::default().red();
    let spans = vec![
        InternalSpan::new("Hel", base),
        InternalSpan::new("lo!", base),
    ];

    // when
    let selection = Selection::new(Index2::new(0, 1), Index2::new(0, 3));
    let new_spans =
        InternalSpan::apply_selection(&spans, 0, &selection, hightlighted).unwrap();

    // then
    assert_eq!(new_spans[0], InternalSpan::new("H", base));
    assert_eq!(new_spans[1], InternalSpan::new("el", hightlighted));
    assert_eq!(new_spans[2], InternalSpan::new("l", hightlighted));
    assert_eq!(new_spans[3], InternalSpan::new("o!", base));
}

#[test]
fn test_internal_span_apply_selection_with_emoji() {
    // given
    let base = &Style::default();
    let hightlighted = &Style::default().red();
    let spans = vec![
        InternalSpan::new("Hell🙂", base),
        InternalSpan::new("!", base),
    ];

    // when
    let selection = Selection::new(Index2::new(0, 3), Index2::new(0, 5));
    let new_spans =
        InternalSpan::apply_selection(&spans, 0, &selection, hightlighted).unwrap();

    // then
    assert_eq!(new_spans[0], InternalSpan::new("Hel", base));
    assert_eq!(new_spans[1], InternalSpan::new("l🙂", hightlighted));
    assert_eq!(new_spans[2], InternalSpan::new("!", hightlighted));
}

#[test]
fn test_unicode_width_position_in_spans() {
    let spans = vec![InternalSpan::new("a😀b", &Style::default()), InternalSpan::new("c😀d", &Style::default())];

    let index = unicode_width_position_in_spans(&spans, 2, 0);
    assert_eq!(index, 3);

    let index = unicode_width_position_in_spans(&spans, 5, 0);
    assert_eq!(index, 7);

    let index = unicode_width_position_in_spans(&spans, 99, 0);
    assert_eq!(index, 8);
}

#[test]
fn test_find_position_in_wrapped_spans() {
    let line_1 = vec![InternalSpan::new("abc", &Style::default())];
    let line_2 = vec![InternalSpan::new("def", &Style::default())];
    let spans = vec![line_1, line_2];

    let position = find_position_in_wrapped_spans(&spans, 2, 3, 0);
    assert_eq!(position, Index2::new(0, 2));

    let position = find_position_in_wrapped_spans(&spans, 3, 3, 0);
    assert_eq!(position, Index2::new(1, 0));

    let position = find_position_in_wrapped_spans(&spans, 5, 3, 0);
    assert_eq!(position, Index2::new(1, 2));

    let position = find_position_in_wrapped_spans(&spans, 6, 3, 0);
    assert_eq!(position, Index2::new(2, 0));
}

#[test]
fn test_find_position_in_wrapped_spans_with_emoji() {
    let line_1 = vec![InternalSpan::new("a😀b", &Style::default())];
    let line_2 = vec![InternalSpan::new("c😀", &Style::default())];
    let spans = vec![line_1, line_2];

    let position = find_position_in_wrapped_spans(&spans, 2, 4, 0);
    assert_eq!(position, Index2::new(0, 3));

    let position = find_position_in_wrapped_spans(&spans, 3, 4, 0);
    assert_eq!(position, Index2::new(1, 0));

    let position = find_position_in_wrapped_spans(&spans, 4, 4, 0);
    assert_eq!(position, Index2::new(1, 1));

    let position = find_position_in_wrapped_spans(&spans, 5, 4, 0);
    assert_eq!(position, Index2::new(1, 3));
}
