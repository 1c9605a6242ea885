use edtui::index::Index2;
use edtui::lines::Lines;
use edtui::buffer::append_str;
use edtui::walk::find_matching_bracket;
use edtui::buffer::insert_char;
use edtui::buffer::insert_str;
use edtui::buffer::skip_empty_lines;
use edtui::buffer::skip_whitespace;
use edtui::buffer::skip_whitespace_rev;

fn test_lines() -> Lines {
    Lines::from("Hello World!\n\n123.")
}

#[test]
fn test_skip_whitespace() {
    let lines = Lines::from("  World!");
    let mut index = Index2::new(0, 0);

    skip_whitespace(&lines, &mut index);
    assert_eq!(index.col, 2);

    skip_whitespace(&lines, &mut index);
    assert_eq!(index.col, 2);
}

#[test]
fn test_skip_empty_lines() {
    let lines = test_lines();

    let mut row_index = 0;
    skip_empty_lines(&lines, &mut row_index);
    assert_eq!(row_index, 0);

    let mut row_index = 1;
    skip_empty_lines(&lines, &mut row_index);
    assert_eq!(row_index, 2);

    let mut row_index = 2;
    skip_empty_lines(&lines, &mut row_index);
    assert_eq!(row_index, 2);
}

#[test]
fn test_skip_whitespace_rev() {
    let lines = Lines::from("  x World!");
    let mut index = Index2::new(0, 3);

    skip_whitespace_rev(&lines, &mut index);
    assert_eq!(index.col, 2);

    skip_whitespace_rev(&lines, &mut index);
    assert_eq!(index.col, 2);

    index.col = 1;
    skip_whitespace_rev(&lines, &mut index);
    assert_eq!(index.col, 0);
}

#[test]
fn test_insert_str() {
    let mut lines = test_lines();
    let mut index = Index2::new(0, 5);

    insert_str(&mut lines, &mut index, ",\n");
    assert_eq!(index, Index2::new(1, 0));
    assert_eq!(lines, Lines::from("Hello,\n World!\n\n123."));
}

#[test]
fn helper_test_insert_char() {
    let mut lines = test_lines();
    let mut index = Index2::new(0, 5);

    insert_char(&mut lines, &mut index, '?', false);
    assert_eq!(index, Index2::new(0, 6));
    assert_eq!(lines, Lines::from("Hello? World!\n\n123."));
}

#[test]
fn helper_test_insert_char_out_of_bounds() {
    let mut lines = test_lines();
    let mut index = Index2::new(99, 0);

    insert_char(&mut lines, &mut index, '?', false);
    assert_eq!(index, Index2::new(99, 0));
    assert_eq!(lines, Lines::from("Hello World!\n\n123."));
}

#[test]
fn test_append_str() {
    let mut lines = test_lines();
    let mut index = Index2::new(0, 5);

    append_str(&mut lines, &mut index, ",\n");
    assert_eq!(index, Index2::new(1, 0));
    assert_eq!(lines, Lines::from("Hello ,\nWorld!\n\n123."));

    let mut lines = test_lines();
    let mut index = Index2::new(1, 0);
    append_str(&mut lines, &mut index, "abc");
    assert_eq!(index, Index2::new(1, 2));
    assert_eq!(lines, Lines::from("Hello World!\nabc\n123."));
}

#[test]
fn test_find_matching_bracket() {
    let cursor = Index2::new(0, 0);
    let lines = Lines::from("{ab\n{{}}c}d");

    let closing_bracket = find_matching_bracket(&lines, cursor);
    assert_eq!(closing_bracket, Some(Index2::new(1, 5)));

    let cursor = Index2::new(1, 5);
    let closing_bracket = find_matching_bracket(&lines, cursor);
    assert_eq!(closing_bracket, Some(Index2::new(0, 0)));
}

#[test]
fn matching_brackets_pair_up_across_empty_rows() {
    let lines = Lines::from("x(a[\n\nb]c)\n(");
    let pairs = [
        (Index2::new(0, 1), Index2::new(2, 3)),
        (Index2::new(0, 3), Index2::new(2, 1)),
    ];
    for (open, close) in pairs {
        assert_eq!(find_matching_bracket(&lines, open), Some(close));
        assert_eq!(find_matching_bracket(&lines, close), Some(open));
    }
    assert_eq!(find_matching_bracket(&lines, Index2::new(3, 0)), None);
    assert_eq!(find_matching_bracket(&lines, Index2::new(0, 0)), None);
    assert_eq!(find_matching_bracket(&lines, Index2::new(1, 0)), None);
}
