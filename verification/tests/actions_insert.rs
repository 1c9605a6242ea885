use edtui::actions::AppendNewline;
use edtui::state::EditorState;
use edtui::index::Index2;
use edtui::actions::InsertChar;
use edtui::actions::InsertNewline;
use edtui::actions::LineBreak;
use edtui::lines::Lines;
use edtui::actions::PushLine;

fn test_state() -> EditorState {
    EditorState::new(Lines::from("Hello World!\n\n123."))
}

#[test]
fn insert_test_insert_char() {
    let mut state = test_state();

    InsertChar('!').execute(&mut state);
    assert_eq!(state.cursor, Index2::new(0, 1));
    assert_eq!(state.lines, Lines::from("!Hello World!\n\n123."));

    state.cursor = Index2::new(0, 13);
    InsertChar('!').execute(&mut state);
    assert_eq!(state.cursor, Index2::new(0, 14));
    assert_eq!(state.lines, Lines::from("!Hello World!!\n\n123."));
}

#[test]
fn test_insert_char_into_empty_buffer() {
    let mut state = EditorState::new(Lines::from("\n"));
    state.cursor.row = 1;

    InsertChar('a').execute(&mut state);
    assert_eq!(state.cursor, Index2::new(1, 1));
    assert_eq!(state.lines, Lines::from("\na"));
}

#[test]
fn insert_test_insert_char_out_of_bounds() {
    let mut state = EditorState::new(Lines::from("\nb"));
    state.cursor = Index2::new(0, 1);

    InsertChar('a').execute(&mut state);
    assert_eq!(state.cursor, Index2::new(0, 1));
    assert_eq!(state.lines, Lines::from("a\nb"));
}

#[test]
fn test_line_break() {
    let mut state = test_state();

    LineBreak(1).execute(&mut state);
    assert_eq!(state.cursor, Index2::new(1, 0));
    assert_eq!(state.lines, Lines::from("\nHello World!\n\n123."));

    state.cursor = Index2::new(1, 5);
    LineBreak(1).execute(&mut state);
    assert_eq!(state.cursor, Index2::new(2, 0));
    assert_eq!(state.lines, Lines::from("\nHello\n World!\n\n123."));
}

#[test]
fn test_line_break_col_out_of_bounds() {
    let mut state = test_state();
    state.cursor.col = 99;

    LineBreak(1).execute(&mut state);
    assert_eq!(state.cursor, Index2::new(1, 0));
    assert_eq!(state.lines, Lines::from("Hello World!\n\n\n123."));

    state.cursor.col = 99;
    state.cursor.row = 4;
    LineBreak(1).execute(&mut state);
    assert_eq!(state.cursor, Index2::new(5, 0));
    assert_eq!(state.lines, Lines::from("Hello World!\n\n\n123.\n"));
}

#[test]
fn test_append_newline() {
    let mut state = test_state();

    AppendNewline(1).execute(&mut state);
    assert_eq!(state.cursor, Index2::new(1, 0));
    assert_eq!(state.lines, Lines::from("Hello World!\n\n\n123."));
}

#[test]
fn test_insert_newline() {
    let mut state = test_state();

    InsertNewline(1).execute(&mut state);
    assert_eq!(state.cursor, Index2::new(0, 0));
    assert_eq!(state.lines, Lines::from("\nHello World!\n\n123."));

    state.cursor = Index2::new(2, 1);
    InsertNewline(1).execute(&mut state);
    assert_eq!(state.cursor, Index2::new(2, 0));
    assert_eq!(state.lines, Lines::from("\nHello World!\n\n\n123."));
}

#[test]
fn test_push_line() {
    let mut state = test_state();

    PushLine("456.").execute(&mut state);
    assert_eq!(state.lines, Lines::from("Hello World!\n\n123.\n456."));
}
