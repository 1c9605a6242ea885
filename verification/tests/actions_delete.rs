use edtui::actions::DeleteBigWordForward;
use edtui::actions::DeleteChar;
use edtui::actions::DeleteCharForward;
use edtui::actions::DeleteLine;
use edtui::actions::DeleteSelection;
use edtui::actions::DeleteToEndOfLine;
use edtui::actions::DeleteToFirstCharOfLine;
use edtui::actions::DeleteWordBackward;
use edtui::actions::DeleteWordEnd;
use edtui::actions::DeleteWordForward;
use edtui::mode::EditorMode;
use edtui::state::EditorState;
use edtui::index::Index2;
use edtui::lines::Lines;
use edtui::actions::RemoveChar;
use edtui::actions::ReplaceChar;
use edtui::selection::Selection;

fn test_state() -> EditorState {
    EditorState::new(Lines::from("Hello World!\n\n123."))
}

#[test]
fn test_remove_char() {
    let mut state = test_state();

    state.cursor = Index2::new(0, 4);
    RemoveChar(1).execute(&mut state);
    assert_eq!(state.cursor, Index2::new(0, 4));
    assert_eq!(state.lines, Lines::from("Hell World!\n\n123."));

    state.cursor = Index2::new(0, 10);
    RemoveChar(1).execute(&mut state);
    assert_eq!(state.cursor, Index2::new(0, 9));
    assert_eq!(state.lines, Lines::from("Hell World\n\n123."));
}

#[test]
fn test_replace_char() {
    let mut state = test_state();

    state.cursor = Index2::new(0, 4);
    ReplaceChar('x').execute(&mut state);
    assert_eq!(state.cursor, Index2::new(0, 4));
    assert_eq!(state.lines, Lines::from("Hellx World!\n\n123."));

    // do nothing on empty line
    state.cursor = Index2::new(1, 0);
    ReplaceChar('x').execute(&mut state);
    assert_eq!(state.cursor, Index2::new(1, 0));
    assert_eq!(state.lines, Lines::from("Hellx World!\n\n123."));

    // do nothing if out of bounds
    state.cursor = Index2::new(99, 0);
    ReplaceChar('x').execute(&mut state);
    assert_eq!(state.cursor, Index2::new(99, 0));
    assert_eq!(state.lines, Lines::from("Hellx World!\n\n123."));
}

#[test]
fn test_delete_char() {
    let mut state = test_state();

    state.cursor = Index2::new(0, 5);
    DeleteChar(1).execute(&mut state);
    assert_eq!(state.cursor, Index2::new(0, 4));
    assert_eq!(state.lines, Lines::from("Hell World!\n\n123."));

    state.cursor = Index2::new(0, 11);
    DeleteChar(1).execute(&mut state);
    assert_eq!(state.cursor, Index2::new(0, 10));
    assert_eq!(state.lines, Lines::from("Hell World\n\n123."));
}

#[test]
fn test_delete_char_empty_line() {
    let mut state = test_state();
    state.cursor = Index2::new(1, 99);

    DeleteChar(1).execute(&mut state);
    assert_eq!(state.cursor, Index2::new(0, 12));
    assert_eq!(state.lines, Lines::from("Hello World!\n123."));

    let mut state = EditorState::new(Lines::from("\nb"));
    state.cursor = Index2::new(0, 1);
    DeleteChar(1).execute(&mut state);
    assert_eq!(state.cursor, Index2::new(0, 1));
    assert_eq!(state.lines, Lines::from("\nb"));
}

#[test]
fn test_delete_line() {
    let mut state = test_state();
    state.cursor = Index2::new(2, 3);

    DeleteLine(1).execute(&mut state);
    assert_eq!(state.cursor, Index2::new(1, 0));
    assert_eq!(state.lines, Lines::from("Hello World!\n"));

    DeleteLine(1).execute(&mut state);
    assert_eq!(state.cursor, Index2::new(0, 0));
    assert_eq!(state.lines, Lines::from("Hello World!"));

    DeleteLine(1).execute(&mut state);
    assert_eq!(state.cursor, Index2::new(0, 0));
    assert_eq!(state.lines, Lines::from(""));
}

#[test]
fn test_delete_to_first_char_of_line() {
    let mut state = EditorState::new(Lines::from("  Hello World!"));
    state.cursor = Index2::new(0, 4);

    DeleteToFirstCharOfLine.execute(&mut state);
    assert_eq!(state.cursor, Index2::new(0, 2));
    assert_eq!(state.lines, Lines::from("  llo World!"));

    state.cursor = Index2::new(0, 2);
    DeleteToFirstCharOfLine.execute(&mut state);
    assert_eq!(state.cursor, Index2::new(0, 0));
    assert_eq!(state.lines, Lines::from("llo World!"));
}

#[test]
fn test_delete_to_end_of_line() {
    let mut state = test_state();
    state.cursor = Index2::new(0, 3);

    DeleteToEndOfLine.execute(&mut state);
    assert_eq!(state.cursor, Index2::new(0, 2));
    assert_eq!(state.lines, Lines::from("Hel\n\n123."));
}

#[test]
fn test_delete_selection() {
    let mut state = test_state();
    let st = Index2::new(0, 1);
    let en = Index2::new(2, 0);
    state.selection = Some(Selection::new(st, en));

    DeleteSelection.execute(&mut state);
    assert_eq!(state.cursor, Index2::new(0, 1));
    assert_eq!(state.lines, Lines::from("H23."));
}

#[test]
fn test_delete_selection_out_of_bounds() {
    let mut state = EditorState::new(Lines::from("123.\nHello World!\n456."));
    let st = Index2::new(0, 5);
    let en = Index2::new(2, 10);
    state.selection = Some(Selection::new(st, en));

    DeleteSelection.execute(&mut state);
    // assert_eq!(state.cursor, Index2::new(0, 1));
    assert_eq!(state.lines, Lines::from("123."));
}

#[test]
fn test_delete_char_forward() {
    let mut state = EditorState::new(Lines::from("Hello World!\nNext line"));
    state.mode = EditorMode::Insert;

    // Delete character 'H'
    state.cursor = Index2::new(0, 0);
    DeleteCharForward(1).execute(&mut state);
    assert_eq!(state.cursor, Index2::new(0, 0));
    assert_eq!(state.lines, Lines::from("ello World!\nNext line"));

    // Delete character 'e'
    state.cursor = Index2::new(0, 0);
    DeleteCharForward(1).execute(&mut state);
    assert_eq!(state.cursor, Index2::new(0, 0));
    assert_eq!(state.lines, Lines::from("llo World!\nNext line"));

    // Delete character at end of line (newline)
    state.cursor = Index2::new(0, 10);
    DeleteCharForward(1).execute(&mut state);
    assert_eq!(state.cursor, Index2::new(0, 10));
    assert_eq!(state.lines, Lines::from("llo World!Next line"));
}

#[test]
fn test_delete_char_forward_at_end() {
    let mut state = EditorState::new(Lines::from("Hello\nWorld"));
    state.mode = EditorMode::Insert;

    // Cursor at end of first line should delete newline
    state.cursor = Index2::new(0, 5);
    DeleteCharForward(1).execute(&mut state);
    assert_eq!(state.cursor, Index2::new(0, 5));
    assert_eq!(state.lines, Lines::from("HelloWorld"));

    // Cursor at end of last line should do nothing
    state.cursor = Index2::new(0, 10);
    DeleteCharForward(1).execute(&mut state);
    assert_eq!(state.cursor, Index2::new(0, 10));
    assert_eq!(state.lines, Lines::from("HelloWorld"));
}

#[test]
fn test_delete_word_forward() {
    let mut state = EditorState::new(Lines::from("Hello World Test"));
    state.mode = EditorMode::Insert;
    state.cursor = Index2::new(0, 0);

    DeleteWordForward(1).execute(&mut state);
    assert_eq!(state.lines.to_string(), "World Test");
    assert_eq!(state.cursor, Index2::new(0, 0));

    DeleteWordForward(1).execute(&mut state);
    assert_eq!(state.lines.to_string(), "Test");
}

#[test]
fn test_delete_word_forward_mid_word() {
    let mut state = EditorState::new(Lines::from("Hello World"));
    state.mode = EditorMode::Insert;
    state.cursor = Index2::new(0, 2);

    DeleteWordForward(1).execute(&mut state);
    assert_eq!(state.lines.to_string(), "HeWorld");
}

#[test]
fn test_delete_word_forward_last_character() {
    let mut state = EditorState::new(Lines::from("Hello World"));
    state.mode = EditorMode::Insert;
    state.cursor = Index2::new(0, 10);

    DeleteWordForward(1).execute(&mut state);
    assert_eq!(state.lines.to_string(), "Hello Worl");
    assert_eq!(state.cursor, Index2::new(0, 9));

    state.cursor = Index2::new(0, 10);
    DeleteWordForward(1).execute(&mut state);
    assert_eq!(state.lines.to_string(), "Hello Wor");
    assert_eq!(state.cursor, Index2::new(0, 8));
}

#[test]
fn test_delete_word_forward_does_not_cross_line() {
    // Single char on the first line whose class matches the next line's
    // first char must still be deleted (must not bleed into line below).
    let mut state = EditorState::new(Lines::from("a\nHello"));
    state.mode = EditorMode::Insert;
    state.cursor = Index2::new(0, 0);

    DeleteWordForward(1).execute(&mut state);
    assert_eq!(state.lines.to_string(), "\nHello");

    // Same for a whitespace-delimited WORD delete.
    let mut state = EditorState::new(Lines::from("a\nHello"));
    state.mode = EditorMode::Insert;
    state.cursor = Index2::new(0, 0);

    DeleteBigWordForward(1).execute(&mut state);
    assert_eq!(state.lines.to_string(), "\nHello");
}

#[test]
fn test_delete_big_word_forward() {
    let mut state = EditorState::new(Lines::from("foo.bar baz"));
    state.cursor = Index2::new(0, 0);

    DeleteBigWordForward(1).execute(&mut state);
    assert_eq!(state.lines.to_string(), "baz");
    assert_eq!(state.cursor, Index2::new(0, 0));
}

#[test]
fn test_delete_big_word_forward_mid_word() {
    let mut state = EditorState::new(Lines::from("foo.bar baz"));
    state.cursor = Index2::new(0, 3);

    DeleteBigWordForward(1).execute(&mut state);
    assert_eq!(state.lines.to_string(), "foobaz");
}

#[test]
fn test_delete_word_end_keeps_trailing_whitespace() {
    let mut state = EditorState::new(Lines::from("Hello World"));
    state.cursor = Index2::new(0, 0);

    DeleteWordEnd(1).execute(&mut state);
    // Unlike `dw`, the trailing whitespace is preserved (Vim `cw` == `ce`).
    assert_eq!(state.lines.to_string(), " World");
    assert_eq!(state.cursor, Index2::new(0, 0));
    assert_eq!(state.mode, EditorMode::Normal);
}

#[test]
fn test_delete_big_word_vs_small_word() {
    let mut small = EditorState::new(Lines::from("foo.bar baz"));
    small.cursor = Index2::new(0, 0);
    DeleteWordForward(1).execute(&mut small);
    assert_eq!(small.lines.to_string(), ".bar baz");

    let mut big = EditorState::new(Lines::from("foo.bar baz"));
    big.cursor = Index2::new(0, 0);
    DeleteBigWordForward(1).execute(&mut big);
    assert_eq!(big.lines.to_string(), "baz");
}

#[test]
fn test_delete_word_backward() {
    let mut state = EditorState::new(Lines::from("Hello World Test"));
    state.mode = EditorMode::Insert;
    state.cursor = Index2::new(0, 12);

    DeleteWordBackward(1).execute(&mut state);
    assert_eq!(state.lines.to_string(), "Hello Test");
    assert_eq!(state.cursor, Index2::new(0, 6));
}

#[test]
fn test_delete_word_backward_mid_word() {
    // On "o" of World, should only delete "W"
    let mut state = EditorState::new(Lines::from("Hello World"));
    state.mode = EditorMode::Insert;
    state.cursor = Index2::new(0, 7);

    DeleteWordBackward(1).execute(&mut state);
    assert_eq!(state.lines.to_string(), "Hello orld");
    assert_eq!(state.cursor, Index2::new(0, 6));
}

#[test]
fn test_delete_word_backward_at_word_start() {
    // On "W" of World, should delete "Hello " (previous word + whitespace)
    let mut state = EditorState::new(Lines::from("Hello World"));
    state.mode = EditorMode::Insert;
    state.cursor = Index2::new(0, 6);

    DeleteWordBackward(1).execute(&mut state);
    assert_eq!(state.lines.to_string(), "World");
    assert_eq!(state.cursor, Index2::new(0, 0));
}
