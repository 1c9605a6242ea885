use edtui::clipboard::InternalClipboard;
use edtui::events::deprecated::{key_event_from_terminal, KeyEvent};
use edtui::events::input::{KeyCode, Modifiers};
use edtui::events::mouse::{find_cursor_column_in_wrapped_line, MouseEvent, MouseEventHandler, MousePosition};
use edtui::events::{EditorEventHandler, Event};
use edtui::index::Index2;
use edtui::lines::Lines;
use edtui::mode::EditorMode;
use edtui::selection::Selection;
use edtui::state::EditorState;
use edtui::view::Area;

fn state_on_screen(text: &str) -> EditorState {
    let mut state = EditorState::new(Lines::from(text));
    state.view.screen_area = Area { x: 2, y: 1, width: 10, height: 5 };
    state
}

#[test]
fn mouse_click_places_cursor() {
    let mut state = state_on_screen("Hello\nWorld!");
    MouseEventHandler::on_event(MouseEvent::Down(MousePosition::new(2, 5)), &mut state);
    assert_eq!(state.cursor, Index2::new(1, 3));
    assert_eq!(state.selection, None);
}

#[test]
fn mouse_click_outside_text_is_clamped() {
    let mut state = state_on_screen("Hello\nWorld!");
    // past the last row: the end of the last row
    MouseEventHandler::on_event(MouseEvent::Down(MousePosition::new(9, 3)), &mut state);
    assert_eq!(state.cursor, Index2::new(1, 5));
    // past the end of a row: its last column
    MouseEventHandler::on_event(MouseEvent::Up(MousePosition::new(1, 40)), &mut state);
    assert_eq!(state.cursor, Index2::new(0, 4));
    // left of and above the text area: the start of the text
    MouseEventHandler::on_event(MouseEvent::Up(MousePosition::new(0, 0)), &mut state);
    assert_eq!(state.cursor, Index2::new(0, 0));
}

#[test]
fn mouse_drag_selects() {
    let mut state = state_on_screen("Hello\nWorld!");
    MouseEventHandler::on_event(MouseEvent::Down(MousePosition::new(1, 3)), &mut state);
    MouseEventHandler::on_event(MouseEvent::Drag(MousePosition::new(2, 4)), &mut state);
    assert_eq!(state.mode, EditorMode::Visual);
    assert_eq!(state.cursor, Index2::new(1, 2));
    assert_eq!(state.selection, Some(Selection::new(Index2::new(0, 1), Index2::new(1, 2))));
    // a press leaves visual mode and drops the selection
    MouseEventHandler::on_event(MouseEvent::Down(MousePosition::new(1, 2)), &mut state);
    assert_eq!(state.mode, EditorMode::Normal);
    assert_eq!(state.selection, None);
    assert_eq!(state.cursor, Index2::new(0, 0));
}

#[test]
fn ignored_mouse_event_changes_nothing() {
    let mut state = state_on_screen("Hello");
    state.cursor = Index2::new(0, 3);
    MouseEventHandler::on_event(MouseEvent::Ignored, &mut state);
    assert_eq!(state.cursor, Index2::new(0, 3));
}

#[test]
fn mouse_click_with_wrapped_rows() {
    let mut state = state_on_screen("abcdefghijklm\nxy");
    state.view.screen_area = Area { x: 0, y: 0, width: 5, height: 10 };
    state.view.wrap = true;
    // the first row takes three screen rows (5 + 5 + 3 characters)
    MouseEventHandler::on_event(MouseEvent::Down(MousePosition::new(1, 2)), &mut state);
    assert_eq!(state.cursor, Index2::new(0, 7));
    MouseEventHandler::on_event(MouseEvent::Down(MousePosition::new(3, 1)), &mut state);
    assert_eq!(state.cursor, Index2::new(1, 1));
}

#[test]
fn column_in_wrapped_line() {
    let rows = vec![vec!['a', 'b', 'c'], vec!['d', 'e']];
    assert_eq!(find_cursor_column_in_wrapped_line(&rows, &Index2::new(1, 1), 0), 4);
    assert_eq!(find_cursor_column_in_wrapped_line(&rows, &Index2::new(0, 9), 0), 3);
    assert_eq!(find_cursor_column_in_wrapped_line(&rows, &Index2::new(5, 0), 0), 0);
}

#[test]
fn paste_event_pastes_in_normal_mode() {
    let mut state = EditorState::new(Lines::from("ab"));
    state.set_clipboard(InternalClipboard::default());
    let handler = EditorEventHandler::default();
    handler.on_paste_event(String::from("XY"), &mut state);
    assert_eq!(state.lines, Lines::from("aXYb"));
}

#[test]
fn paste_event_replaces_selection_in_visual_mode() {
    let mut state = EditorState::new(Lines::from("Hello World"));
    state.set_clipboard(InternalClipboard::default());
    state.mode = EditorMode::Visual;
    state.selection = Some(Selection::new(Index2::new(0, 6), Index2::new(0, 10)));
    let mut handler = EditorEventHandler::default();
    handler.on_event(Event::Paste(String::from("Earth")), &mut state);
    assert_eq!(state.lines, Lines::from("Hello Earth"));
}

#[test]
fn paste_event_is_ignored_in_search_mode() {
    let mut state = EditorState::new(Lines::from("ab"));
    state.set_clipboard(InternalClipboard::default());
    state.mode = EditorMode::Search;
    let mut handler = EditorEventHandler::default();
    handler.on_event(Event::Paste(String::from("XY")), &mut state);
    assert_eq!(state.lines, Lines::from("ab"));
}

#[test]
fn key_event_through_editor_handler() {
    let mut state = EditorState::new(Lines::from("abc"));
    let mut handler = EditorEventHandler::vim_mode();
    handler.on_event(Event::Key(KeyEvent::Char('x')), &mut state);
    assert_eq!(state.lines, Lines::from("bc"));
    handler.on_event(Event::Ignored, &mut state);
    assert_eq!(state.lines, Lines::from("bc"));
}

#[test]
fn terminal_keys_as_key_events() {
    let none = Modifiers::none();
    assert_eq!(key_event_from_terminal(Some(KeyCode::Char('a')), none), KeyEvent::Char('a'));
    assert_eq!(key_event_from_terminal(Some(KeyCode::Char('a')), Modifiers::control()), KeyEvent::Ctrl('a'));
    assert_eq!(key_event_from_terminal(Some(KeyCode::Enter), Modifiers::control()), KeyEvent::Ignored);
    assert_eq!(key_event_from_terminal(Some(KeyCode::Char('f')), Modifiers::alt()), KeyEvent::Alt('f'));
    assert_eq!(key_event_from_terminal(Some(KeyCode::Backspace), Modifiers::alt()), KeyEvent::Alt('\x08'));
    assert_eq!(key_event_from_terminal(Some(KeyCode::Esc), none), KeyEvent::Esc);
    assert_eq!(key_event_from_terminal(Some(KeyCode::PageUp), none), KeyEvent::Ignored);
    assert_eq!(key_event_from_terminal(None, none), KeyEvent::Ignored);
}

#[test]
fn vim_r_redoes() {
    use_redo_key(edtui::events::input::KeyInput::new('r'));
    use_redo_key(edtui::events::input::KeyInput::ctrl('r'));
}

fn use_redo_key(redo: edtui::events::input::KeyInput) {
    let mut state = EditorState::new(Lines::from("abc"));
    let mut handler = edtui::events::key::KeyEventHandler::vim_mode();
    handler.on_event(edtui::events::input::KeyInput::new('x'), &mut state);
    assert_eq!(state.lines, Lines::from("bc"));
    handler.on_event(edtui::events::input::KeyInput::new('u'), &mut state);
    assert_eq!(state.lines, Lines::from("abc"));
    handler.on_event(redo, &mut state);
    assert_eq!(state.lines, Lines::from("bc"));
}

#[test]
fn emacs_alt_less_goes_to_beginning_of_buffer() {
    let mut handler = edtui::events::key::KeyEventHandler::emacs_mode();
    let mut state = EditorState::new(Lines::from("a\nb"));
    state.mode = EditorMode::Insert;
    state.cursor = Index2::new(1, 1);
    handler.on_event(edtui::events::input::KeyInput::alt('<'), &mut state);
    assert_eq!(state.cursor.row, 0);
    assert_eq!(state.lines.to_string(), "a\nb");
}
