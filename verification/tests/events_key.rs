use edtui::mode::EditorMode;
use edtui::state::EditorState;
use edtui::index::Index2;
use edtui::events::input::KeyCode;
use edtui::events::deprecated::KeyEvent;
use edtui::events::key::KeyEventHandler;
use edtui::events::key::KeyEventRegister;
use edtui::events::input::KeyInput;
use edtui::lines::Lines;
use edtui::events::input::Modifiers;

#[test]
#[allow(deprecated)]
fn test_key_event_register_with_key_event() {
    let register = KeyEventRegister::n(vec![KeyEvent::Ctrl('a'), KeyEvent::Char('b')]);
    assert_eq!(register.mode, EditorMode::Normal);
    assert_eq!(register.keys.len(), 2);

    assert_eq!(register.keys[0], KeyInput::ctrl('a'));
    assert_eq!(register.keys[1], KeyInput::new('b'));
}

#[test]
fn test_key_event_register_with_key_input() {
    let register = KeyEventRegister::i(vec![KeyInput::ctrl('a'), KeyInput::new('b')]);
    assert_eq!(register.mode, EditorMode::Insert);
    assert_eq!(register.keys.len(), 2);

    assert_eq!(register.keys[0], KeyInput::ctrl('a'));
    assert_eq!(register.keys[1], KeyInput::new('b'));
}

#[test]
fn test_key_event_register_with_crossterm() {

    // a terminal's Ctrl+a, as the key input it converts to
    let key_input = KeyInput::with_modifiers('a', Modifiers::control());

    let register = KeyEventRegister::v(vec![key_input, KeyInput::new(KeyCode::Enter)]);
    assert_eq!(register.mode, EditorMode::Visual);
    assert_eq!(register.keys.len(), 2);

    assert_eq!(register.keys[0], KeyInput::ctrl('a'));
    assert_eq!(register.keys[1], KeyInput::new(KeyCode::Enter));
}

#[test]
fn test_insert_hello_world() {
    let mut state = EditorState::default();
    state.mode = EditorMode::Insert;

    let mut handler = KeyEventHandler::default();

    let inputs = vec![
        KeyInput::shift('H'),
        KeyInput::new('e'),
        KeyInput::new('l'),
        KeyInput::new('l'),
        KeyInput::new('o'),
        KeyInput::new(' '),
        KeyInput::shift('W'),
        KeyInput::new('o'),
        KeyInput::new('r'),
        KeyInput::new('l'),
        KeyInput::new('d'),
        KeyInput::shift('!'),
        KeyInput::new(KeyCode::Enter),
        KeyInput::shift('H'),
        KeyInput::new('i'),
        KeyInput::shift('!'),
    ];

    for input in inputs {
        handler.on_event(input, &mut state);
    }

    assert_eq!(state.lines.to_string(), String::from("Hello World!\nHi!"));
}

#[test]
fn test_dot_repeats_last_change() {
    let mut state = EditorState::new(Lines::from("aaaa"));
    let mut handler = KeyEventHandler::default();
    state.cursor = Index2::new(0, 0);

    // `x` deletes one character, `.` repeats it twice more.
    handler.on_event(KeyInput::new('x'), &mut state);
    handler.on_event(KeyInput::new('.'), &mut state);
    handler.on_event(KeyInput::new('.'), &mut state);
    assert_eq!(state.lines.to_string(), "a");
}

#[test]
fn test_dot_repeats_multikey_change() {
    let mut state = EditorState::new(Lines::from("one two three"));
    let mut handler = KeyEventHandler::default();
    state.cursor = Index2::new(0, 0);

    // `dw` deletes a word forward; `.` repeats the whole multi-key command.
    handler.on_event(KeyInput::new('d'), &mut state);
    handler.on_event(KeyInput::new('w'), &mut state);
    assert_eq!(state.lines.to_string(), "two three");

    handler.on_event(KeyInput::new('.'), &mut state);
    assert_eq!(state.lines.to_string(), "three");
}

#[test]
fn test_dot_is_noop_without_prior_change() {
    let mut state = EditorState::new(Lines::from("hello"));
    let mut handler = KeyEventHandler::default();

    // Motions are not changes, so `.` has nothing to repeat.
    handler.on_event(KeyInput::new('l'), &mut state);
    handler.on_event(KeyInput::new('.'), &mut state);
    assert_eq!(state.lines.to_string(), "hello");
}

#[test]
fn test_dot_repeats_change_inner_word() {
    let mut state = EditorState::new(Lines::from("foo bar baz"));
    let mut handler = KeyEventHandler::default();
    state.cursor = Index2::new(0, 0);

    // `ciw` changes the inner word, then we type replacement text and Esc.
    handler.on_event(KeyInput::new('c'), &mut state);
    handler.on_event(KeyInput::new('i'), &mut state);
    handler.on_event(KeyInput::new('w'), &mut state);
    handler.on_event(KeyInput::new('x'), &mut state);
    handler.on_event(KeyInput::new('y'), &mut state);
    handler.on_event(KeyInput::new(KeyCode::Esc), &mut state);
    assert_eq!(state.lines.to_string(), "xy bar baz");
    assert_eq!(state.mode, EditorMode::Normal);
    // Cursor rests on the last inserted character (Vim-style), not after it.
    assert_eq!(state.cursor, Index2::new(0, 1));

    // Move onto the next word and repeat the whole change with `.`.
    handler.on_event(KeyInput::new('w'), &mut state);
    handler.on_event(KeyInput::new('.'), &mut state);
    assert_eq!(state.lines.to_string(), "xy xy baz");
    assert_eq!(state.mode, EditorMode::Normal);
    // Mid-line too, the cursor lands on the last inserted character (the
    // second `y`), not on the trailing space after the word.
    assert_eq!(state.cursor, Index2::new(0, 4));
}

#[test]
fn test_dot_repeats_insert_session() {
    let mut state = EditorState::new(Lines::from("ab"));
    let mut handler = KeyEventHandler::default();
    state.cursor = Index2::new(0, 0);

    // `i` opens an insert session; type `X` and leave with Esc.
    handler.on_event(KeyInput::new('i'), &mut state);
    handler.on_event(KeyInput::new('X'), &mut state);
    handler.on_event(KeyInput::new(KeyCode::Esc), &mut state);
    assert_eq!(state.lines.to_string(), "Xab");
    assert_eq!(state.mode, EditorMode::Normal);

    // `.` replays the whole insert session at the cursor.
    handler.on_event(KeyInput::new('.'), &mut state);
    assert_eq!(state.lines.to_string(), "XXab");
    assert_eq!(state.mode, EditorMode::Normal);
}

#[test]
fn test_dot_repeats_change_word() {
    let mut state = EditorState::new(Lines::from("one two three"));
    let mut handler = KeyEventHandler::default();
    state.cursor = Index2::new(0, 0);

    // `cw` changes the word under the cursor; type `X` and leave insert.
    handler.on_event(KeyInput::new('c'), &mut state);
    handler.on_event(KeyInput::new('w'), &mut state);
    handler.on_event(KeyInput::new('X'), &mut state);
    handler.on_event(KeyInput::new(KeyCode::Esc), &mut state);
    assert_eq!(state.lines.to_string(), "X two three");

    // Put the cursor on the next word and repeat the change with `.`.
    state.cursor = Index2::new(0, 2);
    handler.on_event(KeyInput::new('.'), &mut state);
    assert_eq!(state.lines.to_string(), "X X three");
    assert_eq!(state.mode, EditorMode::Normal);
}

#[test]
fn test_dot_repeats_open_line() {
    let mut state = EditorState::new(Lines::from("a\nb"));
    let mut handler = KeyEventHandler::default();
    state.cursor = Index2::new(0, 0);

    // `o` opens a line below and enters insert; type `X` and leave.
    handler.on_event(KeyInput::new('o'), &mut state);
    handler.on_event(KeyInput::new('X'), &mut state);
    handler.on_event(KeyInput::new(KeyCode::Esc), &mut state);
    assert_eq!(state.lines.to_string(), "a\nX\nb");

    // `.` opens another line below the current one and replays the text.
    handler.on_event(KeyInput::new('.'), &mut state);
    assert_eq!(state.lines.to_string(), "a\nX\nX\nb");
    assert_eq!(state.mode, EditorMode::Normal);
}

#[test]
fn test_dot_repeats_delete_line() {
    let mut state = EditorState::new(Lines::from("a\nb\nc\nd"));
    let mut handler = KeyEventHandler::default();
    state.cursor = Index2::new(0, 0);

    // `dd` deletes the current line; `.` repeats it.
    handler.on_event(KeyInput::new('d'), &mut state);
    handler.on_event(KeyInput::new('d'), &mut state);
    assert_eq!(state.lines.to_string(), "b\nc\nd");

    handler.on_event(KeyInput::new('.'), &mut state);
    assert_eq!(state.lines.to_string(), "c\nd");
}

#[test]
fn test_altgr_normalization_inserts_characters() {
    let mut state = EditorState::default();
    state.mode = EditorMode::Insert;

    let mut handler = KeyEventHandler::emacs_mode();

    // Simulate AltGr+[ (reported as Ctrl+Alt+[ on international keyboards)
    let altgr_bracket = KeyInput::with_modifiers('[', Modifiers { ctrl: true, alt: true, shift: false });
    handler.on_event(altgr_bracket, &mut state);

    // Simulate AltGr+]
    let altgr_bracket_close = KeyInput::with_modifiers(']', Modifiers { ctrl: true, alt: true, shift: false });
    handler.on_event(altgr_bracket_close, &mut state);

    // Simulate AltGr+{ (with shift)
    let altgr_brace = KeyInput::with_modifiers('{', Modifiers { ctrl: true, alt: true, shift: true });
    handler.on_event(altgr_brace, &mut state);

    // Simulate AltGr+}
    let altgr_brace_close = KeyInput::with_modifiers('}', Modifiers { ctrl: true, alt: true, shift: true });
    handler.on_event(altgr_brace_close, &mut state);

    assert_eq!(state.lines.to_string(), "[]{}");
}

#[test]
fn test_altgr_does_not_affect_letter_keybindings() {
    let mut state = EditorState::new(Lines::from("Hello World"));
    state.mode = EditorMode::Insert;

    let mut handler = KeyEventHandler::emacs_mode();

    // Alt+f should move forward word, not insert 'f'
    let alt_f = KeyInput::alt('f');
    handler.on_event(alt_f, &mut state);

    // Cursor should have moved to position 6 ('W'), not inserted 'f'
    assert_eq!(state.cursor.col, 6);
    assert_eq!(state.lines.to_string(), "Hello World");
}
