use edtui::events::input::KeyCode;
use edtui::events::input::KeyInput;
use edtui::events::input::Modifiers;

#[test]
fn test_normalize_altgr_symbol() {
    // Ctrl+Alt+[ should normalize to just [
    let mods = Modifiers {
        ctrl: true,
        alt: true,
        shift: false,
    };
    let input = KeyInput::with_modifiers('[', mods);
    let normalized = input.normalize_altgr();
    assert_eq!(normalized.key, KeyCode::Char('['));
    assert_eq!(normalized.modifiers, Modifiers::none());
}

#[test]
fn test_normalize_altgr_preserves_shift() {
    // Ctrl+Alt+Shift+{ should normalize to Shift+{
    let mods = Modifiers {
        ctrl: true,
        alt: true,
        shift: true,
    };
    let input = KeyInput::with_modifiers('{', mods);
    let normalized = input.normalize_altgr();
    assert_eq!(normalized.key, KeyCode::Char('{'));
    assert_eq!(normalized.modifiers, Modifiers::shift());
}

#[test]
fn test_normalize_altgr_keeps_letter_keybindings() {
    // Alt+f should NOT be normalized (it's a keybinding)
    let input = KeyInput::alt('f');
    let normalized = input.normalize_altgr();
    assert_eq!(normalized.modifiers, Modifiers::alt());
}

#[test]
fn test_normalize_altgr_keeps_ctrl_alt_letter() {
    // Ctrl+Alt+b should NOT be normalized (it's a keybinding)
    let mods = Modifiers {
        ctrl: true,
        alt: true,
        shift: false,
    };
    let input = KeyInput::with_modifiers('b', mods);
    let normalized = input.normalize_altgr();
    assert!(normalized.modifiers.ctrl);
    assert!(normalized.modifiers.alt);
}
