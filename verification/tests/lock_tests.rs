use xarph_sdk::lock_screen::{LockAction, LockKey, LockScreen};

#[test]
fn typing_and_entering_asks_for_authentication() {
    let mut s = LockScreen::new();
    assert!(matches!(s.press_key(LockKey::Enter, None), LockAction::Nothing));
    assert!(matches!(s.press_key(LockKey::Other, Some("se")), LockAction::Redraw));
    assert!(matches!(s.press_key(LockKey::Other, Some("cr3t")), LockAction::Redraw));
    match s.press_key(LockKey::Enter, None) {
        LockAction::Authenticate(p) => assert_eq!(p, "secr3t"),
        other => panic!("unexpected {:?}", other),
    }
    assert!(matches!(s.finish_authentication(true), LockAction::Unlock));
    assert!(s.authenticated);
}

#[test]
fn a_wrong_password_is_cleared_with_a_message() {
    let mut s = LockScreen::new();
    s.press_key(LockKey::Other, Some("nope"));
    assert!(matches!(s.finish_authentication(false), LockAction::Redraw));
    assert_eq!(s.password, "");
    assert_eq!(s.error_message.as_deref(), Some("Incorrect password"));
    assert!(!s.authenticated);
    s.press_key(LockKey::Other, Some("a"));
    assert_eq!(s.error_message, None);
}

#[test]
fn backspace_and_escape() {
    let mut s = LockScreen::new();
    s.press_key(LockKey::Other, Some("abé"));
    assert!(matches!(s.press_key(LockKey::BackSpace, None), LockAction::Redraw));
    assert_eq!(s.password, "ab");
    s.press_key(LockKey::Escape, None);
    assert_eq!(s.password, "");
    assert!(matches!(s.press_key(LockKey::BackSpace, None), LockAction::Redraw));
    assert_eq!(s.password, "");
}

#[test]
fn control_text_and_empty_text_are_ignored() {
    let mut s = LockScreen::new();
    assert!(matches!(s.press_key(LockKey::Other, Some("\u{8}")), LockAction::Nothing));
    assert!(matches!(s.press_key(LockKey::Other, Some("")), LockAction::Nothing));
    assert!(matches!(s.press_key(LockKey::Other, Some("a\tb")), LockAction::Nothing));
    assert!(matches!(s.press_key(LockKey::Other, None), LockAction::Nothing));
    assert_eq!(s.password, "");
}

#[test]
fn the_mask_has_one_star_per_byte() {
    let mut s = LockScreen::new();
    assert_eq!(s.password_mask(), "");
    s.press_key(LockKey::Other, Some("aé€😀"));
    assert_eq!(s.password_mask(), "*".repeat(1 + 2 + 3 + 4));
}
