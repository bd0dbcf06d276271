use sport_helper::component::TerminalEvent;
use sport_helper::event_dispatcher::{classify_key, classify_term_event, Callback, KeyEvent};

fn is(callback: Option<Callback>, wanted: &str) -> bool {
    let got = match callback {
        None => "none",
        Some(Callback::Backspace) => "backspace",
        Some(Callback::Enter) => "enter",
        Some(Callback::Tab) => "tab",
        Some(Callback::BackTab) => "back_tab",
        Some(Callback::Char(_)) => "char",
        Some(Callback::Esc) => "esc",
        Some(Callback::Left) => "left",
        Some(Callback::Right) => "right",
        Some(Callback::Up) => "up",
        Some(Callback::Down) => "down",
        Some(Callback::Home) => "home",
        Some(Callback::End) => "end",
        Some(Callback::PageUp) => "page_up",
        Some(Callback::PageDown) => "page_down",
        Some(Callback::Delete) => "delete",
        Some(Callback::Insert) => "insert",
        Some(Callback::Null) => "null",
        Some(Callback::CapsLock) => "caps_lock",
        Some(Callback::ScrollLock) => "scroll_lock",
        Some(Callback::NumLock) => "num_lock",
        Some(Callback::PrintScreen) => "print_screen",
        Some(Callback::Pause) => "pause",
        Some(Callback::Menu) => "menu",
        Some(Callback::KeypadBegin) => "keypad_begin",
        Some(Callback::Paste(_)) => "paste",
        Some(Callback::MenuSwitched(_)) => "menu_switched",
    };
    got == wanted
}

#[test]
fn every_key_has_its_own_callback() {
    assert!(is(classify_key(&KeyEvent::Backspace), "backspace"));
    assert!(is(classify_key(&KeyEvent::Enter), "enter"));
    assert!(is(classify_key(&KeyEvent::Tab), "tab"));
    assert!(is(classify_key(&KeyEvent::BackTab), "back_tab"));
    assert!(is(classify_key(&KeyEvent::Esc), "esc"));
    assert!(is(classify_key(&KeyEvent::Left), "left"));
    assert!(is(classify_key(&KeyEvent::Right), "right"));
    assert!(is(classify_key(&KeyEvent::Up), "up"));
    assert!(is(classify_key(&KeyEvent::Down), "down"));
    assert!(is(classify_key(&KeyEvent::Home), "home"));
    assert!(is(classify_key(&KeyEvent::End), "end"));
    assert!(is(classify_key(&KeyEvent::PageUp), "page_up"));
    assert!(is(classify_key(&KeyEvent::PageDown), "page_down"));
    assert!(is(classify_key(&KeyEvent::Delete), "delete"));
    assert!(is(classify_key(&KeyEvent::Insert), "insert"));
    assert!(is(classify_key(&KeyEvent::Null), "null"));
    assert!(is(classify_key(&KeyEvent::CapsLock), "caps_lock"));
    assert!(is(classify_key(&KeyEvent::ScrollLock), "scroll_lock"));
    assert!(is(classify_key(&KeyEvent::NumLock), "num_lock"));
    assert!(is(classify_key(&KeyEvent::PrintScreen), "print_screen"));
    assert!(is(classify_key(&KeyEvent::Pause), "pause"));
    assert!(is(classify_key(&KeyEvent::Menu), "menu"));
    assert!(is(classify_key(&KeyEvent::KeypadBegin), "keypad_begin"));
}

#[test]
fn a_character_key_carries_its_character() {
    match classify_key(&KeyEvent::Char('x')) {
        Some(Callback::Char(c)) => assert_eq!(c, 'x'),
        _ => panic!("a character key maps to the character callback"),
    }
}

#[test]
fn function_media_and_modifier_keys_have_no_callback() {
    assert!(is(classify_key(&KeyEvent::F(1)), "none"));
    assert!(is(classify_key(&KeyEvent::F(12)), "none"));
    assert!(is(classify_key(&KeyEvent::Media), "none"));
    assert!(is(classify_key(&KeyEvent::Modifier), "none"));
}

#[test]
fn a_paste_carries_its_text() {
    match classify_term_event(&TerminalEvent::Paste(String::from("hello"))) {
        Some(Callback::Paste(text)) => assert_eq!(text, "hello"),
        _ => panic!("a paste maps to the paste callback"),
    }
}

#[test]
fn a_key_event_goes_by_its_key() {
    assert!(is(classify_term_event(&TerminalEvent::Key(KeyEvent::Esc)), "esc"));
    assert!(is(classify_term_event(&TerminalEvent::Key(KeyEvent::F(5))), "none"));
}

#[test]
fn focus_pointer_and_resize_events_have_no_callback() {
    assert!(is(classify_term_event(&TerminalEvent::FocusGained), "none"));
    assert!(is(classify_term_event(&TerminalEvent::FocusLost), "none"));
    assert!(is(classify_term_event(&TerminalEvent::Mouse), "none"));
    assert!(is(classify_term_event(&TerminalEvent::Resize(80, 24)), "none"));
}
