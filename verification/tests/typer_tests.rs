use keyboard_windows::typer::{TyperAction, TyperContext};
use keyboard_windows::Key;

#[test]
fn types_one_character_per_letter_key() {
    let mut t = TyperContext::new();
    t.load("Hi!");
    assert_eq!(t.on_keypress(Key::AKey, false), TyperAction::Type { ch: 'H', finished: false });
    assert_eq!(t.on_keypress(Key::Numrow1Key, false), TyperAction::Type { ch: 'i', finished: false });
    assert_eq!(t.on_keypress(Key::SpaceKey, false), TyperAction::Type { ch: '!', finished: true });
    assert_eq!(t.on_keypress(Key::AKey, false), TyperAction::PassThrough);
}

#[test]
fn other_presses_pass() {
    let mut t = TyperContext::new();
    assert_eq!(t.on_keypress(Key::AKey, false), TyperAction::PassThrough);
    t.load("ab");
    assert_eq!(t.on_keypress(Key::AKey, true), TyperAction::PassThrough);
    assert_eq!(t.on_keypress(Key::EnterKey, false), TyperAction::PassThrough);
    assert_eq!(t.on_keypress(Key::F1Key, false), TyperAction::PassThrough);
    assert_eq!(t.on_keypress(Key::CKey, false), TyperAction::Type { ch: 'a', finished: false });
    assert!(TyperAction::Cancel.swallows());
    assert!(!TyperAction::PassThrough.swallows());
}

#[test]
fn escape_cancels() {
    let mut t = TyperContext::new();
    t.load("żółw");
    assert_eq!(t.on_keypress(Key::ZKey, false), TyperAction::Type { ch: 'ż', finished: false });
    assert_eq!(t.on_keypress(Key::EscapeKey, false), TyperAction::Cancel);
    assert_eq!(t.on_keypress(Key::EscapeKey, false), TyperAction::PassThrough);
    assert_eq!(t.on_keypress(Key::ZKey, false), TyperAction::PassThrough);
    t.load("x");
    assert_eq!(t.on_keypress(Key::EscapeKey, true), TyperAction::Cancel);
}

#[test]
fn typing_presses_replay_the_text() {
    let mut t = TyperContext::new();
    t.load("abc");
    let presses = [Key::AKey, Key::Numpad1Key, Key::CommaKey, Key::SpaceKey];
    let typed: String = presses
        .iter()
        .filter_map(|k| match t.on_keypress(*k, false) {
            TyperAction::Type { ch, .. } => Some(ch),
            _ => None,
        })
        .collect();
    assert_eq!(typed, "abc");
}
