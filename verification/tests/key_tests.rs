use keyboard_windows::key::key_state_is_down;
use keyboard_windows::{Key, VirtualKey};

#[test]
fn letters_and_digits_have_ascii_codes() {
    assert_eq!(Key::AKey.to_vk(), VirtualKey(0x41));
    assert_eq!(Key::ZKey.to_vk(), VirtualKey(0x5A));
    assert_eq!(Key::Numrow0Key.to_vk(), VirtualKey(0x30));
    assert_eq!(Key::Numpad9Key.to_vk(), VirtualKey(0x69));
    assert_eq!(Key::F24Key.to_vk(), VirtualKey(0x87));
    assert_eq!(Key::CapsLockKey.to_vk(), VirtualKey(0x14));
    assert_eq!(Key::EqualKey.to_vk(), VirtualKey(0xBB));
}

#[test]
fn other_key_keeps_its_code() {
    assert_eq!(Key::OtherKey(0x1234).to_vk(), VirtualKey(0x1234));
    assert_eq!(Key::from_vk(VirtualKey(0x07)), Key::OtherKey(0x07));
    assert_eq!(Key::from_vk(VirtualKey(0xFFFF)), Key::OtherKey(0xFFFF));
}

#[test]
fn named_codes_give_named_keys() {
    assert_eq!(Key::from_vk(VirtualKey(0x08)), Key::BackspaceKey);
    assert_eq!(Key::from_vk(VirtualKey(0x1B)), Key::EscapeKey);
    assert_eq!(Key::from_vk(VirtualKey(0xDE)), Key::QuoteKey);
    assert_eq!(Key::from_vk(VirtualKey(0xA5)), Key::RAltKey);
    // A code written as `OtherKey` comes back as the named key.
    assert_eq!(Key::from_vk(Key::OtherKey(0x41).to_vk()), Key::AKey);
}

#[test]
fn every_code_round_trips() {
    for code in 0..=u16::MAX {
        let key = Key::from_vk(VirtualKey(code));
        assert_eq!(key.to_vk(), VirtualKey(code));
        assert_eq!(Key::from_vk(key.to_vk()), key);
    }
}

#[test]
fn key_groups() {
    assert!(Key::Numrow5Key.is_numeric());
    assert!(Key::Numpad0Key.is_numeric());
    assert!(!Key::AKey.is_numeric());
    assert!(Key::QKey.is_alphabetic());
    assert!(!Key::F1Key.is_alphabetic());
    assert!(Key::SpaceKey.is_symbol());
    assert!(Key::BackslashKey.is_symbol());
    assert!(!Key::EnterKey.is_symbol());
    assert!(Key::Numpad3Key.is_alphanumeric());
    assert!(Key::MKey.is_alphanumeric());
    assert!(!Key::CommaKey.is_alphanumeric());
    assert!(Key::CommaKey.is_alphanumeric_symbol());
    assert!(!Key::EscapeKey.is_alphanumeric_symbol());
    assert!(!Key::OtherKey(0x41).is_alphabetic());
}

#[test]
fn groups_are_disjoint() {
    for code in 0..=0xFFu16 {
        let key = Key::from_vk(VirtualKey(code));
        let groups =
            key.is_numeric() as u8 + key.is_alphabetic() as u8 + key.is_symbol() as u8;
        assert!(groups <= 1);
    }
}

#[test]
fn key_state_high_bit() {
    assert!(key_state_is_down(-32768));
    assert!(key_state_is_down(-32767));
    assert!(key_state_is_down(-1));
    assert!(!key_state_is_down(0));
    assert!(!key_state_is_down(1));
    assert!(!key_state_is_down(32767));
}
