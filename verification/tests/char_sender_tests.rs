use keyboard_windows::char_sender::{
    keyboard_event, keystroke_plan_for, keystrokes_for, lookup_key_mapping, InputRequest,
    KEYEVENTF_KEYUP,
};
use keyboard_windows::handler::MAGIC_CONST;
use keyboard_windows::{CharSender, Key};

#[test]
fn press_and_release_requests() {
    assert_eq!(
        CharSender::press_key(Key::AKey, false),
        InputRequest { key: Key::AKey, release: false, extra: 0 }
    );
    assert_eq!(
        CharSender::press_key(Key::AKey, true),
        InputRequest { key: Key::AKey, release: false, extra: MAGIC_CONST }
    );
    assert_eq!(
        CharSender::release_key(Key::LShiftKey, true),
        InputRequest { key: Key::LShiftKey, release: true, extra: MAGIC_CONST }
    );
    assert_eq!(
        CharSender::release_key(Key::LShiftKey, false),
        InputRequest { key: Key::LShiftKey, release: true, extra: 0 }
    );
    assert_eq!(MAGIC_CONST, 0x8007f00000000000);
}

#[test]
fn key_table() {
    assert_eq!(lookup_key_mapping('a'), Some(vec![Key::AKey]));
    assert_eq!(lookup_key_mapping('7'), Some(vec![Key::Numrow7Key]));
    assert_eq!(lookup_key_mapping('ź'), Some(vec![Key::RAltKey, Key::XKey]));
    assert_eq!(lookup_key_mapping('?'), Some(vec![Key::LShiftKey, Key::SlashKey]));
    assert_eq!(lookup_key_mapping('\n'), Some(vec![Key::EnterKey]));
    assert_eq!(lookup_key_mapping('\''), Some(vec![Key::QuoteKey]));
    assert_eq!(lookup_key_mapping('~'), Some(vec![]));
    assert_eq!(lookup_key_mapping('A'), None);
    assert_eq!(lookup_key_mapping('€'), None);
}

#[test]
fn keystrokes_add_shift_for_upper_case() {
    assert_eq!(keystrokes_for('B', 'b'), Some(vec![Key::LShiftKey, Key::BKey]));
    assert_eq!(keystrokes_for('b', 'b'), Some(vec![Key::BKey]));
    assert_eq!(keystrokes_for('x', 'y'), Some(vec![Key::LShiftKey, Key::YKey]));
    assert_eq!(keystrokes_for('€', '€'), None);
}

#[test]
fn keystrokes_use_the_lowercase_form() {
    assert_eq!(CharSender::keystrokes('a'), Some(vec![Key::AKey]));
    assert_eq!(CharSender::keystrokes('Q'), Some(vec![Key::LShiftKey, Key::QKey]));
    assert_eq!(
        CharSender::keystrokes('Ł'),
        Some(vec![Key::LShiftKey, Key::RAltKey, Key::LKey])
    );
    assert_eq!(CharSender::keystrokes('ł'), Some(vec![Key::RAltKey, Key::LKey]));
    assert_eq!(CharSender::keystrokes('!'), Some(vec![Key::LShiftKey, Key::Numrow1Key]));
    assert_eq!(CharSender::keystrokes(' '), Some(vec![Key::SpaceKey]));
    assert_eq!(CharSender::keystrokes('~'), Some(vec![]));
    assert_eq!(CharSender::keystrokes('Ж'), None);
}

#[test]
fn send_char_plan() {
    let plan = CharSender::send_char('E', true).unwrap();
    assert_eq!(
        plan.presses,
        vec![
            InputRequest { key: Key::LShiftKey, release: false, extra: MAGIC_CONST },
            InputRequest { key: Key::EKey, release: false, extra: MAGIC_CONST },
        ]
    );
    assert_eq!(
        plan.releases,
        vec![
            InputRequest { key: Key::LShiftKey, release: true, extra: MAGIC_CONST },
            InputRequest { key: Key::EKey, release: true, extra: MAGIC_CONST },
        ]
    );
    let plan = CharSender::send_char('~', false).unwrap();
    assert!(plan.presses.is_empty() && plan.releases.is_empty());
    assert!(CharSender::send_char('€', false).is_none());
}

#[test]
fn keyboard_events() {
    let press = keyboard_event(&CharSender::press_key(Key::AKey, true));
    assert_eq!((press.vk, press.flags, press.extra), (0x41, 0, MAGIC_CONST));
    let release = keyboard_event(&CharSender::release_key(Key::EnterKey, false));
    assert_eq!((release.vk, release.flags, release.extra), (0x0D, KEYEVENTF_KEYUP, 0));
    assert_eq!(KEYEVENTF_KEYUP, 2);
}

#[test]
fn plan_from_the_lowercase_form() {
    let plan = keystroke_plan_for('Ś', 'ś', false).unwrap();
    let keys: Vec<Key> = plan.presses.iter().map(|r| r.key).collect();
    assert_eq!(keys, vec![Key::LShiftKey, Key::RAltKey, Key::SKey]);
    assert!(plan.presses.iter().all(|r| !r.release && r.extra == 0));
    assert!(plan.releases.iter().all(|r| r.release && r.extra == 0));
    let keys: Vec<Key> = plan.releases.iter().map(|r| r.key).collect();
    assert_eq!(keys, vec![Key::LShiftKey, Key::RAltKey, Key::SKey]);
    assert!(keystroke_plan_for('€', '€', true).is_none());
    let plan = CharSender::send_char('Ż', false).unwrap();
    let keys: Vec<Key> = plan.presses.iter().map(|r| r.key).collect();
    assert_eq!(keys, vec![Key::LShiftKey, Key::RAltKey, Key::ZKey]);
}
