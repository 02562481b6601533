use keyboard_windows::handler::{
    hook_may_inspect, hook_swallows, hotkey_fires, is_trigger, keydown_from_hook,
    message_loop_step, HotkeyTable, MessageLoopStep, MAGIC_CONST, WM_KEYDOWN,
};
use keyboard_windows::{CharSender, Key};

#[test]
fn hook_inspects_only_actions_with_an_event() {
    assert!(hook_may_inspect(0, false));
    assert!(!hook_may_inspect(0, true));
    assert!(!hook_may_inspect(3, false));
    assert!(!hook_may_inspect(-1, false));
}

#[test]
fn keydown_events() {
    assert_eq!(keydown_from_hook(0, WM_KEYDOWN, 0x41), Some(Key::AKey));
    assert_eq!(keydown_from_hook(5, WM_KEYDOWN, 0x07), Some(Key::OtherKey(7)));
    assert_eq!(keydown_from_hook(MAGIC_CONST, WM_KEYDOWN, 0x41), None);
    assert_eq!(keydown_from_hook(0, 0x0101, 0x41), None);
    assert_eq!(keydown_from_hook(0, WM_KEYDOWN, 0x10000), None);
    assert_eq!(keydown_from_hook(0, WM_KEYDOWN, 0xFFFF), Some(Key::OtherKey(0xFFFF)));
}

#[test]
fn own_input_passes_the_hook() {
    let request = CharSender::press_key(Key::BKey, true);
    assert_eq!(keydown_from_hook(request.extra, WM_KEYDOWN, 0x42), None);
    let request = CharSender::press_key(Key::BKey, false);
    assert_eq!(keydown_from_hook(request.extra, WM_KEYDOWN, 0x42), Some(Key::BKey));
}

#[test]
fn hotkeys_fire_on_their_last_key_with_the_others_held() {
    let keys = vec![Key::LControlKey, Key::PeriodKey];
    assert!(is_trigger(&keys, Key::PeriodKey));
    assert!(!is_trigger(&keys, Key::LControlKey));
    assert!(hotkey_fires(&keys, Key::PeriodKey, &vec![true]));
    assert!(!hotkey_fires(&keys, Key::PeriodKey, &vec![false]));
    assert!(!hotkey_fires(&keys, Key::CommaKey, &vec![true]));
    assert!(!hotkey_fires(&keys, Key::PeriodKey, &vec![]));
    assert!(hotkey_fires(&vec![Key::F5Key], Key::F5Key, &vec![]));
    assert!(!hotkey_fires(&vec![], Key::F5Key, &vec![]));
    assert!(!is_trigger(&vec![], Key::F5Key));
    let three = vec![Key::LControlKey, Key::LShiftKey, Key::AKey];
    assert!(hotkey_fires(&three, Key::AKey, &vec![true, true]));
    assert!(!hotkey_fires(&three, Key::AKey, &vec![true, false]));
}

#[test]
fn hotkey_table_skips_empty_hotkeys() {
    let mut table = HotkeyTable::new();
    assert_eq!(table.len(), 0);
    assert!(table.add_hotkey(&[Key::LControlKey, Key::SemicolonKey]));
    assert!(!table.add_hotkey(&[]));
    assert!(table.add_hotkey(&[Key::F1Key]));
    assert_eq!(table.len(), 2);
    assert_eq!(table.keys(0), &vec![Key::LControlKey, Key::SemicolonKey]);
    assert_eq!(table.keys(1), &vec![Key::F1Key]);
}

#[test]
fn hook_swallows_when_any_answer_is_true() {
    assert!(!hook_swallows(&vec![], None));
    assert!(!hook_swallows(&vec![false, false], Some(false)));
    assert!(hook_swallows(&vec![false, true], None));
    assert!(hook_swallows(&vec![], Some(true)));
    assert!(hook_swallows(&vec![true], Some(false)));
}

#[test]
fn firing_hotkeys_in_table_order() {
    let mut table = HotkeyTable::new();
    table.add_hotkey(&[Key::LControlKey, Key::PeriodKey]);
    table.add_hotkey(&[Key::F2Key]);
    table.add_hotkey(&[Key::LShiftKey, Key::PeriodKey]);
    table.add_hotkey(&[Key::PeriodKey]);
    let down = vec![vec![true], vec![], vec![false], vec![]];
    assert_eq!(table.firing_hotkeys(Key::PeriodKey, &down), vec![0, 3]);
    let down = vec![vec![true], vec![], vec![true], vec![]];
    assert_eq!(table.firing_hotkeys(Key::PeriodKey, &down), vec![0, 2, 3]);
    assert_eq!(table.firing_hotkeys(Key::F2Key, &vec![]), vec![1]);
    assert_eq!(table.firing_hotkeys(Key::PeriodKey, &vec![]), vec![3]);
    assert_eq!(table.firing_hotkeys(Key::AKey, &down), Vec::<usize>::new());
}

#[test]
fn message_loop_steps() {
    assert_eq!(message_loop_step(-1), MessageLoopStep::ReportError);
    assert_eq!(message_loop_step(0), MessageLoopStep::Quit);
    assert_eq!(message_loop_step(1), MessageLoopStep::Dispatch);
    assert_eq!(message_loop_step(-2), MessageLoopStep::Dispatch);
}
