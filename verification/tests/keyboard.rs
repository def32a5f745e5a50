use shortcuts::binding::{Binding, KeyEventType, ShortcutEvent};
use shortcuts::keyboard::{is_key_pressed, is_modifier_pressed, KeyboardState, BUTTON_COUNT};
use shortcuts::poller::{wants_layout, KeyboardPoller, POLL_INTERVAL_MILLIS};

const MS: u64 = 1_000_000;
const SHIFT: u64 = 0x00020000;
const CONTROL: u64 = 0x00040000;
const ALTERNATE: u64 = 0x00080000;
const COMMAND: u64 = 0x00100000;

/// A keyboard with nothing down, on which key 0 types `a` and key 11 types `b`.
fn idle() -> KeyboardState {
    let mut layout = vec![None; 128];
    layout[0] = Some('a');
    layout[11] = Some('b');
    KeyboardState { flags: 0, buttons: vec![false; 5], keys: vec![false; 128], layout }
}

fn holding(flags: u64, keys: &[usize]) -> KeyboardState {
    let mut keyboard = idle();
    keyboard.flags = flags;
    for key in keys {
        keyboard.keys[*key] = true;
    }
    keyboard
}

fn binding(keys: &[i32]) -> Binding {
    Binding { keys: keys.to_vec() }
}

fn pressed(i: usize) -> Option<ShortcutEvent> {
    Some(ShortcutEvent { binding: i, event_type: KeyEventType::Pressed })
}

fn released(i: usize) -> Option<ShortcutEvent> {
    Some(ShortcutEvent { binding: i, event_type: KeyEventType::Released })
}

#[test]
fn each_modifier_has_its_flag() {
    let table = [(0x11, CONTROL), (0x10, SHIFT), (0x12, ALTERNATE), (0x5B, COMMAND)];
    for (vk, flag) in table {
        assert!(is_modifier_pressed(vk, flag));
        assert!(is_modifier_pressed(vk, u64::MAX));
        assert!(!is_modifier_pressed(vk, !flag));
        assert!(is_key_pressed(vk, &holding(flag, &[])));
        assert!(!is_key_pressed(vk, &holding(!flag, &[])));
    }
    assert!(!is_modifier_pressed(0x41, u64::MAX));
}

#[test]
fn each_mouse_button_has_its_number() {
    for (number, vk) in [0x01, 0x02, 0x04, 0x05, 0x06].into_iter().enumerate() {
        let mut keyboard = idle();
        assert!(!is_key_pressed(vk, &keyboard));
        keyboard.buttons[number] = true;
        assert!(is_key_pressed(vk, &keyboard));
    }
    assert_eq!(BUTTON_COUNT, 5);
    let mut keyboard = idle();
    keyboard.buttons = vec![true; 5];
    assert!(!is_key_pressed(0x03, &keyboard));
}

#[test]
fn fixed_keys_are_read_at_their_place() {
    assert!(is_key_pressed(0x20, &holding(0, &[0x31])));
    assert!(!is_key_pressed(0x20, &holding(0, &[0x32])));
    assert!(is_key_pressed(0x83, &holding(0, &[0x5A])));
}

#[test]
fn other_keys_are_read_where_the_layout_has_them() {
    assert!(is_key_pressed(0x41, &holding(0, &[0])));
    assert!(!is_key_pressed(0x41, &holding(0, &[11])));
    assert!(is_key_pressed(0x42, &holding(0, &[11])));
    let mut keyboard = holding(0, &[0]);
    keyboard.layout[0] = Some('q');
    assert!(!is_key_pressed(0x41, &keyboard));
    assert!(is_key_pressed(0x51, &keyboard));
}

#[test]
fn unknown_and_unlisted_keys_are_up() {
    let mut keyboard = holding(u64::MAX, &[]);
    keyboard.keys = vec![true; 128];
    keyboard.buttons = vec![true; 5];
    assert!(!is_key_pressed(0xFF, &keyboard));
    assert!(!is_key_pressed(-1, &keyboard));
    assert!(!is_key_pressed(0x43, &keyboard));
    keyboard.keys = Vec::new();
    keyboard.buttons = Vec::new();
    assert!(!is_key_pressed(0x41, &keyboard));
    assert!(!is_key_pressed(0x20, &keyboard));
    assert!(!is_key_pressed(0x01, &keyboard));
}

#[test]
fn poll_presses_and_releases() {
    let bindings = vec![binding(&[0x5B, 0x41])];
    let mut poller = KeyboardPoller::new();
    assert_eq!(poller.poll_at(false, &bindings, &idle(), 0), None);
    assert_eq!(poller.poll_at(false, &bindings, &holding(COMMAND, &[]), 0), None);
    assert_eq!(poller.poll_at(false, &bindings, &holding(COMMAND, &[0]), 0), pressed(0));
    assert_eq!(poller.poll_at(false, &bindings, &holding(COMMAND, &[0]), 1000 * MS), None);
    assert_eq!(poller.poll_at(false, &bindings, &holding(0, &[0]), 1000 * MS), released(0));
    assert_eq!(poller.poll_at(false, &bindings, &idle(), 1000 * MS), None);
}

#[test]
fn polls_are_debounced_for_150_ms() {
    let bindings = vec![binding(&[0x41])];
    let down = holding(0, &[0]);
    let mut poller = KeyboardPoller::new();
    assert_eq!(poller.poll_at(false, &bindings, &down, 7), pressed(0));
    assert_eq!(poller.poll_at(false, &bindings, &idle(), 8), released(0));
    assert_eq!(poller.poll_at(false, &bindings, &down, 7 + 150 * MS - 1), None);
    assert_eq!(poller.poll_at(false, &bindings, &down, 7 + 150 * MS), pressed(0));
}

#[test]
fn debounced_shortcut_does_not_hide_later_ones() {
    let bindings = vec![binding(&[0x41]), binding(&[0x41])];
    let down = holding(0, &[0]);
    let mut poller = KeyboardPoller::new();
    assert_eq!(poller.poll_at(false, &bindings, &down, 0), pressed(0));
    assert_eq!(poller.poll_at(false, &bindings, &idle(), 1), released(0));
    assert_eq!(poller.poll_at(false, &bindings, &down, 2), pressed(1));
}

#[test]
fn poll_heeds_extra_modifiers_only_for_presses() {
    let bindings = vec![binding(&[0x41])];
    let mut poller = KeyboardPoller::new();
    assert_eq!(poller.poll_at(false, &bindings, &holding(SHIFT, &[0]), 0), None);
    assert_eq!(poller.poll_at(false, &bindings, &holding(0, &[0]), 0), pressed(0));
    assert_eq!(poller.poll_at(false, &bindings, &holding(SHIFT, &[0]), 0), None);
    assert_eq!(poller.poll_at(false, &bindings, &holding(SHIFT, &[]), 0), released(0));
}

#[test]
fn first_change_in_order_comes_first() {
    let bindings = vec![binding(&[]), binding(&[0x41]), binding(&[0x42])];
    let mut poller = KeyboardPoller::new();
    assert_eq!(poller.poll_at(false, &bindings, &holding(0, &[11]), 0), pressed(2));
    assert_eq!(poller.poll_at(false, &bindings, &holding(0, &[0]), 0), pressed(1));
    assert_eq!(poller.poll_at(false, &bindings, &holding(0, &[0]), 0), released(2));
    assert_eq!(poller.poll_at(false, &bindings, &holding(0, &[11]), 200 * MS), released(1));
    assert_eq!(poller.poll_at(false, &bindings, &holding(0, &[11]), 200 * MS), pressed(2));
}

#[test]
fn suspended_poller_does_nothing() {
    let bindings = vec![binding(&[0x41])];
    let down = holding(0, &[0]);
    let mut poller = KeyboardPoller::new();
    assert_eq!(poller.poll_at(true, &bindings, &down, 0), None);
    assert_eq!(poller.poll_at(false, &bindings, &down, 0), pressed(0));
    assert_eq!(poller.poll_at(true, &bindings, &idle(), 0), None);
    assert_eq!(poller.poll_at(false, &bindings, &idle(), 0), released(0));
}

#[test]
fn poll_reads_the_clock() {
    let bindings = vec![binding(&[0x41])];
    let mut poller = KeyboardPoller::new();
    assert_eq!(poller.poll(true, &bindings, &holding(0, &[0])), None);
    assert_eq!(poller.poll(false, &bindings, &holding(0, &[0])), pressed(0));
    assert_eq!(poller.poll(false, &bindings, &idle()), released(0));
    let more = vec![binding(&[0x41]), binding(&[0x42])];
    assert_eq!(poller.poll(false, &more, &holding(0, &[0, 11])), pressed(1));
    assert_eq!(POLL_INTERVAL_MILLIS, 32);
}

#[test]
fn layout_is_wanted_only_where_it_decides() {
    let bindings = vec![binding(&[0x70]), binding(&[0x41, 0x5B, 0x20]), binding(&[])];
    assert!(!wants_layout(&bindings, &idle()));
    assert!(!wants_layout(&bindings, &holding(COMMAND, &[])));
    assert!(!wants_layout(&bindings, &holding(COMMAND, &[0])));
    assert!(wants_layout(&bindings, &holding(COMMAND, &[0x31])));
    assert!(!wants_layout(&[binding(&[0x5B, 0x70])], &holding(COMMAND, &[0x7A])));
    assert!(wants_layout(&[binding(&[0x41])], &idle()));
    assert!(!wants_layout(&[], &idle()));
}

#[test]
fn unwanted_layout_changes_nothing() {
    let bindings = vec![binding(&[0x5B, 0x41])];
    let mut without = holding(0, &[0]);
    without.layout = Vec::new();
    assert!(!wants_layout(&bindings, &without));
    let mut poller = KeyboardPoller::new();
    assert_eq!(poller.poll_at(false, &bindings, &holding(COMMAND, &[0]), 0), pressed(0));
    assert_eq!(poller.poll_at(false, &bindings, &without, 1), released(0));
}
