use shortcuts::binding::{Binding, KeyEventType, ShortcutEvent};
use shortcuts::input::{convert_event, Event, EventType, Key};
use shortcuts::processor::EventProcessor;

const MS: u64 = 1_000_000;

fn binding(keys: &[i32]) -> Binding {
    Binding { keys: keys.to_vec() }
}

fn pressed(i: usize) -> Option<ShortcutEvent> {
    Some(ShortcutEvent { binding: i, event_type: KeyEventType::Pressed })
}

fn released(i: usize) -> Option<ShortcutEvent> {
    Some(ShortcutEvent { binding: i, event_type: KeyEventType::Released })
}

#[test]
fn shortcut_is_pressed_with_its_last_key_and_released_with_any() {
    let bindings = vec![binding(&[0x11, 0x41])];
    let mut p = EventProcessor::new();
    assert_eq!(p.handle_key_press_at(0x11, false, &bindings, 0), None);
    assert_eq!(p.handle_key_press_at(0x41, false, &bindings, 1), pressed(0));
    assert_eq!(p.handle_key_release(0x11, false, &bindings), released(0));
    assert_eq!(p.handle_key_release(0x41, false, &bindings), None);
}

#[test]
fn held_shortcut_is_not_pressed_again() {
    let bindings = vec![binding(&[0x41])];
    let mut p = EventProcessor::new();
    assert_eq!(p.handle_key_press_at(0x41, false, &bindings, 0), pressed(0));
    assert_eq!(p.handle_key_press_at(0x41, false, &bindings, 1000 * MS), None);
    assert_eq!(p.handle_key_release(0x41, false, &bindings), released(0));
}

#[test]
fn presses_are_debounced_for_150_ms() {
    let bindings = vec![binding(&[0x41])];
    let mut p = EventProcessor::new();
    assert_eq!(p.handle_key_press_at(0x41, false, &bindings, 10), pressed(0));
    assert_eq!(p.handle_key_release(0x41, false, &bindings), released(0));
    assert_eq!(p.handle_key_press_at(0x41, false, &bindings, 10 + 150 * MS - 1), None);
    assert_eq!(p.check_press_at(false, &bindings, 10 + 150 * MS), pressed(0));
}

#[test]
fn clock_that_steps_back_debounces() {
    let bindings = vec![binding(&[0x41])];
    let mut p = EventProcessor::new();
    assert_eq!(p.handle_key_press_at(0x41, false, &bindings, 500 * MS), pressed(0));
    assert_eq!(p.handle_key_release(0x41, false, &bindings), released(0));
    assert_eq!(p.handle_key_press_at(0x41, false, &bindings, 0), None);
}

#[test]
fn extra_modifier_prevents_a_press() {
    let bindings = vec![binding(&[0x11, 0x41]), binding(&[0x11, 0x10, 0x41])];
    let mut p = EventProcessor::new();
    for modifier in [0x12, 0x5B] {
        assert_eq!(p.handle_key_press_at(modifier, false, &bindings, 0), None);
        assert_eq!(p.handle_key_press_at(0x11, false, &bindings, 0), None);
        assert_eq!(p.handle_key_press_at(0x41, false, &bindings, 0), None);
        assert_eq!(p.handle_key_release(modifier, false, &bindings), None);
        assert_eq!(p.handle_key_release(0x11, false, &bindings), None);
        assert_eq!(p.handle_key_release(0x41, false, &bindings), None);
    }
    assert_eq!(p.handle_key_press_at(0x10, false, &bindings, 0), None);
    assert_eq!(p.handle_key_press_at(0x11, false, &bindings, 0), None);
    assert_eq!(p.handle_key_press_at(0x41, false, &bindings, 0), pressed(1));
}

#[test]
fn extra_modifier_does_not_release() {
    let bindings = vec![binding(&[0x41])];
    let mut p = EventProcessor::new();
    assert_eq!(p.handle_key_press_at(0x41, false, &bindings, 0), pressed(0));
    assert_eq!(p.handle_key_press_at(0x11, false, &bindings, 1), None);
    assert_eq!(p.check_release(false, &bindings), None);
    assert_eq!(p.handle_key_release(0x11, false, &bindings), None);
    assert_eq!(p.handle_key_release(0x41, false, &bindings), released(0));
}

#[test]
fn other_keys_do_not_prevent_a_press() {
    let bindings = vec![binding(&[0x41])];
    let mut p = EventProcessor::new();
    assert_eq!(p.handle_key_press_at(0x42, false, &bindings, 0), None);
    assert_eq!(p.handle_key_press_at(0x41, false, &bindings, 0), pressed(0));
}

#[test]
fn first_binding_wins_and_one_event_comes_at_a_time() {
    let bindings = vec![binding(&[]), binding(&[0x41]), binding(&[0x41])];
    let mut p = EventProcessor::new();
    assert_eq!(p.handle_key_press_at(0x41, false, &bindings, 0), pressed(1));
    assert_eq!(p.check_press_at(false, &bindings, 0), pressed(2));
    assert_eq!(p.check_press_at(false, &bindings, 0), None);
    assert_eq!(p.handle_key_release(0x41, false, &bindings), released(1));
    assert_eq!(p.check_release(false, &bindings), released(2));
    assert_eq!(p.check_release(false, &bindings), None);
}

#[test]
fn empty_binding_is_never_pressed() {
    let bindings = vec![binding(&[])];
    let mut p = EventProcessor::new();
    assert_eq!(p.check_press_at(false, &bindings, 0), None);
    assert_eq!(p.handle_key_press_at(0x41, false, &bindings, 2000 * MS), None);
    assert_eq!(p.check_release(false, &bindings), None);
}

#[test]
fn suspended_processor_only_notes_keys() {
    let bindings = vec![binding(&[0x41])];
    let mut p = EventProcessor::new();
    assert_eq!(p.handle_key_press_at(0x41, true, &bindings, 0), None);
    assert_eq!(p.check_press_at(true, &bindings, 0), None);
    assert_eq!(p.check_press_at(false, &bindings, 0), pressed(0));
    assert_eq!(p.handle_key_release(0x41, true, &bindings), None);
    assert_eq!(p.check_release(true, &bindings), None);
    assert_eq!(p.check_release(false, &bindings), released(0));
}

#[test]
fn new_binding_can_be_pressed_at_once() {
    let mut bindings = vec![binding(&[0x41])];
    let mut p = EventProcessor::new();
    assert_eq!(p.handle_key_press_at(0x41, false, &bindings, 0), pressed(0));
    bindings.push(binding(&[0x41, 0x42]));
    assert_eq!(p.handle_key_press_at(0x42, false, &bindings, 1), pressed(1));
}

#[test]
fn key_that_comes_up_releases_some_shortcut() {
    let bindings = vec![binding(&[0x41]), binding(&[0x41, 0x42])];
    let mut p = EventProcessor::new();
    assert_eq!(p.handle_key_press_at(0x41, false, &bindings, 0), pressed(0));
    assert_eq!(p.handle_key_press_at(0x42, false, &bindings, 0), pressed(1));
    assert_eq!(p.handle_key_release(0x42, false, &bindings), released(1));
    assert_eq!(p.handle_key_release(0x41, false, &bindings), released(0));
}

#[test]
fn inputs_are_presses_and_releases() {
    let bindings = vec![binding(&[0x41])];
    let mut p = EventProcessor::new();
    assert_eq!(p.handle_input_at((0x41, true), false, &bindings, 0), pressed(0));
    assert_eq!(p.handle_input_at((0x41, false), false, &bindings, 1), released(0));
    assert_eq!(p.handle_input_at((0x41, true), false, &bindings, 2), None);
    assert_eq!(p.handle_input_at((0x41, false), false, &bindings, 3), None);
    assert_eq!(p.handle_input_at((0x41, true), false, &bindings, 150 * MS), pressed(0));
}

#[test]
fn events_run_through_the_clock() {
    let bindings = vec![binding(&[0x5B, 0x51])];
    let mut p = EventProcessor::new();
    let mut seen = Vec::new();
    for event_type in [
        EventType::KeyPress(Key::MetaRight),
        EventType::MouseMove,
        EventType::KeyPress(Key::KeyQ),
        EventType::KeyRelease(Key::MetaLeft),
    ] {
        if let Some(input) = convert_event(&Event { event_type }) {
            seen.push(p.handle_input(input, false, &bindings));
        }
    }
    assert_eq!(seen, vec![None, pressed(0), released(0)]);
}

#[test]
fn clock_debounces_a_quick_second_press() {
    let bindings = vec![binding(&[0x41])];
    let mut p = EventProcessor::new();
    assert_eq!(p.handle_key_press(0x41, false, &bindings), pressed(0));
    assert_eq!(p.check_press(false, &bindings), None);
    assert_eq!(p.handle_key_release(0x41, false, &bindings), released(0));
    let end = std::time::Instant::now() + std::time::Duration::from_millis(200);
    while std::time::Instant::now() < end {}
    assert_eq!(p.handle_key_press(0x41, false, &bindings), pressed(0));
}

#[test]
fn first_press_is_not_debounced_however_long_a_binding_is_known() {
    let bindings = vec![binding(&[0x41]), binding(&[0x42])];
    let mut p = EventProcessor::new();
    assert_eq!(p.handle_key_press_at(0x41, false, &bindings, 0), pressed(0));
    assert_eq!(p.handle_key_press_at(0x42, false, &bindings, 0), pressed(1));
    let mut p = EventProcessor::new();
    assert_eq!(p.handle_key_press_at(0x41, false, &bindings, 5000 * MS), pressed(0));
    assert_eq!(p.handle_key_press_at(0x42, false, &bindings, 5000 * MS + 1), pressed(1));
}

#[test]
fn shortcut_stays_held_while_its_binding_is_gone() {
    let mut bindings = vec![binding(&[0x41]), binding(&[0x42])];
    let mut p = EventProcessor::new();
    assert_eq!(p.handle_key_press_at(0x42, false, &bindings, 0), pressed(1));
    let gone = bindings.pop().unwrap();
    assert_eq!(p.handle_key_release(0x42, false, &bindings), None);
    bindings.push(gone);
    assert_eq!(p.check_press_at(false, &bindings, 1000 * MS), None);
    assert_eq!(p.check_release(false, &bindings), released(1));
}

#[test]
fn repeated_looks_press_each_matching_binding_once() {
    let bindings = vec![binding(&[0x41]), binding(&[0x42]), binding(&[0x41])];
    let mut p = EventProcessor::new();
    assert_eq!(p.handle_key_press(0x41, true, &bindings), None);
    assert_eq!(p.check_press(false, &bindings), pressed(0));
    assert_eq!(p.check_press(false, &bindings), pressed(2));
    assert_eq!(p.check_press(false, &bindings), None);
}
