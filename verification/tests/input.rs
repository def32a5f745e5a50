use shortcuts::input::{
    convert_event, key_of_code, rdev_button_to_vk, rdev_key_to_vk, Button, Event, EventType, Key,
};

#[test]
fn keys_have_virtual_key_codes() {
    let table = [
        (Key::MetaLeft, 0x5B),
        (Key::MetaRight, 0x5B),
        (Key::ControlLeft, 0x11),
        (Key::ControlRight, 0x11),
        (Key::Alt, 0x12),
        (Key::AltGr, 0x12),
        (Key::ShiftLeft, 0x10),
        (Key::ShiftRight, 0x10),
        (Key::KeyA, 0x41),
        (Key::KeyM, 0x4D),
        (Key::KeyZ, 0x5A),
        (Key::Num0, 0x30),
        (Key::Num9, 0x39),
        (Key::F1, 0x70),
        (Key::F12, 0x7B),
        (Key::F13, 0x7C),
        (Key::F20, 0x83),
        (Key::Kp0, 0x60),
        (Key::Kp9, 0x69),
        (Key::KpMultiply, 0x6A),
        (Key::KpPlus, 0x6B),
        (Key::KpMinus, 0x6D),
        (Key::KpDivide, 0x6F),
        (Key::BackQuote, 0xC0),
        (Key::IntlBackslash, 0xE2),
        (Key::Space, 0x20),
        (Key::Return, 0x0D),
        (Key::Escape, 0x1B),
        (Key::Tab, 0x09),
        (Key::Backspace, 0x08),
        (Key::Delete, 0x2E),
        (Key::Insert, 0x2D),
        (Key::Home, 0x24),
        (Key::End, 0x23),
        (Key::PageUp, 0x21),
        (Key::PageDown, 0x22),
        (Key::UpArrow, 0x26),
        (Key::DownArrow, 0x28),
        (Key::LeftArrow, 0x25),
        (Key::RightArrow, 0x27),
        (Key::Minus, 0xBD),
        (Key::Equal, 0xBB),
        (Key::LeftBracket, 0xDB),
        (Key::RightBracket, 0xDD),
        (Key::SemiColon, 0xBA),
        (Key::Quote, 0xDE),
        (Key::Comma, 0xBC),
        (Key::Dot, 0xBE),
        (Key::Slash, 0xBF),
        (Key::BackSlash, 0xDC),
    ];
    for (key, vk) in table {
        assert_eq!(rdev_key_to_vk(&key), Some(vk), "{:?}", key);
    }
}

#[test]
fn some_keys_have_no_code() {
    for key in [
        Key::CapsLock,
        Key::PrintScreen,
        Key::ScrollLock,
        Key::Pause,
        Key::NumLock,
        Key::KpReturn,
        Key::KpDelete,
        Key::Function,
        Key::Unknown(0x41),
    ] {
        assert_eq!(rdev_key_to_vk(&key), None, "{:?}", key);
    }
}

#[test]
fn buttons_have_virtual_key_codes() {
    assert_eq!(rdev_button_to_vk(&Button::Left), Some(0x01));
    assert_eq!(rdev_button_to_vk(&Button::Right), Some(0x02));
    assert_eq!(rdev_button_to_vk(&Button::Middle), Some(0x04));
    assert_eq!(rdev_button_to_vk(&Button::Unknown(8)), Some(0x05));
    assert_eq!(rdev_button_to_vk(&Button::Unknown(9)), Some(0x06));
    assert_eq!(rdev_button_to_vk(&Button::Unknown(7)), None);
    assert_eq!(rdev_button_to_vk(&Button::Unknown(10)), None);
}

#[test]
fn events_become_inputs() {
    let table = [
        (EventType::KeyPress(Key::KeyA), Some((0x41, true))),
        (EventType::KeyRelease(Key::KeyA), Some((0x41, false))),
        (EventType::ButtonPress(Button::Left), Some((0x01, true))),
        (EventType::ButtonRelease(Button::Unknown(9)), Some((0x06, false))),
        (EventType::KeyPress(Key::CapsLock), None),
        (EventType::KeyRelease(Key::Unknown(1)), None),
        (EventType::ButtonPress(Button::Unknown(1)), None),
        (EventType::MouseMove, None),
        (EventType::Wheel { delta_x: 0, delta_y: 1 }, None),
    ];
    for (event_type, input) in table {
        assert_eq!(convert_event(&Event { event_type }), input, "{:?}", event_type);
    }
}

#[test]
fn unnamed_function_keys_are_known_by_their_code() {
    let keys = [Key::F13, Key::F14, Key::F15, Key::F16, Key::F17, Key::F18, Key::F19, Key::F20];
    for (i, key) in keys.into_iter().enumerate() {
        assert_eq!(key_of_code(191 + i as u32), key);
        assert_eq!(rdev_key_to_vk(&key_of_code(191 + i as u32)), Some(0x7C + i as i32));
    }
    for code in [0, 96, 190, 199, u32::MAX] {
        assert_eq!(key_of_code(code), Key::Unknown(code));
    }
}
