//! Key and mouse events as a system-wide listener reports them, and the
//! virtual-key codes of what they are about.

use vstd::prelude::*;

verus! {

/// A key, named by its place on a US keyboard. `Unknown` is a key without a name,
/// with the code that the system gives it.
#[derive(Clone, Copy, Debug, PartialEq, Eq, Structural)]
pub enum Key {
    MetaLeft,
    MetaRight,
    ControlLeft,
    ControlRight,
    Alt,
    AltGr,
    ShiftLeft,
    ShiftRight,
    KeyA,
    KeyB,
    KeyC,
    KeyD,
    KeyE,
    KeyF,
    KeyG,
    KeyH,
    KeyI,
    KeyJ,
    KeyK,
    KeyL,
    KeyM,
    KeyN,
    KeyO,
    KeyP,
    KeyQ,
    KeyR,
    KeyS,
    KeyT,
    KeyU,
    KeyV,
    KeyW,
    KeyX,
    KeyY,
    KeyZ,
    Num0,
    Num1,
    Num2,
    Num3,
    Num4,
    Num5,
    Num6,
    Num7,
    Num8,
    Num9,
    F1,
    F2,
    F3,
    F4,
    F5,
    F6,
    F7,
    F8,
    F9,
    F10,
    F11,
    F12,
    F13,
    F14,
    F15,
    F16,
    F17,
    F18,
    F19,
    F20,
    Kp0,
    Kp1,
    Kp2,
    Kp3,
    Kp4,
    Kp5,
    Kp6,
    Kp7,
    Kp8,
    Kp9,
    KpMultiply,
    KpPlus,
    KpMinus,
    KpDivide,
    BackQuote,
    IntlBackslash,
    Space,
    Return,
    Escape,
    Tab,
    Backspace,
    Delete,
    Insert,
    Home,
    End,
    PageUp,
    PageDown,
    UpArrow,
    DownArrow,
    LeftArrow,
    RightArrow,
    Minus,
    Equal,
    LeftBracket,
    RightBracket,
    SemiColon,
    Quote,
    Comma,
    Dot,
    Slash,
    BackSlash,
    CapsLock,
    PrintScreen,
    ScrollLock,
    Pause,
    NumLock,
    KpReturn,
    KpDelete,
    Function,
    Unknown(u32),
}

/// A mouse button. `Unknown` is a button beyond the usual three, by its number.
#[derive(Clone, Copy, Debug, PartialEq, Eq, Structural)]
pub enum Button {
    Left,
    Right,
    Middle,
    Unknown(u8),
}

/// What an event is about.
#[derive(Clone, Copy, Debug, PartialEq, Eq, Structural)]
pub enum EventType {
    KeyPress(Key),
    KeyRelease(Key),
    ButtonPress(Button),
    ButtonRelease(Button),
    MouseMove,
    Wheel { delta_x: i64, delta_y: i64 },
}

/// An event of the keyboard or the mouse.
#[derive(Clone, Copy, Debug, PartialEq, Eq, Structural)]
pub struct Event {
    pub event_type: EventType,
}

/// The virtual-key code of a key. The left and the right key of a modifier share
/// one code.
pub open spec fn vk_of_key(key: Key) -> Option<i32> {
    match key {
        Key::Backspace => Some(0x08),
        Key::Tab => Some(0x09),
        Key::Return => Some(0x0D),
        Key::ShiftLeft | Key::ShiftRight => Some(0x10),
        Key::ControlLeft | Key::ControlRight => Some(0x11),
        Key::Alt | Key::AltGr => Some(0x12),
        Key::Escape => Some(0x1B),
        Key::Space => Some(0x20),
        Key::PageUp => Some(0x21),
        Key::PageDown => Some(0x22),
        Key::End => Some(0x23),
        Key::Home => Some(0x24),
        Key::LeftArrow => Some(0x25),
        Key::UpArrow => Some(0x26),
        Key::RightArrow => Some(0x27),
        Key::DownArrow => Some(0x28),
        Key::Insert => Some(0x2D),
        Key::Delete => Some(0x2E),
        Key::Num0 => Some(0x30),
        Key::Num1 => Some(0x31),
        Key::Num2 => Some(0x32),
        Key::Num3 => Some(0x33),
        Key::Num4 => Some(0x34),
        Key::Num5 => Some(0x35),
        Key::Num6 => Some(0x36),
        Key::Num7 => Some(0x37),
        Key::Num8 => Some(0x38),
        Key::Num9 => Some(0x39),
        Key::KeyA => Some(0x41),
        Key::KeyB => Some(0x42),
        Key::KeyC => Some(0x43),
        Key::KeyD => Some(0x44),
        Key::KeyE => Some(0x45),
        Key::KeyF => Some(0x46),
        Key::KeyG => Some(0x47),
        Key::KeyH => Some(0x48),
        Key::KeyI => Some(0x49),
        Key::KeyJ => Some(0x4A),
        Key::KeyK => Some(0x4B),
        Key::KeyL => Some(0x4C),
        Key::KeyM => Some(0x4D),
        Key::KeyN => Some(0x4E),
        Key::KeyO => Some(0x4F),
        Key::KeyP => Some(0x50),
        Key::KeyQ => Some(0x51),
        Key::KeyR => Some(0x52),
        Key::KeyS => Some(0x53),
        Key::KeyT => Some(0x54),
        Key::KeyU => Some(0x55),
        Key::KeyV => Some(0x56),
        Key::KeyW => Some(0x57),
        Key::KeyX => Some(0x58),
        Key::KeyY => Some(0x59),
        Key::KeyZ => Some(0x5A),
        Key::MetaLeft | Key::MetaRight => Some(0x5B),
        Key::Kp0 => Some(0x60),
        Key::Kp1 => Some(0x61),
        Key::Kp2 => Some(0x62),
        Key::Kp3 => Some(0x63),
        Key::Kp4 => Some(0x64),
        Key::Kp5 => Some(0x65),
        Key::Kp6 => Some(0x66),
        Key::Kp7 => Some(0x67),
        Key::Kp8 => Some(0x68),
        Key::Kp9 => Some(0x69),
        Key::KpMultiply => Some(0x6A),
        Key::KpPlus => Some(0x6B),
        Key::KpMinus => Some(0x6D),
        Key::KpDivide => Some(0x6F),
        Key::F1 => Some(0x70),
        Key::F2 => Some(0x71),
        Key::F3 => Some(0x72),
        Key::F4 => Some(0x73),
        Key::F5 => Some(0x74),
        Key::F6 => Some(0x75),
        Key::F7 => Some(0x76),
        Key::F8 => Some(0x77),
        Key::F9 => Some(0x78),
        Key::F10 => Some(0x79),
        Key::F11 => Some(0x7A),
        Key::F12 => Some(0x7B),
        Key::F13 => Some(0x7C),
        Key::F14 => Some(0x7D),
        Key::F15 => Some(0x7E),
        Key::F16 => Some(0x7F),
        Key::F17 => Some(0x80),
        Key::F18 => Some(0x81),
        Key::F19 => Some(0x82),
        Key::F20 => Some(0x83),
        Key::SemiColon => Some(0xBA),
        Key::Equal => Some(0xBB),
        Key::Comma => Some(0xBC),
        Key::Minus => Some(0xBD),
        Key::Dot => Some(0xBE),
        Key::Slash => Some(0xBF),
        Key::BackQuote => Some(0xC0),
        Key::LeftBracket => Some(0xDB),
        Key::BackSlash => Some(0xDC),
        Key::RightBracket => Some(0xDD),
        Key::Quote => Some(0xDE),
        Key::IntlBackslash => Some(0xE2),
        _ => None,
    }
}

/// The key that a listener without names for F13 to F20 reports by its X11 key
/// code, which is the kernel's key code plus 8.
pub open spec fn key_with_code(code: u32) -> Key {
    match code {
        191 => Key::F13,
        192 => Key::F14,
        193 => Key::F15,
        194 => Key::F16,
        195 => Key::F17,
        196 => Key::F18,
        197 => Key::F19,
        198 => Key::F20,
        _ => Key::Unknown(code),
    }
}

/// The virtual-key code of a mouse button. On X11, button 8 is Back and button 9
/// is Forward.
pub open spec fn vk_of_button(button: Button) -> Option<i32> {
    match button {
        Button::Left => Some(0x01),
        Button::Right => Some(0x02),
        Button::Middle => Some(0x04),
        Button::Unknown(number) => if number == 8 {
            Some(0x05)
        } else if number == 9 {
            Some(0x06)
        } else {
            None
        },
    }
}

/// The key or button that an event is about, as a virtual-key code, and whether
/// it went down.
pub open spec fn input_of(event: Event) -> Option<(i32, bool)> {
    let (vk, is_pressed) = match event.event_type {
        EventType::KeyPress(key) => (vk_of_key(key), true),
        EventType::KeyRelease(key) => (vk_of_key(key), false),
        EventType::ButtonPress(button) => (vk_of_button(button), true),
        EventType::ButtonRelease(button) => (vk_of_button(button), false),
        EventType::MouseMove | EventType::Wheel { .. } => (None, false),
    };
    match vk {
        Some(code) => Some((code, is_pressed)),
        None => None,
    }
}

/// The key or button that an event is about, as a virtual-key code, and whether
/// it went down. There is none for mouse moves, the wheel, and keys and buttons
/// without a code.
pub fn convert_event(event: &Event) -> (r: Option<(i32, bool)>)
    ensures
        r == input_of(*event),
{
    let (vk, is_pressed): (Option<i32>, bool) = match &event.event_type {
        EventType::KeyPress(key) => (rdev_key_to_vk(key), true),
        EventType::KeyRelease(key) => (rdev_key_to_vk(key), false),
        EventType::ButtonPress(button) => (rdev_button_to_vk(button), true),
        EventType::ButtonRelease(button) => (rdev_button_to_vk(button), false),
        _ => (None, false),
    };
    match vk {
        Some(code) => Some((code, is_pressed)),
        None => None,
    }
}

/// The key of an X11 key code for which the listener has no name: one of F13 to
/// F20, or else unknown.
pub fn key_of_code(code: u32) -> (r: Key)
    ensures
        r == key_with_code(code),
{
    match code {
        191 => Key::F13,
        192 => Key::F14,
        193 => Key::F15,
        194 => Key::F16,
        195 => Key::F17,
        196 => Key::F18,
        197 => Key::F19,
        198 => Key::F20,
        _ => Key::Unknown(code),
    }
}

/// The virtual-key code of a mouse button.
pub fn rdev_button_to_vk(button: &Button) -> (r: Option<i32>)
    ensures
        r == vk_of_button(*button),
{
    match button {
        Button::Left => Some(0x01),
        Button::Right => Some(0x02),
        Button::Middle => Some(0x04),
        // Linux X11: button 8 = Back, button 9 = Forward
        Button::Unknown(8) => Some(0x05),
        Button::Unknown(9) => Some(0x06),
        _ => None,
    }
}

/// The virtual-key code of a key.
pub fn rdev_key_to_vk(key: &Key) -> (r: Option<i32>)
    ensures
        r == vk_of_key(*key),
{
    match key {
        Key::MetaLeft | Key::MetaRight => Some(0x5B),
        Key::ControlLeft | Key::ControlRight => Some(0x11),
        Key::Alt | Key::AltGr => Some(0x12),
        Key::ShiftLeft | Key::ShiftRight => Some(0x10),
        Key::KeyA => Some(0x41),
        Key::KeyB => Some(0x42),
        Key::KeyC => Some(0x43),
        Key::KeyD => Some(0x44),
        Key::KeyE => Some(0x45),
        Key::KeyF => Some(0x46),
        Key::KeyG => Some(0x47),
        Key::KeyH => Some(0x48),
        Key::KeyI => Some(0x49),
        Key::KeyJ => Some(0x4A),
        Key::KeyK => Some(0x4B),
        Key::KeyL => Some(0x4C),
        Key::KeyM => Some(0x4D),
        Key::KeyN => Some(0x4E),
        Key::KeyO => Some(0x4F),
        Key::KeyP => Some(0x50),
        Key::KeyQ => Some(0x51),
        Key::KeyR => Some(0x52),
        Key::KeyS => Some(0x53),
        Key::KeyT => Some(0x54),
        Key::KeyU => Some(0x55),
        Key::KeyV => Some(0x56),
        Key::KeyW => Some(0x57),
        Key::KeyX => Some(0x58),
        Key::KeyY => Some(0x59),
        Key::KeyZ => Some(0x5A),
        Key::Num0 => Some(0x30),
        Key::Num1 => Some(0x31),
        Key::Num2 => Some(0x32),
        Key::Num3 => Some(0x33),
        Key::Num4 => Some(0x34),
        Key::Num5 => Some(0x35),
        Key::Num6 => Some(0x36),
        Key::Num7 => Some(0x37),
        Key::Num8 => Some(0x38),
        Key::Num9 => Some(0x39),
        Key::F1 => Some(0x70),
        Key::F2 => Some(0x71),
        Key::F3 => Some(0x72),
        Key::F4 => Some(0x73),
        Key::F5 => Some(0x74),
        Key::F6 => Some(0x75),
        Key::F7 => Some(0x76),
        Key::F8 => Some(0x77),
        Key::F9 => Some(0x78),
        Key::F10 => Some(0x79),
        Key::F11 => Some(0x7A),
        Key::F12 => Some(0x7B),
        // F13-F20
        Key::F13 => Some(0x7C),
        Key::F14 => Some(0x7D),
        Key::F15 => Some(0x7E),
        Key::F16 => Some(0x7F),
        Key::F17 => Some(0x80),
        Key::F18 => Some(0x81),
        Key::F19 => Some(0x82),
        Key::F20 => Some(0x83),
        // Numpad
        Key::Kp0 => Some(0x60),
        Key::Kp1 => Some(0x61),
        Key::Kp2 => Some(0x62),
        Key::Kp3 => Some(0x63),
        Key::Kp4 => Some(0x64),
        Key::Kp5 => Some(0x65),
        Key::Kp6 => Some(0x66),
        Key::Kp7 => Some(0x67),
        Key::Kp8 => Some(0x68),
        Key::Kp9 => Some(0x69),
        Key::KpMultiply => Some(0x6A),
        Key::KpPlus => Some(0x6B),
        Key::KpMinus => Some(0x6D),
        Key::KpDivide => Some(0x6F),
        // Special keys
        Key::BackQuote => Some(0xC0),
        Key::IntlBackslash => Some(0xE2),
        Key::Space => Some(0x20),
        Key::Return => Some(0x0D),
        Key::Escape => Some(0x1B),
        Key::Tab => Some(0x09),
        Key::Backspace => Some(0x08),
        Key::Delete => Some(0x2E),
        Key::Insert => Some(0x2D),
        Key::Home => Some(0x24),
        Key::End => Some(0x23),
        Key::PageUp => Some(0x21),
        Key::PageDown => Some(0x22),
        Key::UpArrow => Some(0x26),
        Key::DownArrow => Some(0x28),
        Key::LeftArrow => Some(0x25),
        Key::RightArrow => Some(0x27),
        // OEM keys
        Key::Minus => Some(0xBD),
        Key::Equal => Some(0xBB),
        Key::LeftBracket => Some(0xDB),
        Key::RightBracket => Some(0xDD),
        Key::SemiColon => Some(0xBA),
        Key::Quote => Some(0xDE),
        Key::Comma => Some(0xBC),
        Key::Dot => Some(0xBE),
        Key::Slash => Some(0xBF),
        Key::BackSlash => Some(0xDC),
        _ => None,
    }
}

} // verus!
