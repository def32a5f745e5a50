//! Laws of what the key tables hold, told from the keys' names, the characters
//! that they type and the numbers that they are known by.

use vstd::prelude::*;

#[allow(unused_imports)]
use crate::binding::is_modifier;
#[allow(unused_imports)]
use crate::input::{
    input_of, key_with_code, vk_of_button, vk_of_key, Button, Event, EventType, Key,
};
#[allow(unused_imports)]
use crate::key_laws::layout_keycode_is_determined;
#[allow(unused_imports)]
use crate::keyboard::{listed_down, modifier_mask, mouse_button, KeyboardState, BUTTON_COUNT};
#[allow(unused_imports)]
use crate::keymap::{first_layout_keycode, fixed_keycode, layout_char, types_char, vk_of_char};
#[allow(unused_imports)]
use crate::poller::layout_matters;

verus! {

// ---------------------------------------------------------------------------
// Characters and virtual-key codes.

/// Punctuation keys of a US keyboard, by character and virtual-key code.
pub open spec fn punctuation() -> Seq<(char, i32)> {
    seq![
        (';', 0xBAi32),
        ('=', 0xBBi32),
        (',', 0xBCi32),
        ('-', 0xBDi32),
        ('.', 0xBEi32),
        ('/', 0xBFi32),
        ('[', 0xDBi32),
        ('\\', 0xDCi32),
        (']', 0xDDi32),
        ('\'', 0xDEi32),
    ]
}

/// The virtual-key code of a letter is the code point of its upper case, that of a
/// digit or of the space is its own code point, and punctuation has the codes of
/// its keys. Nothing else is typed by a key.
pub proof fn chars_have_their_codes(c: char)
    ensures
        0x61 <= c as int <= 0x7A ==> vk_of_char(c) is Some && vk_of_char(c)->0 == c as int - 0x20,
        0x41 <= c as int <= 0x5A ==> vk_of_char(c) is Some && vk_of_char(c)->0 == c as int,
        0x30 <= c as int <= 0x39 ==> vk_of_char(c) is Some && vk_of_char(c)->0 == c as int,
        c as int == 0x20 ==> vk_of_char(c) == Some(0x20i32),
        forall|k: int|
            0 <= k < punctuation().len() && (#[trigger] punctuation()[k]).0 == c ==> vk_of_char(c)
                == Some(punctuation()[k].1),
        vk_of_char(c) is Some ==> {
            ||| 0x61 <= c as int <= 0x7A
            ||| 0x41 <= c as int <= 0x5A
            ||| 0x30 <= c as int <= 0x39
            ||| c as int == 0x20
            ||| exists|k: int| 0 <= k < punctuation().len() && (#[trigger] punctuation()[k]).0 == c
        },
{
    let p = punctuation();
    assert(p[0].0 == ';' && p[1].0 == '=' && p[2].0 == ',' && p[3].0 == '-' && p[4].0 == '.');
    assert(p[5].0 == '/' && p[6].0 == '[' && p[7].0 == '\\' && p[8].0 == ']' && p[9].0 == '\'');
}

/// The character that a virtual-key code is looked up by: the small letter of a
/// letter's code, the digit of a digit's, and the punctuation of its key's. No
/// other code is looked up by a character.
pub proof fn codes_have_their_chars(vk: i32)
    ensures
        0x41 <= vk <= 0x5A ==> layout_char(vk) is Some && layout_char(vk)->0 as int == vk + 0x20,
        0x30 <= vk <= 0x39 ==> layout_char(vk) is Some && layout_char(vk)->0 as int == vk,
        forall|k: int|
            0 <= k < punctuation().len() && (#[trigger] punctuation()[k]).1 == vk ==> layout_char(
                vk,
            ) == Some(punctuation()[k].0),
        layout_char(vk) is Some ==> {
            ||| 0x41 <= vk <= 0x5A
            ||| 0x30 <= vk <= 0x39
            ||| exists|k: int| 0 <= k < punctuation().len() && (#[trigger] punctuation()[k]).1 == vk
        },
{
    let p = punctuation();
    assert(p[0].1 == 0xBA && p[1].1 == 0xBB && p[2].1 == 0xBC && p[3].1 == 0xBD && p[4].1 == 0xBE);
    assert(p[5].1 == 0xBF && p[6].1 == 0xDB && p[7].1 == 0xDC && p[8].1 == 0xDD && p[9].1 == 0xDE);
}

/// `c` is `small`, or its upper case if `small` is a letter.
pub open spec fn same_letter(c: char, small: char) -> bool {
    c == small || 0x61 <= small as int <= 0x7A && c as int == small as int - 0x20
}

/// Where a virtual-key code is found in a layout: at a key that types its
/// character in either case, at no key if it has none, and never past such a key.
/// Only the first 128 keys count.
pub proof fn found_keys_type_the_char(
    layout: Seq<Option<char>>,
    vk: i32,
    code: Option<u16>,
    k: int,
)
    requires
        first_layout_keycode(layout, vk, code),
    ensures
        code is Some ==> {
            &&& layout_char(vk) is Some
            &&& code->0 < 128
            &&& code->0 < layout.len()
            &&& layout[code->0 as int] is Some
            &&& same_letter(layout[code->0 as int]->0, layout_char(vk)->0)
        },
        layout_char(vk) is Some && 0 <= k < layout.len() && k < 128 && layout[k] is Some
            && same_letter(layout[k]->0, layout_char(vk)->0) ==> code is Some && code->0 <= k,
{
    if layout_char(vk) is Some && 0 <= k < layout.len() && k < 128 && layout[k] is Some
        && same_letter(layout[k]->0, layout_char(vk)->0) {
        codes_have_their_chars(vk);
        assert(types_char(layout, k, layout_char(vk)->0));
    }
    if code is Some {
        assert(types_char(layout, code->0 as int, layout_char(vk)->0));
    }
}

// ---------------------------------------------------------------------------
// Keys that have a fixed place on a Mac keyboard.

/// The key codes of F1 to F20.
pub open spec fn function_keycodes() -> Seq<u16> {
    seq![
        0x7Au16,
        0x78u16,
        0x63u16,
        0x76u16,
        0x60u16,
        0x61u16,
        0x62u16,
        0x64u16,
        0x65u16,
        0x6Du16,
        0x67u16,
        0x6Fu16,
        0x69u16,
        0x6Bu16,
        0x71u16,
        0x6Au16,
        0x40u16,
        0x4Fu16,
        0x50u16,
        0x5Au16,
    ]
}

/// The key codes of the digits 0 to 9 of the keypad.
pub open spec fn keypad_keycodes() -> Seq<u16> {
    seq![
        0x52u16,
        0x53u16,
        0x54u16,
        0x55u16,
        0x56u16,
        0x57u16,
        0x58u16,
        0x59u16,
        0x5Bu16,
        0x5Cu16,
    ]
}

/// The other keys that have a fixed place, by virtual-key code and key code:
/// Backspace, Tab, Return, Escape, Space, Page Up, Page Down, End, Home, the arrows
/// left, up, right and down, Insert, Delete, the keypad's multiply, plus, minus and
/// divide, the grave accent and the extra key of ISO keyboards.
pub open spec fn other_keycodes() -> Seq<(i32, u16)> {
    seq![
        (0x08i32, 0x33u16),
        (0x09i32, 0x30u16),
        (0x0Di32, 0x24u16),
        (0x1Bi32, 0x35u16),
        (0x20i32, 0x31u16),
        (0x21i32, 0x74u16),
        (0x22i32, 0x79u16),
        (0x23i32, 0x77u16),
        (0x24i32, 0x73u16),
        (0x25i32, 0x7Bu16),
        (0x26i32, 0x7Eu16),
        (0x27i32, 0x7Cu16),
        (0x28i32, 0x7Du16),
        (0x2Di32, 0x72u16),
        (0x2Ei32, 0x75u16),
        (0x6Ai32, 0x43u16),
        (0x6Bi32, 0x45u16),
        (0x6Di32, 0x4Eu16),
        (0x6Fi32, 0x4Bu16),
        (0xC0i32, 0x32u16),
        (0xE2i32, 0x0Au16),
    ]
}

/// Function keys follow each other from 0x70, keypad digits from 0x60, and both
/// and the other keys are where the keyboard has them. No other code has a fixed
/// place.
pub proof fn fixed_keys_are_in_place(vk: i32)
    ensures
        0x70 <= vk <= 0x83 ==> fixed_keycode(vk) == Some(function_keycodes()[vk - 0x70]),
        0x60 <= vk <= 0x69 ==> fixed_keycode(vk) == Some(keypad_keycodes()[vk - 0x60]),
        forall|k: int|
            0 <= k < other_keycodes().len() && (#[trigger] other_keycodes()[k]).0 == vk
                ==> fixed_keycode(vk) == Some(other_keycodes()[k].1),
        fixed_keycode(vk) is Some ==> {
            ||| 0x70 <= vk <= 0x83
            ||| 0x60 <= vk <= 0x69
            ||| exists|k: int|
                0 <= k < other_keycodes().len() && (#[trigger] other_keycodes()[k]).0 == vk
        },
{
    let o = other_keycodes();
    assert(o[0].0 == 0x08 && o[1].0 == 0x09 && o[2].0 == 0x0D && o[3].0 == 0x1B && o[4].0 == 0x20);
    assert(o[5].0 == 0x21 && o[6].0 == 0x22 && o[7].0 == 0x23 && o[8].0 == 0x24 && o[9].0 == 0x25);
    assert(o[10].0 == 0x26 && o[11].0 == 0x27 && o[12].0 == 0x28 && o[13].0 == 0x2D);
    assert(o[14].0 == 0x2E && o[15].0 == 0x6A && o[16].0 == 0x6B && o[17].0 == 0x6D);
    assert(o[18].0 == 0x6F && o[19].0 == 0xC0 && o[20].0 == 0xE2);
}

// ---------------------------------------------------------------------------
// Keys that are down.

/// Control, Shift, Alt and Meta are down by their bits of the flags, and no other
/// key has a bit.
pub proof fn modifiers_are_down_by_flag(keyboard: KeyboardState, vk: i32)
    ensures
        keyboard.key_down(0x11) == (keyboard.flags & 0x40000u64 != 0),
        keyboard.key_down(0x10) == (keyboard.flags & 0x20000u64 != 0),
        keyboard.key_down(0x12) == (keyboard.flags & 0x80000u64 != 0),
        keyboard.key_down(0x5B) == (keyboard.flags & 0x100000u64 != 0),
        modifier_mask(0x11) == 0x40000,
        modifier_mask(0x10) == 0x20000,
        modifier_mask(0x12) == 0x80000,
        modifier_mask(0x5B) == 0x100000,
        is_modifier(vk) <==> (vk == 0x10 || vk == 0x11 || vk == 0x12 || vk == 0x5B),
        !is_modifier(vk) ==> modifier_mask(vk) == 0,
{
}

/// The mouse buttons left, right, middle, back and forward are down as buttons 0
/// to 4 are listed, whatever else is down.
pub proof fn buttons_are_down_as_listed(keyboard: KeyboardState)
    ensures
        keyboard.key_down(0x01) == (keyboard.buttons@.len() > 0 && keyboard.buttons@[0]),
        keyboard.key_down(0x02) == (keyboard.buttons@.len() > 1 && keyboard.buttons@[1]),
        keyboard.key_down(0x04) == (keyboard.buttons@.len() > 2 && keyboard.buttons@[2]),
        keyboard.key_down(0x05) == (keyboard.buttons@.len() > 3 && keyboard.buttons@[3]),
        keyboard.key_down(0x06) == (keyboard.buttons@.len() > 4 && keyboard.buttons@[4]),
{
}

/// The mouse buttons that codes name: 1, 2, 4, 5 and 6 name buttons 0 to 4.
pub proof fn buttons_have_their_codes(vk: i32)
    ensures
        mouse_button(vk) is Some <==> (vk == 1 || vk == 2 || vk == 4 || vk == 5 || vk == 6),
        mouse_button(vk) is Some ==> mouse_button(vk)->0 == if vk < 3 {
            vk - 1
        } else {
            vk - 2
        },
{
}

/// Every button that is counted is named by a code.
pub proof fn counted_buttons_are_named(number: u32)
    requires
        number < BUTTON_COUNT,
    ensures
        exists|vk: i32| #[trigger] mouse_button(vk) == Some(number),
{
    let vk = if number < 2 {
        (number + 1) as i32
    } else {
        (number + 2) as i32
    };
    assert(mouse_button(vk) == Some(number));
}

/// A key that has a fixed place is down as the key there is listed, whatever else
/// is down.
pub proof fn fixed_keys_are_down_as_listed(keyboard: KeyboardState, vk: i32)
    requires
        fixed_keycode(vk) is Some,
    ensures
        ({
            let code = fixed_keycode(vk)->0 as int;
            keyboard.key_down(vk) == (code < keyboard.keys@.len() && keyboard.keys@[code])
        }),
{
}

/// A key that the layout places is down as the first key that types its character
/// is listed, whatever else is down; it is up if no key types it.
pub proof fn layout_keys_are_down_as_listed(
    keyboard: KeyboardState,
    vk: i32,
    code: Option<u16>,
)
    requires
        layout_char(vk) is Some,
        first_layout_keycode(keyboard.layout@, vk, code),
    ensures
        keyboard.key_down(vk) == (code is Some && code->0 < keyboard.keys@.len()
            && keyboard.keys@[code->0 as int]),
{
    layout_keycode_is_determined(keyboard.layout@, vk, code);
    codes_have_their_chars(vk);
}

/// A key that is no modifier, no mouse button, has no fixed place and is not placed
/// by the layout is never down.
pub proof fn unknown_keys_are_up(keyboard: KeyboardState, vk: i32)
    requires
        vk != 0x10 && vk != 0x11 && vk != 0x12 && vk != 0x5B,
        vk != 0x01 && vk != 0x02 && vk != 0x04 && vk != 0x05 && vk != 0x06,
        fixed_keycode(vk) is None,
        layout_char(vk) is None,
    ensures
        !keyboard.key_down(vk),
{
}

/// Whether a key that is no modifier is down does not depend on the flags, and
/// whether one that is no mouse button is does not depend on the buttons.
pub proof fn keys_are_down_independently(
    keyboard: KeyboardState,
    other: KeyboardState,
    vk: i32,
)
    ensures
        vk != 0x10 && vk != 0x11 && vk != 0x12 && vk != 0x5B && other.buttons == keyboard.buttons
            && other.keys == keyboard.keys && other.layout == keyboard.layout ==> other.key_down(vk)
            == keyboard.key_down(vk),
        vk != 0x01 && vk != 0x02 && vk != 0x04 && vk != 0x05 && vk != 0x06 && other.flags
            == keyboard.flags && other.keys == keyboard.keys && other.layout == keyboard.layout
            ==> other.key_down(vk) == keyboard.key_down(vk),
        fixed_keycode(vk) is Some && other.keys == keyboard.keys ==> other.key_down(vk)
            == keyboard.key_down(vk),
        layout_char(vk) is Some && other.keys == keyboard.keys && other.layout == keyboard.layout
            ==> other.key_down(vk) == keyboard.key_down(vk),
{
    codes_have_their_chars(vk);
    fixed_keys_are_in_place(vk);
}

/// The keys that are down are those that are down one by one.
pub proof fn down_is_each_key_down(keyboard: KeyboardState, vk: i32)
    ensures
        keyboard.down().contains(vk) <==> keyboard.key_down(vk),
{
}

/// A switch is listed as down if it is in the list, and down there.
pub proof fn listed_down_is_in_the_list(switches: Seq<bool>, number: int)
    ensures
        listed_down(switches, number) <==> 0 <= number < switches.len() && switches[number] == true,
{
}

/// The layout matters to a shortcut that has a key which the layout places and
/// whose other keys are all down, and to no other.
pub proof fn layout_matters_to_placed_keys(keys: Seq<i32>, keyboard: KeyboardState)
    ensures
        layout_matters(keys, keyboard) <==> {
            &&& exists|vk: i32| #[trigger] keys.contains(vk) && layout_char(vk) is Some
            &&& forall|vk: i32|
                #[trigger] keys.contains(vk) ==> layout_char(vk) is Some || keyboard.key_down(vk)
        },
{
    if layout_matters(keys, keyboard) {
        let j = choose|j: int| 0 <= j < keys.len() && layout_char(#[trigger] keys[j]) is Some;
        assert(keys.contains(keys[j]));
        assert forall|vk: i32| #[trigger] keys.contains(vk) implies layout_char(vk) is Some
            || keyboard.key_down(vk) by {
            let k = choose|k: int| 0 <= k < keys.len() && keys[k] == vk;
            assert(layout_char(keys[k]) is None ==> keyboard.key_down(keys[k]));
        }
    } else if exists|vk: i32| #[trigger] keys.contains(vk) && layout_char(vk) is Some {
        let vk = choose|vk: i32| #[trigger] keys.contains(vk) && layout_char(vk) is Some;
        let j = choose|j: int| 0 <= j < keys.len() && keys[j] == vk;
        assert(layout_char(keys[j]) is Some);
        let k = choose|k: int|
            0 <= k < keys.len() && layout_char(#[trigger] keys[k]) is None && !keyboard.key_down(
                keys[k],
            );
        assert(keys.contains(keys[k]));
    }
}

// ---------------------------------------------------------------------------
// Keys and buttons by name.

/// What is printed on a key of a US keyboard, if it types a letter, a digit, a
/// space or punctuation.
pub open spec fn printed(key: Key) -> Option<char> {
    match key {
        Key::KeyA => Some('a'),
        Key::KeyB => Some('b'),
        Key::KeyC => Some('c'),
        Key::KeyD => Some('d'),
        Key::KeyE => Some('e'),
        Key::KeyF => Some('f'),
        Key::KeyG => Some('g'),
        Key::KeyH => Some('h'),
        Key::KeyI => Some('i'),
        Key::KeyJ => Some('j'),
        Key::KeyK => Some('k'),
        Key::KeyL => Some('l'),
        Key::KeyM => Some('m'),
        Key::KeyN => Some('n'),
        Key::KeyO => Some('o'),
        Key::KeyP => Some('p'),
        Key::KeyQ => Some('q'),
        Key::KeyR => Some('r'),
        Key::KeyS => Some('s'),
        Key::KeyT => Some('t'),
        Key::KeyU => Some('u'),
        Key::KeyV => Some('v'),
        Key::KeyW => Some('w'),
        Key::KeyX => Some('x'),
        Key::KeyY => Some('y'),
        Key::KeyZ => Some('z'),
        Key::Num0 => Some('0'),
        Key::Num1 => Some('1'),
        Key::Num2 => Some('2'),
        Key::Num3 => Some('3'),
        Key::Num4 => Some('4'),
        Key::Num5 => Some('5'),
        Key::Num6 => Some('6'),
        Key::Num7 => Some('7'),
        Key::Num8 => Some('8'),
        Key::Num9 => Some('9'),
        Key::Space => Some(' '),
        Key::Minus => Some('-'),
        Key::Equal => Some('='),
        Key::LeftBracket => Some('['),
        Key::RightBracket => Some(']'),
        Key::SemiColon => Some(';'),
        Key::Quote => Some('\''),
        Key::Comma => Some(','),
        Key::Dot => Some('.'),
        Key::Slash => Some('/'),
        Key::BackSlash => Some('\\'),
        _ => None,
    }
}

/// The number of a function key.
pub open spec fn function_number(key: Key) -> Option<int> {
    match key {
        Key::F1 => Some(1int),
        Key::F2 => Some(2int),
        Key::F3 => Some(3int),
        Key::F4 => Some(4int),
        Key::F5 => Some(5int),
        Key::F6 => Some(6int),
        Key::F7 => Some(7int),
        Key::F8 => Some(8int),
        Key::F9 => Some(9int),
        Key::F10 => Some(10int),
        Key::F11 => Some(11int),
        Key::F12 => Some(12int),
        Key::F13 => Some(13int),
        Key::F14 => Some(14int),
        Key::F15 => Some(15int),
        Key::F16 => Some(16int),
        Key::F17 => Some(17int),
        Key::F18 => Some(18int),
        Key::F19 => Some(19int),
        Key::F20 => Some(20int),
        _ => None,
    }
}

/// The digit of a key of the keypad.
pub open spec fn keypad_digit(key: Key) -> Option<int> {
    match key {
        Key::Kp0 => Some(0int),
        Key::Kp1 => Some(1int),
        Key::Kp2 => Some(2int),
        Key::Kp3 => Some(3int),
        Key::Kp4 => Some(4int),
        Key::Kp5 => Some(5int),
        Key::Kp6 => Some(6int),
        Key::Kp7 => Some(7int),
        Key::Kp8 => Some(8int),
        Key::Kp9 => Some(9int),
        _ => None,
    }
}

/// The remaining keys that have a code, the two keys of each modifier among them.
pub open spec fn other_keys() -> Seq<(Key, i32)> {
    seq![
        (Key::ShiftLeft, 0x10i32),
        (Key::ShiftRight, 0x10i32),
        (Key::ControlLeft, 0x11i32),
        (Key::ControlRight, 0x11i32),
        (Key::Alt, 0x12i32),
        (Key::AltGr, 0x12i32),
        (Key::MetaLeft, 0x5Bi32),
        (Key::MetaRight, 0x5Bi32),
        (Key::Backspace, 0x08i32),
        (Key::Tab, 0x09i32),
        (Key::Return, 0x0Di32),
        (Key::Escape, 0x1Bi32),
        (Key::PageUp, 0x21i32),
        (Key::PageDown, 0x22i32),
        (Key::End, 0x23i32),
        (Key::Home, 0x24i32),
        (Key::LeftArrow, 0x25i32),
        (Key::UpArrow, 0x26i32),
        (Key::RightArrow, 0x27i32),
        (Key::DownArrow, 0x28i32),
        (Key::Insert, 0x2Di32),
        (Key::Delete, 0x2Ei32),
        (Key::KpMultiply, 0x6Ai32),
        (Key::KpPlus, 0x6Bi32),
        (Key::KpMinus, 0x6Di32),
        (Key::KpDivide, 0x6Fi32),
        (Key::BackQuote, 0xC0i32),
        (Key::IntlBackslash, 0xE2i32),
    ]
}

/// A key that types a character has the virtual-key code of that character, a
/// function key and a digit of the keypad have a code by their number, and the
/// remaining keys have theirs.
pub proof fn keys_have_their_codes(key: Key)
    ensures
        printed(key) is Some ==> vk_of_key(key) is Some && vk_of_key(key) == vk_of_char(
            printed(key)->0,
        ),
        function_number(key) is Some ==> vk_of_key(key) is Some && vk_of_key(key)->0 == 0x6F
            + function_number(key)->0,
        keypad_digit(key) is Some ==> vk_of_key(key) is Some && vk_of_key(key)->0 == 0x60
            + keypad_digit(key)->0,
        forall|k: int|
            0 <= k < other_keys().len() && (#[trigger] other_keys()[k]).0 == key ==> vk_of_key(key)
                == Some(other_keys()[k].1),
{
}

/// No key has a code but those that type a character, the function keys, the digits
/// of the keypad and the remaining keys.
pub proof fn other_keys_have_no_code(key: Key)
    requires
        key is Unknown || key is CapsLock || key is PrintScreen || key is ScrollLock || key is Pause
            || key is NumLock || key is KpReturn || key is KpDelete || key is Function,
    ensures
        vk_of_key(key) is None,
{
}

/// The codes of the mouse buttons left, right and middle, and of X11's buttons 8
/// and 9. No other button has a code.
pub proof fn buttons_have_their_vks(number: u8)
    ensures
        vk_of_button(Button::Left) == Some(0x01i32),
        vk_of_button(Button::Right) == Some(0x02i32),
        vk_of_button(Button::Middle) == Some(0x04i32),
        vk_of_button(Button::Unknown(number)) is Some <==> 8 <= number <= 9,
        8 <= number <= 9 ==> vk_of_button(Button::Unknown(number))->0 == number - 3,
{
}

/// A press and a release of a key or button are about the same code and differ in
/// nothing but which it is. Those without a code, mouse moves and the wheel are
/// about nothing.
pub proof fn events_are_about_their_key(key: Key, button: Button, delta_x: i64, delta_y: i64)
    ensures
        input_of(Event { event_type: EventType::KeyPress(key) }) == match vk_of_key(key) {
            Some(vk) => Some((vk, true)),
            None => None,
        },
        input_of(Event { event_type: EventType::KeyRelease(key) }) == match vk_of_key(key) {
            Some(vk) => Some((vk, false)),
            None => None,
        },
        input_of(Event { event_type: EventType::ButtonPress(button) }) == match vk_of_button(
            button,
        ) {
            Some(vk) => Some((vk, true)),
            None => None,
        },
        input_of(Event { event_type: EventType::ButtonRelease(button) }) == match vk_of_button(
            button,
        ) {
            Some(vk) => Some((vk, false)),
            None => None,
        },
        input_of(Event { event_type: EventType::MouseMove }) is None,
        input_of(Event { event_type: EventType::Wheel { delta_x, delta_y } }) is None,
{
}

/// The codes 191 to 198 are F13 to F20 in order, and every other code is unknown.
pub proof fn codes_name_function_keys(code: u32)
    ensures
        191 <= code <= 198 ==> function_number(key_with_code(code)) == Some(code - 178),
        !(191 <= code <= 198) ==> key_with_code(code) == Key::Unknown(code),
{
}

} // verus!
