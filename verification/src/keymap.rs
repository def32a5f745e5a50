//! Virtual-key codes, characters and macOS key codes.

use vstd::prelude::*;

verus! {

/// `c`, in lower case if it is one of the letters `A` to `Z`.
pub open spec fn ascii_lower(c: char) -> char {
    if 'A' <= c && c <= 'Z' {
        ((c as u32) + 32) as char
    } else {
        c
    }
}

/// `char::to_ascii_lowercase`: `A` to `Z` become `a` to `z`, and every other
/// character stays as it is.
pub assume_specification[ char::to_ascii_lowercase ](c: &char) -> (r: char)
    ensures
        r == ascii_lower(*c),
;

/// The key codes of a Mac keyboard lie below this one.
pub const KEYCODE_COUNT: u16 = 128;

/// The character that a key of the given virtual-key code stands for, where the
/// layout decides which physical key that is.
pub open spec fn layout_char(vk: i32) -> Option<char> {
    if 0x41 <= vk <= 0x5A {
        Some((vk - 0x41 + 'a' as int) as char)
    } else if 0x30 <= vk <= 0x39 {
        Some(vk as char)
    } else {
        match vk {
            0xBA => Some(';'),
            0xBB => Some('='),
            0xBC => Some(','),
            0xBD => Some('-'),
            0xBE => Some('.'),
            0xBF => Some('/'),
            0xDB => Some('['),
            0xDC => Some('\\'),
            0xDD => Some(']'),
            0xDE => Some('\''),
            _ => None,
        }
    }
}

/// The virtual-key code that types `c`, letters in either case.
pub open spec fn vk_of_char(c: char) -> Option<i32> {
    if c == ' ' {
        Some(0x20)
    } else if 'A' <= c && c <= 'Z' {
        Some(c as i32)
    } else if 'a' <= c && c <= 'z' {
        Some((c as i32 - 32) as i32)
    } else if '0' <= c && c <= '9' {
        Some(c as i32)
    } else {
        match c {
            ';' => Some(0xBA),
            '=' => Some(0xBB),
            ',' => Some(0xBC),
            '-' => Some(0xBD),
            '.' => Some(0xBE),
            '/' => Some(0xBF),
            '[' => Some(0xDB),
            '\\' => Some(0xDC),
            ']' => Some(0xDD),
            '\'' => Some(0xDE),
            _ => None,
        }
    }
}

/// The key code of a key that sits in the same place on every Mac keyboard.
pub open spec fn fixed_keycode(vk: i32) -> Option<u16> {
    match vk {
        // Editing and navigation.
        0x08 => Some(0x33),
        0x09 => Some(0x30),
        0x0D => Some(0x24),
        0x1B => Some(0x35),
        0x20 => Some(0x31),
        0x21 => Some(0x74),
        0x22 => Some(0x79),
        0x23 => Some(0x77),
        0x24 => Some(0x73),
        0x25 => Some(0x7B),
        0x26 => Some(0x7E),
        0x27 => Some(0x7C),
        0x28 => Some(0x7D),
        0x2D => Some(0x72),
        0x2E => Some(0x75),
        // The numeric keypad.
        0x60 => Some(0x52),
        0x61 => Some(0x53),
        0x62 => Some(0x54),
        0x63 => Some(0x55),
        0x64 => Some(0x56),
        0x65 => Some(0x57),
        0x66 => Some(0x58),
        0x67 => Some(0x59),
        0x68 => Some(0x5B),
        0x69 => Some(0x5C),
        0x6A => Some(0x43),
        0x6B => Some(0x45),
        0x6D => Some(0x4E),
        0x6F => Some(0x4B),
        // F1 to F20.
        0x70 => Some(0x7A),
        0x71 => Some(0x78),
        0x72 => Some(0x63),
        0x73 => Some(0x76),
        0x74 => Some(0x60),
        0x75 => Some(0x61),
        0x76 => Some(0x62),
        0x77 => Some(0x64),
        0x78 => Some(0x65),
        0x79 => Some(0x6D),
        0x7A => Some(0x67),
        0x7B => Some(0x6F),
        0x7C => Some(0x69),
        0x7D => Some(0x6B),
        0x7E => Some(0x71),
        0x7F => Some(0x6A),
        0x80 => Some(0x40),
        0x81 => Some(0x4F),
        0x82 => Some(0x50),
        0x83 => Some(0x5A),
        // The grave accent, and the extra key of ISO keyboards.
        0xC0 => Some(0x32),
        0xE2 => Some(0x0A),
        _ => None,
    }
}

/// The key of code `code` types `target`, in either case, under the given layout.
pub open spec fn types_char(layout: Seq<Option<char>>, code: int, target: char) -> bool {
    layout[code] is Some && ascii_lower(layout[code]->0) == target
}

/// `code` is the first key that types the character of `vk`, or there is none.
pub open spec fn first_layout_keycode(
    layout: Seq<Option<char>>,
    vk: i32,
    code: Option<u16>,
) -> bool {
    match (layout_char(vk), code) {
        (None, _) => code is None,
        (Some(target), None) => forall|k: int|
            0 <= k < KEYCODE_COUNT && k < layout.len() ==> !#[trigger] types_char(layout, k, target),
        (Some(target), Some(found)) => {
            &&& found < KEYCODE_COUNT
            &&& found < layout.len()
            &&& types_char(layout, found as int, target)
            &&& forall|k: int| 0 <= k < found ==> !#[trigger] types_char(layout, k, target)
        },
    }
}

/// Map a VK code to the macOS physical keycode for layout-independent keys.
/// Returns `None` for the keys whose place depends on the layout (letters, digits
/// and punctuation) and for codes that no key of a Mac keyboard has.
pub fn vk_to_fixed_keycode(vk: i32) -> (r: Option<u16>)
    ensures
        r == fixed_keycode(vk),
{
    match vk {
        0x20 => Some(0x31),  // Space
        0x0D => Some(0x24),  // Return
        0x1B => Some(0x35),  // Escape
        0x09 => Some(0x30),  // Tab
        0x08 => Some(0x33),  // Backspace
        0x2E => Some(0x75),  // Forward Delete
        0x2D => Some(0x72),  // Insert (Help on Mac)
        0x24 => Some(0x73),  // Home
        0x23 => Some(0x77),  // End
        0x21 => Some(0x74),  // Page Up
        0x22 => Some(0x79),  // Page Down
        0x26 => Some(0x7E),  // Up Arrow
        0x28 => Some(0x7D),  // Down Arrow
        0x25 => Some(0x7B),  // Left Arrow
        0x27 => Some(0x7C),  // Right Arrow
        0xC0 => Some(0x32),  // BackQuote/Grave
        0xE2 => Some(0x0A),  // IntlBackslash (ISO keyboards)
        // F-keys
        0x70 => Some(0x7A),  // F1
        0x71 => Some(0x78),  // F2
        0x72 => Some(0x63),  // F3
        0x73 => Some(0x76),  // F4
        0x74 => Some(0x60),  // F5
        0x75 => Some(0x61),  // F6
        0x76 => Some(0x62),  // F7
        0x77 => Some(0x64),  // F8
        0x78 => Some(0x65),  // F9
        0x79 => Some(0x6D),  // F10
        0x7A => Some(0x67),  // F11
        0x7B => Some(0x6F),  // F12
        0x7C => Some(0x69),  // F13
        0x7D => Some(0x6B),  // F14
        0x7E => Some(0x71),  // F15
        0x7F => Some(0x6A),  // F16
        0x80 => Some(0x40),  // F17
        0x81 => Some(0x4F),  // F18
        0x82 => Some(0x50),  // F19
        0x83 => Some(0x5A),  // F20
        // Numpad
        0x60 => Some(0x52),  // Numpad 0
        0x61 => Some(0x53),  // Numpad 1
        0x62 => Some(0x54),  // Numpad 2
        0x63 => Some(0x55),  // Numpad 3
        0x64 => Some(0x56),  // Numpad 4
        0x65 => Some(0x57),  // Numpad 5
        0x66 => Some(0x58),  // Numpad 6
        0x67 => Some(0x59),  // Numpad 7
        0x68 => Some(0x5B),  // Numpad 8
        0x69 => Some(0x5C),  // Numpad 9
        0x6A => Some(0x43),  // Numpad Multiply
        0x6B => Some(0x45),  // Numpad Plus
        0x6D => Some(0x4E),  // Numpad Minus
        0x6F => Some(0x4B),  // Numpad Divide
        _ => None,
    }
}

/// Map a character to its Windows VK code.
pub fn char_to_vk(c: char) -> (r: Option<i32>)
    ensures
        r == vk_of_char(c),
{
    match c.to_ascii_lowercase() {
        'a' => Some(0x41),
        'b' => Some(0x42),
        'c' => Some(0x43),
        'd' => Some(0x44),
        'e' => Some(0x45),
        'f' => Some(0x46),
        'g' => Some(0x47),
        'h' => Some(0x48),
        'i' => Some(0x49),
        'j' => Some(0x4A),
        'k' => Some(0x4B),
        'l' => Some(0x4C),
        'm' => Some(0x4D),
        'n' => Some(0x4E),
        'o' => Some(0x4F),
        'p' => Some(0x50),
        'q' => Some(0x51),
        'r' => Some(0x52),
        's' => Some(0x53),
        't' => Some(0x54),
        'u' => Some(0x55),
        'v' => Some(0x56),
        'w' => Some(0x57),
        'x' => Some(0x58),
        'y' => Some(0x59),
        'z' => Some(0x5A),
        '0' => Some(0x30),
        '1' => Some(0x31),
        '2' => Some(0x32),
        '3' => Some(0x33),
        '4' => Some(0x34),
        '5' => Some(0x35),
        '6' => Some(0x36),
        '7' => Some(0x37),
        '8' => Some(0x38),
        '9' => Some(0x39),
        ' ' => Some(0x20),
        '-' => Some(0xBD),
        '=' => Some(0xBB),
        '[' => Some(0xDB),
        ']' => Some(0xDD),
        ';' => Some(0xBA),
        '\'' => Some(0xDE),
        ',' => Some(0xBC),
        '.' => Some(0xBE),
        '/' => Some(0xBF),
        '\\' => Some(0xDC),
        _ => None,
    }
}

/// The character that a key of the given virtual-key code stands for.
pub(crate) fn target_char(vk: i32) -> (r: Option<char>)
    ensures
        r == layout_char(vk),
{
    match vk {
        0x41..=0x5A => Some((0x61 + (vk - 0x41) as u8) as char),
        0x30..=0x39 => Some((0x30 + (vk - 0x30) as u8) as char),
        0xBD => Some('-'),
        0xBB => Some('='),
        0xDB => Some('['),
        0xDD => Some(']'),
        0xBA => Some(';'),
        0xDE => Some('\''),
        0xBC => Some(','),
        0xBE => Some('.'),
        0xBF => Some('/'),
        0xDC => Some('\\'),
        _ => None,
    }
}

/// Find the macOS physical keycode for a layout-dependent VK code: the first key
/// that produces the character of the given VK code. `layout` gives the
/// character that each key produces, by key code.
pub fn find_layout_keycode(vk: i32, layout: &[Option<char>]) -> (r: Option<u16>)
    ensures
        first_layout_keycode(layout@, vk, r),
{
    let target: char = match target_char(vk) {
        Some(c) => c,
        None => return None,
    };
    let mut keycode: u16 = 0;
    while keycode < KEYCODE_COUNT && (keycode as usize) < layout.len()
        invariant
            keycode <= KEYCODE_COUNT,
            keycode <= layout.len(),
            layout_char(vk) == Some(target),
            forall|k: int| 0 <= k < keycode ==> !#[trigger] types_char(layout@, k, target),
        decreases KEYCODE_COUNT - keycode,
    {
        if let Some(c) = layout[keycode as usize] {
            if c.to_ascii_lowercase() == target {
                assert(types_char(layout@, keycode as int, target));
                return Some(keycode);
            }
        }
        keycode += 1;
    }
    None
}

} // verus!
