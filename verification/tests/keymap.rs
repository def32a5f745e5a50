use shortcuts::keymap::{char_to_vk, find_layout_keycode, vk_to_fixed_keycode};

#[test]
fn fixed_keys() {
    let table = [
        (0x20, 0x31),
        (0x0D, 0x24),
        (0x1B, 0x35),
        (0x09, 0x30),
        (0x08, 0x33),
        (0x2E, 0x75),
        (0x2D, 0x72),
        (0x24, 0x73),
        (0x23, 0x77),
        (0x21, 0x74),
        (0x22, 0x79),
        (0x26, 0x7E),
        (0x28, 0x7D),
        (0x25, 0x7B),
        (0x27, 0x7C),
        (0xC0, 0x32),
        (0xE2, 0x0A),
        (0x70, 0x7A),
        (0x7B, 0x6F),
        (0x83, 0x5A),
        (0x60, 0x52),
        (0x67, 0x59),
        (0x68, 0x5B),
        (0x6F, 0x4B),
    ];
    for (vk, code) in table {
        assert_eq!(vk_to_fixed_keycode(vk), Some(code), "{:#x}", vk);
    }
}

#[test]
fn other_keys_are_not_fixed() {
    for vk in [0x41, 0x30, 0xBD, 0x11, 0x01, 0x6C, 0x6E, 0x84, 0, -1, i32::MAX, i32::MIN] {
        assert_eq!(vk_to_fixed_keycode(vk), None, "{:#x}", vk);
    }
}

#[test]
fn fixed_keys_are_distinct() {
    let mut seen = Vec::new();
    for vk in -1..0x200 {
        if let Some(code) = vk_to_fixed_keycode(vk) {
            assert!(code < 128);
            assert!(!seen.contains(&code), "{:#x}", vk);
            seen.push(code);
        }
    }
    assert_eq!(seen.len(), 51);
}

#[test]
fn characters_have_virtual_key_codes() {
    for (i, c) in ('a'..='z').enumerate() {
        assert_eq!(char_to_vk(c), Some(0x41 + i as i32));
        assert_eq!(char_to_vk(c.to_ascii_uppercase()), Some(0x41 + i as i32));
    }
    for (i, c) in ('0'..='9').enumerate() {
        assert_eq!(char_to_vk(c), Some(0x30 + i as i32));
    }
    let table = [
        (' ', 0x20),
        ('-', 0xBD),
        ('=', 0xBB),
        ('[', 0xDB),
        (']', 0xDD),
        (';', 0xBA),
        ('\'', 0xDE),
        (',', 0xBC),
        ('.', 0xBE),
        ('/', 0xBF),
        ('\\', 0xDC),
    ];
    for (c, vk) in table {
        assert_eq!(char_to_vk(c), Some(vk));
    }
    for c in ['`', '@', '\u{e4}', '\u{c4}', '\u{212a}', '\n', '\u{1F600}'] {
        assert_eq!(char_to_vk(c), None);
    }
}

/// A layout on which key 0 types `q` and key 12 types `a`.
fn azerty() -> Vec<Option<char>> {
    let mut layout = vec![None; 128];
    layout[0] = Some('q');
    layout[12] = Some('a');
    layout[6] = Some('w');
    layout[29] = Some('\u{e0}');
    layout
}

#[test]
fn layout_decides_where_a_letter_is() {
    let layout = azerty();
    assert_eq!(find_layout_keycode(0x41, &layout), Some(12));
    assert_eq!(find_layout_keycode(0x51, &layout), Some(0));
    assert_eq!(find_layout_keycode(0x57, &layout), Some(6));
    assert_eq!(find_layout_keycode(0x5A, &layout), None);
}

#[test]
fn first_key_in_either_case_is_found() {
    let mut layout = azerty();
    layout[3] = Some('A');
    layout[100] = Some('A');
    assert_eq!(find_layout_keycode(0x41, &layout), Some(3));
}

#[test]
fn every_layout_dependent_code_is_found_by_its_character() {
    let mut layout: Vec<Option<char>> = vec![None; 128];
    let chars: Vec<char> = ('a'..='z').chain('0'..='9').chain("-=[];',./\\".chars()).collect();
    for (i, c) in chars.iter().enumerate() {
        layout[127 - i] = Some(*c);
    }
    for (i, c) in chars.iter().enumerate() {
        let vk = char_to_vk(*c).unwrap();
        assert_eq!(find_layout_keycode(vk, &layout), Some(127 - i as u16), "{}", c);
        assert_eq!(vk_to_fixed_keycode(vk), None);
    }
}

#[test]
fn codes_without_a_character_are_not_found() {
    let layout = vec![Some(' '); 128];
    for vk in [0x20, 0x11, 0x40, 0x5B, 0x2F, 0x3A, 0xC0, 0xE2, 0, -1, 0x141] {
        assert_eq!(find_layout_keycode(vk, &layout), None);
    }
}

#[test]
fn only_the_first_128_keys_are_searched() {
    let mut layout = vec![None; 200];
    layout[128] = Some('a');
    assert_eq!(find_layout_keycode(0x41, &layout), None);
    layout[127] = Some('a');
    assert_eq!(find_layout_keycode(0x41, &layout), Some(127));
    assert_eq!(find_layout_keycode(0x41, &[]), None);
}
