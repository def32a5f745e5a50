//! Laws of the key tables.

use vstd::prelude::*;

#[allow(unused_imports)]
use crate::binding::is_modifier;
#[allow(unused_imports)]
use crate::input::{vk_of_button, vk_of_key, Button, Key};
#[allow(unused_imports)]
use crate::keyboard::{mouse_button, BUTTON_COUNT};
#[allow(unused_imports)]
use crate::keymap::{
    ascii_lower, first_layout_keycode, fixed_keycode, layout_char, types_char, vk_of_char,
    KEYCODE_COUNT,
};

verus! {

/// The character of a virtual-key code is typed by that code.
pub proof fn char_of_vk_maps_back(vk: i32)
    requires
        layout_char(vk) is Some,
    ensures
        vk_of_char(layout_char(vk)->0) == Some(vk),
{
}

/// The virtual-key code of a character other than the space stands for that
/// character, in lower case.
pub proof fn vk_of_char_maps_back(c: char)
    requires
        vk_of_char(c) is Some,
        c != ' ',
    ensures
        layout_char(vk_of_char(c)->0) == Some(ascii_lower(c)),
{
}

/// Upper and lower case of a letter have the same virtual-key code.
pub proof fn vk_of_char_ignores_case(c: char)
    ensures
        vk_of_char(ascii_lower(c)) == vk_of_char(c),
{
}

/// No two virtual-key codes share a key that has a fixed place, and every such
/// key is a key of the keyboard.
pub proof fn fixed_keycodes_are_distinct(vk1: i32, vk2: i32)
    requires
        fixed_keycode(vk1) is Some,
        fixed_keycode(vk1) == fixed_keycode(vk2),
    ensures
        vk1 == vk2,
        fixed_keycode(vk1)->0 < KEYCODE_COUNT,
{
}

/// Where a virtual-key code is found is determined by the layout.
pub proof fn layout_keycode_is_determined(layout: Seq<Option<char>>, vk: i32, code: Option<u16>)
    requires
        first_layout_keycode(layout, vk, code),
    ensures
        forall|other: Option<u16>| #[trigger]
            first_layout_keycode(layout, vk, other) ==> other == code,
{
}

/// The mouse buttons that virtual-key codes name are those that are numbered below
/// the count of buttons, each named by one code.
pub proof fn mouse_buttons_are_counted(vk1: i32, vk2: i32)
    requires
        mouse_button(vk1) is Some,
    ensures
        mouse_button(vk1)->0 < BUTTON_COUNT,
        mouse_button(vk1) == mouse_button(vk2) ==> vk1 == vk2,
{
}

/// No two virtual-key codes are found at the same key of a layout.
pub proof fn layout_keycodes_are_distinct(
    layout: Seq<Option<char>>,
    vk1: i32,
    vk2: i32,
    code: u16,
)
    requires
        first_layout_keycode(layout, vk1, Some(code)),
        first_layout_keycode(layout, vk2, Some(code)),
    ensures
        vk1 == vk2,
{
    char_of_vk_maps_back(vk1);
    char_of_vk_maps_back(vk2);
}

/// A key whose character some key of the layout types is found.
pub proof fn typed_chars_are_found(
    layout: Seq<Option<char>>,
    vk: i32,
    code: Option<u16>,
    witness: u16,
)
    requires
        first_layout_keycode(layout, vk, code),
        layout_char(vk) is Some,
        witness < KEYCODE_COUNT,
        witness < layout.len(),
        types_char(layout, witness as int, layout_char(vk)->0),
    ensures
        code is Some,
        code->0 <= witness,
{
}

/// A virtual-key code is a modifier, a mouse button, a key that has a fixed place
/// or a key that depends on the layout, and never two of these.
pub proof fn key_classes_are_disjoint(vk: i32)
    ensures
        is_modifier(vk) ==> mouse_button(vk) is None && fixed_keycode(vk) is None && layout_char(
            vk,
        ) is None,
        mouse_button(vk) is Some ==> fixed_keycode(vk) is None && layout_char(vk) is None,
        fixed_keycode(vk) is Some ==> layout_char(vk) is None,
{
}

/// Every key that the listener knows can be looked up on a Mac keyboard.
pub proof fn listened_keys_can_be_polled(key: Key)
    requires
        vk_of_key(key) is Some,
    ensures
        ({
            let vk = vk_of_key(key)->0;
            is_modifier(vk) || fixed_keycode(vk) is Some || layout_char(vk) is Some
        }),
{
}

/// Every mouse button that the listener knows can be looked up on a Mac.
pub proof fn listened_buttons_can_be_polled(button: Button)
    requires
        vk_of_button(button) is Some,
    ensures
        mouse_button(vk_of_button(button)->0) is Some,
{
}

/// Only the two keys of a modifier share a virtual-key code.
pub proof fn keys_are_distinct(key1: Key, key2: Key)
    requires
        vk_of_key(key1) is Some,
        vk_of_key(key1) == vk_of_key(key2),
    ensures
        key1 == key2 || is_modifier(vk_of_key(key1)->0),
{
}

/// No two mouse buttons share a virtual-key code, and none shares one with a key.
pub proof fn buttons_are_distinct(button1: Button, button2: Button, key: Key)
    requires
        vk_of_button(button1) is Some,
    ensures
        vk_of_button(button1) == vk_of_button(button2) ==> button1 == button2,
        vk_of_key(key) != vk_of_button(button1),
{
}

} // verus!
