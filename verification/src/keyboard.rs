//! The state of a Mac keyboard and mouse, and which keys are down in it.

use vstd::prelude::*;

use crate::binding::{VK_ALT, VK_CONTROL, VK_META, VK_SHIFT};
#[allow(unused_imports)]
use crate::binding::is_modifier;
#[allow(unused_imports)]
use crate::key_laws::layout_keycode_is_determined;
use crate::keymap::{find_layout_keycode, vk_to_fixed_keycode};
#[allow(unused_imports)]
use crate::keymap::{first_layout_keycode, fixed_keycode};

verus! {

/// The bit of the modifier flags that is set while Shift is held.
pub const FLAG_MASK_SHIFT: u64 = 0x00020000;

/// The bit of the modifier flags that is set while Control is held.
pub const FLAG_MASK_CONTROL: u64 = 0x00040000;

/// The bit of the modifier flags that is set while Option is held.
pub const FLAG_MASK_ALTERNATE: u64 = 0x00080000;

/// The bit of the modifier flags that is set while Command is held.
pub const FLAG_MASK_COMMAND: u64 = 0x00100000;

/// The mouse buttons that can be part of a shortcut are numbered below this:
/// left, right, middle, back and forward.
pub const BUTTON_COUNT: u32 = 5;

/// What the system reports of the keyboard and the mouse at one moment: the
/// modifier flags, the mouse buttons and keys that are down, and the character
/// that each key types. Buttons and keys are found by their number; one that is
/// not listed is up, or types nothing.
#[derive(Debug)]
pub struct KeyboardState {
    pub flags: u64,
    pub buttons: Vec<bool>,
    pub keys: Vec<bool>,
    pub layout: Vec<Option<char>>,
}

/// The number of the mouse button that a virtual-key code names.
pub open spec fn mouse_button(vk: i32) -> Option<u32> {
    match vk {
        0x01 => Some(0),
        0x02 => Some(1),
        0x04 => Some(2),
        0x05 => Some(3),
        0x06 => Some(4),
        _ => None,
    }
}

/// The flag of a modifier; no flag for any other key.
pub open spec fn modifier_mask(vk: i32) -> u64 {
    if vk == VK_CONTROL {
        FLAG_MASK_CONTROL
    } else if vk == VK_SHIFT {
        FLAG_MASK_SHIFT
    } else if vk == VK_ALT {
        FLAG_MASK_ALTERNATE
    } else if vk == VK_META {
        FLAG_MASK_COMMAND
    } else {
        0
    }
}

/// The switch of the given number is listed as down.
pub open spec fn listed_down(switches: Seq<bool>, number: int) -> bool {
    0 <= number < switches.len() && switches[number]
}

impl KeyboardState {
    /// The key of the given virtual-key code is down. A modifier is down if its
    /// flag is set, a mouse button and a key that has a fixed place if they are
    /// listed as down, and any other key if the first key that types its
    /// character is.
    pub open spec fn key_down(&self, vk: i32) -> bool {
        if is_modifier(vk) {
            self.flags & modifier_mask(vk) != 0
        } else if let Some(button) = mouse_button(vk) {
            listed_down(self.buttons@, button as int)
        } else if let Some(code) = fixed_keycode(vk) {
            listed_down(self.keys@, code as int)
        } else {
            exists|code: u16|
                #[trigger] first_layout_keycode(self.layout@, vk, Some(code)) && listed_down(
                    self.keys@,
                    code as int,
                )
        }
    }

    /// The virtual-key codes of all keys that are down.
    pub open spec fn down(&self) -> Set<i32> {
        Set::new(|vk: i32| self.key_down(vk))
    }
}

/// Whether the switch of the given number is listed as down.
fn is_listed_down(switches: &Vec<bool>, number: usize) -> (r: bool)
    ensures
        r == listed_down(switches@, number as int),
{
    number < switches.len() && switches[number]
}

/// Whether the modifier of the given virtual-key code is held, by the system's
/// modifier flags. A key that is no modifier is not.
pub fn is_modifier_pressed(vk: i32, flags: u64) -> (r: bool)
    ensures
        r == (is_modifier(vk) && flags & modifier_mask(vk) != 0),
{
    match vk {
        VK_CONTROL => flags & FLAG_MASK_CONTROL != 0,
        VK_SHIFT => flags & FLAG_MASK_SHIFT != 0,
        VK_ALT => flags & FLAG_MASK_ALTERNATE != 0,
        VK_META => flags & FLAG_MASK_COMMAND != 0,
        _ => false,
    }
}

/// The number of the mouse button that a virtual-key code names
/// (0 left, 1 right, 2 middle, 3 back, 4 forward).
fn vk_to_mouse_button(vk: i32) -> (r: Option<u32>)
    ensures
        r == mouse_button(vk),
{
    match vk {
        0x01 => Some(0),
        0x02 => Some(1),
        0x04 => Some(2),
        0x05 => Some(3),
        0x06 => Some(4),
        _ => None,
    }
}

/// Whether the key of the given virtual-key code is down.
pub fn is_key_pressed(vk: i32, keyboard: &KeyboardState) -> (r: bool)
    ensures
        r == keyboard.key_down(vk),
{
    if vk == VK_CONTROL || vk == VK_SHIFT || vk == VK_ALT || vk == VK_META {
        return is_modifier_pressed(vk, keyboard.flags);
    }
    if let Some(button) = vk_to_mouse_button(vk) {
        return is_listed_down(&keyboard.buttons, button as usize);
    }
    // Keys that have a fixed place.
    if let Some(keycode) = vk_to_fixed_keycode(vk) {
        return is_listed_down(&keyboard.keys, keycode as usize);
    }
    // Keys whose place depends on the layout.
    if let Some(keycode) = find_layout_keycode(vk, keyboard.layout.as_slice()) {
        let r: bool = is_listed_down(&keyboard.keys, keycode as usize);
        proof {
            layout_keycode_is_determined(keyboard.layout@, vk, Some(keycode));
        }
        return r;
    }
    proof {
        layout_keycode_is_determined(keyboard.layout@, vk, None);
    }
    false
}

} // verus!
