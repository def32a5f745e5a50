//! Shortcut bindings, the keys they are made of, and the events they cause.
//!
//! Keys are identified by Windows virtual-key codes on every platform.

use vstd::prelude::*;

verus! {

/// Virtual-key code of Shift.
pub const VK_SHIFT: i32 = 0x10;

/// Virtual-key code of Control.
pub const VK_CONTROL: i32 = 0x11;

/// Virtual-key code of Alt.
pub const VK_ALT: i32 = 0x12;

/// Virtual-key code of Meta: the Windows, Super or Command key.
pub const VK_META: i32 = 0x5B;

/// One shortcut: the keys that have to be held together.
#[derive(Debug)]
pub struct Binding {
    pub keys: Vec<i32>,
}

/// What happened to a shortcut.
#[derive(Clone, Copy, Debug, PartialEq, Eq, Structural)]
pub enum KeyEventType {
    Pressed,
    Released,
}

/// A shortcut that was pressed or released, by its position among the bindings.
#[derive(Clone, Copy, Debug, PartialEq, Eq, Structural)]
pub struct ShortcutEvent {
    pub binding: usize,
    pub event_type: KeyEventType,
}

/// The key lists of a sequence of bindings.
pub open spec fn key_lists(bindings: Seq<Binding>) -> Seq<Seq<i32>> {
    Seq::new(bindings.len(), |i: int| bindings[i].keys@)
}

/// Whether a virtual-key code is one of Control, Shift, Alt and Meta.
pub open spec fn is_modifier(vk: i32) -> bool {
    vk == VK_CONTROL || vk == VK_SHIFT || vk == VK_ALT || vk == VK_META
}

/// Every key of the list is down.
pub open spec fn all_down(keys: Seq<i32>, down: Set<i32>) -> bool {
    forall|j: int| 0 <= j < keys.len() ==> down.contains(#[trigger] keys[j])
}

/// Some modifier is down that the list does not name.
pub open spec fn extra_modifier(keys: Seq<i32>, down: Set<i32>) -> bool {
    exists|m: i32| #[trigger] is_modifier(m) && down.contains(m) && !keys.contains(m)
}

/// There are four modifiers, so an extra one is one of these four.
pub(crate) proof fn lemma_extra_modifier(keys: Seq<i32>, down: Set<i32>)
    ensures
        extra_modifier(keys, down) <==> {
            ||| down.contains(VK_CONTROL) && !keys.contains(VK_CONTROL)
            ||| down.contains(VK_SHIFT) && !keys.contains(VK_SHIFT)
            ||| down.contains(VK_ALT) && !keys.contains(VK_ALT)
            ||| down.contains(VK_META) && !keys.contains(VK_META)
        },
{
    assert(is_modifier(VK_CONTROL));
    assert(is_modifier(VK_SHIFT));
    assert(is_modifier(VK_ALT));
    assert(is_modifier(VK_META));
}

/// Whether `key` is one of the binding's keys.
pub(crate) fn names_key(keys: &Vec<i32>, key: i32) -> (r: bool)
    ensures
        r == keys@.contains(key),
{
    let mut i: usize = 0;
    while i < keys.len()
        invariant
            i <= keys.len(),
            forall|j: int| 0 <= j < i ==> keys@[j] != key,
        decreases keys.len() - i,
    {
        if keys[i] == key {
            assert(keys@[i as int] == key);
            return true;
        }
        i += 1;
    }
    false
}

} // verus!
