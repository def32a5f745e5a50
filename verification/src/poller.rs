//! Shortcuts driven by polling: the state of the whole keyboard is looked at
//! again and again.

#[allow(unused_imports)]
use std::time::Instant;
use vstd::prelude::*;

use crate::binding::{names_key, Binding, KeyEventType, ShortcutEvent};
use crate::binding::{VK_ALT, VK_CONTROL, VK_META, VK_SHIFT};
#[allow(unused_imports)]
use crate::binding::{all_down, extra_modifier, key_lists, lemma_extra_modifier};
use crate::clock::Clock;
use crate::keyboard::{is_key_pressed, is_modifier_pressed, KeyboardState};
#[allow(unused_imports)]
use crate::keymap::layout_char;
use crate::keymap::target_char;
use crate::tracker::PressTracker;
#[allow(unused_imports)]
use crate::tracker::{poll_step, Tracking};

verus! {

/// The pause between two looks at the keyboard, in milliseconds.
pub const POLL_INTERVAL_MILLIS: u64 = 32;

/// A look at the keyboard. While shortcuts are suspended nothing is looked for
/// and nothing changes.
pub open spec fn polled(
    before: Tracking,
    suspended: bool,
    bindings: Seq<Seq<i32>>,
    down: Set<i32>,
    now: int,
    after: Tracking,
    event: Option<ShortcutEvent>,
) -> bool {
    if suspended {
        after == before && event is None
    } else {
        poll_step(before, bindings, down, now, after, event)
    }
}

/// Whether all keys of a binding are down.
fn all_pressed(keys: &Vec<i32>, keyboard: &KeyboardState) -> (r: bool)
    ensures
        r == all_down(keys@, keyboard.down()),
{
    let mut j: usize = 0;
    while j < keys.len()
        invariant
            j <= keys.len(),
            forall|k: int| 0 <= k < j ==> keyboard.down().contains(#[trigger] keys@[k]),
        decreases keys.len() - j,
    {
        if !is_key_pressed(keys[j], keyboard) {
            assert(!keyboard.down().contains(keys@[j as int]));
            return false;
        }
        j += 1;
    }
    true
}

/// Whether a modifier is held that a binding does not name.
fn has_extra_modifier(keys: &Vec<i32>, keyboard: &KeyboardState) -> (r: bool)
    ensures
        r == extra_modifier(keys@, keyboard.down()),
{
    proof {
        lemma_extra_modifier(keys@, keyboard.down());
    }
    (!names_key(keys, VK_CONTROL) && is_modifier_pressed(VK_CONTROL, keyboard.flags))
        || (!names_key(keys, VK_SHIFT) && is_modifier_pressed(VK_SHIFT, keyboard.flags))
        || (!names_key(keys, VK_ALT) && is_modifier_pressed(VK_ALT, keyboard.flags))
        || (!names_key(keys, VK_META) && is_modifier_pressed(VK_META, keyboard.flags))
}

/// Whether a shortcut is down depends on the layout: it has a key that the layout
/// places, and all its other keys are down.
pub open spec fn layout_matters(keys: Seq<i32>, keyboard: KeyboardState) -> bool {
    &&& exists|j: int| 0 <= j < keys.len() && layout_char(#[trigger] keys[j]) is Some
    &&& forall|j: int|
        0 <= j < keys.len() && layout_char(#[trigger] keys[j]) is None ==> keyboard.key_down(keys[j])
}

/// Whether a shortcut is down depends on the layout.
fn needs_layout(keys: &Vec<i32>, keyboard: &KeyboardState) -> (r: bool)
    ensures
        r == layout_matters(keys@, *keyboard),
{
    let mut placed: bool = false;
    let mut j: usize = 0;
    while j < keys.len()
        invariant
            j <= keys.len(),
            placed == exists|k: int| 0 <= k < j && layout_char(#[trigger] keys@[k]) is Some,
            forall|k: int|
                0 <= k < j && layout_char(#[trigger] keys@[k]) is None ==> keyboard.key_down(
                    keys@[k],
                ),
        decreases keys.len() - j,
    {
        if target_char(keys[j]).is_some() {
            placed = true;
            assert(layout_char(keys@[j as int]) is Some);
        } else if !is_key_pressed(keys[j], keyboard) {
            assert(layout_char(keys@[j as int]) is None);
            return false;
        }
        j += 1;
    }
    placed
}

/// Whether a poll of this keyboard depends on its layout. Where it does not, the
/// layout need not be read: the poll has the same outcome whatever it is.
pub fn wants_layout(bindings: &[Binding], keyboard: &KeyboardState) -> (r: bool)
    ensures
        r == exists|i: int|
            0 <= i < bindings@.len() && layout_matters(
                #[trigger] key_lists(bindings@)[i],
                *keyboard,
            ),
{
    let ghost lists = key_lists(bindings@);
    let mut i: usize = 0;
    while i < bindings.len()
        invariant
            i <= bindings.len(),
            lists == key_lists(bindings@),
            forall|k: int| 0 <= k < i ==> !layout_matters(#[trigger] lists[k], *keyboard),
        decreases bindings.len() - i,
    {
        assert(bindings@[i as int].keys@ == lists[i as int]);
        if needs_layout(&bindings[i].keys, keyboard) {
            return true;
        }
        i += 1;
    }
    false
}

/// Turns states of the keyboard into shortcut events.
pub struct KeyboardPoller {
    clock: Clock,
    tracker: PressTracker,
}

impl View for KeyboardPoller {
    type V = Tracking;

    closed spec fn view(&self) -> Tracking {
        self.tracker@
    }
}

impl KeyboardPoller {
    /// The instant from which the poller counts time.
    pub closed spec fn started(&self) -> Instant {
        self.clock.started()
    }

    /// What the clock gave last, in nanoseconds; zero before its first reading.
    pub closed spec fn last_reading(&self) -> int {
        self.clock.last_reading()
    }

    /// A poller that has not looked at the keyboard yet.
    pub fn new() -> (r: KeyboardPoller)
        ensures
            r.last_reading() == 0,
            r@ == Tracking::empty(),
    {
        KeyboardPoller { clock: Clock::start(), tracker: PressTracker::new() }
    }

    /// Looks at the keyboard at time `now`.
    pub fn poll_at(
        &mut self,
        suspended: bool,
        bindings: &[Binding],
        keyboard: &KeyboardState,
        now: u64,
    ) -> (r: Option<ShortcutEvent>)
        ensures
            final(self).started() == old(self).started(),
            final(self).last_reading() == old(self).last_reading(),
            polled(
                old(self)@,
                suspended,
                key_lists(bindings@),
                keyboard.down(),
                now as int,
                final(self)@,
                r,
            ),
    {
        if suspended {
            return None;
        }
        self.tracker.enroll(bindings.len(), now);
        let ghost known = self@;
        let ghost lists = key_lists(bindings@);
        let ghost down = keyboard.down();
        let mut i: usize = 0;
        while i < bindings.len()
            invariant
                !suspended,
                self.started() == old(self).started(),
                self.last_reading() == old(self).last_reading(),
                i <= bindings.len(),
                lists == key_lists(bindings@),
                down == keyboard.down(),
                known == old(self)@.enrolled(lists.len(), now as int),
                self@ == known,
                forall|j: int|
                    0 <= j < i ==> !#[trigger] known.can_press(lists, down, now as int, j),
                forall|j: int| 0 <= j < i ==> !#[trigger] known.can_release(lists, down, j),
            decreases bindings.len() - i,
        {
            let keys = &bindings[i].keys;
            assert(keys@ == lists[i as int]);
            if keys.len() > 0 {
                let all: bool = all_pressed(keys, keyboard);
                let extra: bool = has_extra_modifier(keys, keyboard);
                if all && !extra && !self.tracker.is_active(i) {
                    if !self.tracker.is_debounced(i, now) {
                        assert(known.can_press(lists, down, now as int, i as int));
                        self.tracker.press(i, now);
                        return Some(
                            ShortcutEvent { binding: i, event_type: KeyEventType::Pressed },
                        );
                    }
                } else if !all && self.tracker.is_active(i) {
                    assert(known.can_release(lists, down, i as int));
                    self.tracker.release(i);
                    return Some(ShortcutEvent { binding: i, event_type: KeyEventType::Released });
                }
            }
            i += 1;
        }
        None
    }

    /// Looks at the keyboard. The clock is read once, and the look is the one of
    /// [`KeyboardPoller::poll_at`] at whatever time the clock gave, which is no
    /// earlier than what it gave before.
    pub fn poll(
        &mut self,
        suspended: bool,
        bindings: &[Binding],
        keyboard: &KeyboardState,
    ) -> (r: Option<ShortcutEvent>)
        ensures
            final(self).started() == old(self).started(),
            old(self).last_reading() <= final(self).last_reading(),
            polled(
                old(self)@,
                suspended,
                key_lists(bindings@),
                keyboard.down(),
                final(self).last_reading(),
                final(self)@,
                r,
            ),
    {
        let now: u64 = self.clock.now();
        self.poll_at(suspended, bindings, keyboard, now)
    }
}

} // verus!
