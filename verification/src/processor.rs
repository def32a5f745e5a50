//! Shortcuts driven by key events: every press and release of a key is reported,
//! and the keys that are down are the ones whose release is still outstanding.

use std::collections::HashSet;
#[allow(unused_imports)]
use std::time::Instant;
use vstd::prelude::*;

use crate::binding::{names_key, Binding, ShortcutEvent, KeyEventType};
use crate::binding::{VK_ALT, VK_CONTROL, VK_META, VK_SHIFT};
#[allow(unused_imports)]
use crate::binding::{all_down, extra_modifier, key_lists, lemma_extra_modifier};
use crate::clock::Clock;
use crate::tracker::PressTracker;
#[allow(unused_imports)]
use crate::tracker::{press_step, release_step, Tracking};

verus! {

broadcast use vstd::std_specs::hash::group_hash_axioms;

/// What an event processor knows: the keys that are down and the shortcuts.
#[verifier::ext_equal]
pub struct ProcessorState {
    pub pressed: Set<i32>,
    pub tracking: Tracking,
}

impl ProcessorState {
    /// The key went down.
    pub open spec fn with_key(self, key: i32) -> ProcessorState {
        ProcessorState { pressed: self.pressed.insert(key), ..self }
    }

    /// The key came up.
    pub open spec fn without_key(self, key: i32) -> ProcessorState {
        ProcessorState { pressed: self.pressed.remove(key), ..self }
    }
}

/// A look for a press among the keys that are down. While shortcuts are
/// suspended nothing is looked for and nothing changes.
pub open spec fn looked_for_press(
    before: ProcessorState,
    suspended: bool,
    bindings: Seq<Seq<i32>>,
    now: int,
    after: ProcessorState,
    event: Option<ShortcutEvent>,
) -> bool {
    &&& after.pressed == before.pressed
    &&& if suspended {
        after.tracking == before.tracking && event is None
    } else {
        press_step(before.tracking, bindings, before.pressed, now, after.tracking, event)
    }
}

/// A look for a release among the keys that are down. While shortcuts are
/// suspended nothing is looked for and nothing changes.
pub open spec fn looked_for_release(
    before: ProcessorState,
    suspended: bool,
    bindings: Seq<Seq<i32>>,
    after: ProcessorState,
    event: Option<ShortcutEvent>,
) -> bool {
    &&& after.pressed == before.pressed
    &&& if suspended {
        after.tracking == before.tracking && event is None
    } else {
        release_step(before.tracking, bindings, before.pressed, after.tracking, event)
    }
}

/// The effect of one key event: a key that goes down is noted and may press a
/// shortcut, and a key that comes up is forgotten and may release one.
pub open spec fn input_step(
    before: ProcessorState,
    key: i32,
    is_pressed: bool,
    suspended: bool,
    bindings: Seq<Seq<i32>>,
    now: int,
    after: ProcessorState,
    event: Option<ShortcutEvent>,
) -> bool {
    if is_pressed {
        looked_for_press(before.with_key(key), suspended, bindings, now, after, event)
    } else {
        looked_for_release(before.without_key(key), suspended, bindings, after, event)
    }
}

/// Turns key events into shortcut events.
pub struct EventProcessor {
    clock: Clock,
    pressed_keys: HashSet<i32>,
    tracker: PressTracker,
}

impl View for EventProcessor {
    type V = ProcessorState;

    closed spec fn view(&self) -> ProcessorState {
        ProcessorState { pressed: self.pressed_keys@, tracking: self.tracker@ }
    }
}

impl EventProcessor {
    /// The instant from which the processor counts time.
    pub closed spec fn started(&self) -> Instant {
        self.clock.started()
    }

    /// What the clock gave last, in nanoseconds; zero before its first reading.
    pub closed spec fn last_reading(&self) -> int {
        self.clock.last_reading()
    }

    /// A processor that has seen no key yet.
    pub fn new() -> (r: EventProcessor)
        ensures
            r.last_reading() == 0,
            r@ == (ProcessorState { pressed: Set::empty(), tracking: Tracking::empty() }),
    {
        EventProcessor {
            clock: Clock::start(),
            pressed_keys: HashSet::new(),
            tracker: PressTracker::new(),
        }
    }

    /// Whether all keys of a binding are down.
    fn all_pressed(&self, keys: &Vec<i32>) -> (r: bool)
        ensures
            r == all_down(keys@, self@.pressed),
    {
        let mut j: usize = 0;
        while j < keys.len()
            invariant
                j <= keys.len(),
                forall|k: int| 0 <= k < j ==> self@.pressed.contains(#[trigger] keys@[k]),
            decreases keys.len() - j,
        {
            if !self.pressed_keys.contains(&keys[j]) {
                assert(!self@.pressed.contains(keys@[j as int]));
                return false;
            }
            j += 1;
        }
        true
    }

    /// Whether a modifier is down that a binding does not name.
    fn has_extra_modifier(&self, keys: &Vec<i32>) -> (r: bool)
        ensures
            r == extra_modifier(keys@, self@.pressed),
    {
        proof {
            lemma_extra_modifier(keys@, self@.pressed);
        }
        (self.pressed_keys.contains(&VK_CONTROL) && !names_key(keys, VK_CONTROL))
            || (self.pressed_keys.contains(&VK_SHIFT) && !names_key(keys, VK_SHIFT))
            || (self.pressed_keys.contains(&VK_ALT) && !names_key(keys, VK_ALT))
            || (self.pressed_keys.contains(&VK_META) && !names_key(keys, VK_META))
    }

    /// Looks, at time `now`, for a shortcut that the keys that are down press.
    pub fn check_press_at(&mut self, suspended: bool, bindings: &[Binding], now: u64) -> (r: Option<
        ShortcutEvent,
    >)
        ensures
            final(self).started() == old(self).started(),
            final(self).last_reading() == old(self).last_reading(),
            looked_for_press(old(self)@, suspended, key_lists(bindings@), now as int, final(self)@, r),
    {
        if suspended {
            return None;
        }
        self.tracker.enroll(bindings.len(), now);
        let ghost known = self.tracker@;
        let ghost lists = key_lists(bindings@);
        let ghost down = self@.pressed;
        let mut i: usize = 0;
        while i < bindings.len()
            invariant
                !suspended,
                self.started() == old(self).started(),
                self.last_reading() == old(self).last_reading(),
                i <= bindings.len(),
                lists == key_lists(bindings@),
                known == old(self)@.tracking.enrolled(lists.len(), now as int),
                down == old(self)@.pressed,
                self@ == (ProcessorState { pressed: down, tracking: known }),
                forall|j: int|
                    0 <= j < i ==> !#[trigger] known.can_press(lists, down, now as int, j),
            decreases bindings.len() - i,
        {
            let keys = &bindings[i].keys;
            assert(keys@ == lists[i as int]);
            if keys.len() > 0 && !self.tracker.is_active(i) && self.all_pressed(keys)
                && !self.has_extra_modifier(keys) && !self.tracker.is_debounced(i, now) {
                assert(known.can_press(lists, down, now as int, i as int));
                self.tracker.press(i, now);
                return Some(ShortcutEvent { binding: i, event_type: KeyEventType::Pressed });
            }
            i += 1;
        }
        None
    }

    /// Looks for a shortcut that the keys that are down press. The clock is read
    /// once, and the look is the one of [`EventProcessor::check_press_at`] at
    /// whatever time the clock gave, which is no earlier than what it gave before.
    pub fn check_press(&mut self, suspended: bool, bindings: &[Binding]) -> (r: Option<
        ShortcutEvent,
    >)
        ensures
            final(self).started() == old(self).started(),
            old(self).last_reading() <= final(self).last_reading(),
            looked_for_press(
                old(self)@,
                suspended,
                key_lists(bindings@),
                final(self).last_reading(),
                final(self)@,
                r,
            ),
    {
        let now: u64 = self.clock.now();
        self.check_press_at(suspended, bindings, now)
    }

    /// Looks for a held shortcut of which a key came up.
    pub fn check_release(&mut self, suspended: bool, bindings: &[Binding]) -> (r: Option<
        ShortcutEvent,
    >)
        ensures
            final(self).started() == old(self).started(),
            final(self).last_reading() == old(self).last_reading(),
            looked_for_release(old(self)@, suspended, key_lists(bindings@), final(self)@, r),
    {
        if suspended {
            return None;
        }
        let ghost lists = key_lists(bindings@);
        let mut i: usize = 0;
        while i < bindings.len()
            invariant
                !suspended,
                self.started() == old(self).started(),
                self.last_reading() == old(self).last_reading(),
                i <= bindings.len(),
                lists == key_lists(bindings@),
                self@ == old(self)@,
                forall|j: int|
                    0 <= j < i ==> !#[trigger] self@.tracking.can_release(lists, self@.pressed, j),
            decreases bindings.len() - i,
        {
            let keys = &bindings[i].keys;
            assert(keys@ == lists[i as int]);
            if self.tracker.is_active(i) && !self.all_pressed(keys) {
                assert(self@.tracking.can_release(lists, self@.pressed, i as int));
                self.tracker.release(i);
                return Some(ShortcutEvent { binding: i, event_type: KeyEventType::Released });
            }
            i += 1;
        }
        None
    }

    /// A key went down at time `now`.
    pub fn handle_key_press_at(
        &mut self,
        key: i32,
        suspended: bool,
        bindings: &[Binding],
        now: u64,
    ) -> (r: Option<ShortcutEvent>)
        ensures
            final(self).started() == old(self).started(),
            final(self).last_reading() == old(self).last_reading(),
            looked_for_press(
                old(self)@.with_key(key),
                suspended,
                key_lists(bindings@),
                now as int,
                final(self)@,
                r,
            ),
    {
        self.pressed_keys.insert(key);
        self.check_press_at(suspended, bindings, now)
    }

    /// A key went down: the effect is the one of
    /// [`EventProcessor::handle_key_press_at`] at whatever time the clock gives.
    pub fn handle_key_press(&mut self, key: i32, suspended: bool, bindings: &[Binding]) -> (r:
        Option<ShortcutEvent>)
        ensures
            final(self).started() == old(self).started(),
            old(self).last_reading() <= final(self).last_reading(),
            looked_for_press(
                old(self)@.with_key(key),
                suspended,
                key_lists(bindings@),
                final(self).last_reading(),
                final(self)@,
                r,
            ),
    {
        self.pressed_keys.insert(key);
        assert(self@ =~= old(self)@.with_key(key));
        self.check_press(suspended, bindings)
    }

    /// A key came up.
    pub fn handle_key_release(&mut self, key: i32, suspended: bool, bindings: &[Binding]) -> (r:
        Option<ShortcutEvent>)
        ensures
            final(self).started() == old(self).started(),
            final(self).last_reading() == old(self).last_reading(),
            looked_for_release(
                old(self)@.without_key(key),
                suspended,
                key_lists(bindings@),
                final(self)@,
                r,
            ),
    {
        self.pressed_keys.remove(&key);
        self.check_release(suspended, bindings)
    }

    /// A key went down or came up at time `now`, as
    /// [`crate::input::convert_event`] reports it.
    pub fn handle_input_at(
        &mut self,
        input: (i32, bool),
        suspended: bool,
        bindings: &[Binding],
        now: u64,
    ) -> (r: Option<ShortcutEvent>)
        ensures
            final(self).started() == old(self).started(),
            final(self).last_reading() == old(self).last_reading(),
            input_step(
                old(self)@,
                input.0,
                input.1,
                suspended,
                key_lists(bindings@),
                now as int,
                final(self)@,
                r,
            ),
    {
        let (key, is_pressed) = input;
        if is_pressed {
            self.handle_key_press_at(key, suspended, bindings, now)
        } else {
            self.handle_key_release(key, suspended, bindings)
        }
    }

    /// A key went down or came up: the effect is the one of
    /// [`EventProcessor::handle_input_at`] at whatever time the clock gives.
    pub fn handle_input(&mut self, input: (i32, bool), suspended: bool, bindings: &[Binding]) -> (r:
        Option<ShortcutEvent>)
        ensures
            final(self).started() == old(self).started(),
            old(self).last_reading() <= final(self).last_reading(),
            input_step(
                old(self)@,
                input.0,
                input.1,
                suspended,
                key_lists(bindings@),
                final(self).last_reading(),
                final(self)@,
                r,
            ),
    {
        let now: u64 = self.clock.now();
        self.handle_input_at(input, suspended, bindings, now)
    }
}

} // verus!
