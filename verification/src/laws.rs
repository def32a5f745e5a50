//! Laws of the shortcuts: what holds of every look at the keyboard, and of every
//! run of such looks.

use vstd::prelude::*;

#[allow(unused_imports)]
use crate::binding::{all_down, extra_modifier, is_modifier, KeyEventType, ShortcutEvent};
#[allow(unused_imports)]
use crate::keyboard::KeyboardState;
#[allow(unused_imports)]
use crate::keymap::layout_char;
#[allow(unused_imports)]
use crate::poller::{layout_matters, polled};
#[allow(unused_imports)]
use crate::processor::{input_step, ProcessorState};
#[allow(unused_imports)]
use crate::tracker::{poll_step, press_step, release_step, Tracking, BACKDATE_NANOS, DEBOUNCE_NANOS};

verus! {

/// One look at the keyboard: the bindings at the time, the keys that were down,
/// the time, and the event that came of it.
pub struct Look {
    pub bindings: Seq<Seq<i32>>,
    pub down: Set<i32>,
    pub now: int,
    pub event: Option<ShortcutEvent>,
}

impl Look {
    /// Shortcut `i` was pressed.
    pub open spec fn presses(self, i: usize) -> bool {
        self.event == Some(ShortcutEvent { binding: i, event_type: KeyEventType::Pressed })
    }

    /// Shortcut `i` was released.
    pub open spec fn releases(self, i: usize) -> bool {
        self.event == Some(ShortcutEvent { binding: i, event_type: KeyEventType::Released })
    }

    /// The keys that were down call for shortcut `i`: it has keys, they are all
    /// down, and no other modifier is.
    pub open spec fn calls_for(self, i: int) -> bool {
        &&& self.bindings[i].len() > 0
        &&& all_down(self.bindings[i], self.down)
        &&& !extra_modifier(self.bindings[i], self.down)
    }

    /// A look of any kind, or none at all because shortcuts were suspended.
    pub open spec fn leads(self, before: Tracking, after: Tracking) -> bool {
        ||| press_step(before, self.bindings, self.down, self.now, after, self.event)
        ||| release_step(before, self.bindings, self.down, after, self.event)
        ||| poll_step(before, self.bindings, self.down, self.now, after, self.event)
        ||| after == before && self.event is None
    }
}

/// A run: each look leads from one state to the next.
pub open spec fn is_run(states: Seq<Tracking>, looks: Seq<Look>) -> bool {
    &&& states.len() == looks.len() + 1
    &&& forall|k: int|
        0 <= k < looks.len() ==> (#[trigger] looks[k]).leads(states[k], states[k + 1])
}

/// A key event is a look, so runs of an event processor are runs.
pub proof fn inputs_are_looks(
    before: ProcessorState,
    key: i32,
    is_pressed: bool,
    suspended: bool,
    bindings: Seq<Seq<i32>>,
    now: int,
    after: ProcessorState,
    event: Option<ShortcutEvent>,
)
    requires
        input_step(before, key, is_pressed, suspended, bindings, now, after, event),
    ensures
        (Look { bindings, down: after.pressed, now, event }).leads(before.tracking, after.tracking),
{
}

/// A poll is a look, so runs of a poller are runs.
pub proof fn polls_are_looks(
    before: Tracking,
    suspended: bool,
    bindings: Seq<Seq<i32>>,
    down: Set<i32>,
    now: int,
    after: Tracking,
    event: Option<ShortcutEvent>,
)
    requires
        polled(before, suspended, bindings, down, now, after, event),
    ensures
        (Look { bindings, down, now, event }).leads(before, after),
{
}

/// What a look for a press does is determined.
pub proof fn press_is_determined(
    before: Tracking,
    bindings: Seq<Seq<i32>>,
    down: Set<i32>,
    now: int,
    after1: Tracking,
    event1: Option<ShortcutEvent>,
    after2: Tracking,
    event2: Option<ShortcutEvent>,
)
    requires
        press_step(before, bindings, down, now, after1, event1),
        press_step(before, bindings, down, now, after2, event2),
    ensures
        after1 == after2,
        event1 == event2,
{
}

/// What a look for a release does is determined.
pub proof fn release_is_determined(
    before: Tracking,
    bindings: Seq<Seq<i32>>,
    down: Set<i32>,
    after1: Tracking,
    event1: Option<ShortcutEvent>,
    after2: Tracking,
    event2: Option<ShortcutEvent>,
)
    requires
        release_step(before, bindings, down, after1, event1),
        release_step(before, bindings, down, after2, event2),
    ensures
        after1 == after2,
        event1 == event2,
{
}

/// What a poll does is determined.
pub proof fn poll_is_determined(
    before: Tracking,
    bindings: Seq<Seq<i32>>,
    down: Set<i32>,
    now: int,
    after1: Tracking,
    event1: Option<ShortcutEvent>,
    after2: Tracking,
    event2: Option<ShortcutEvent>,
)
    requires
        poll_step(before, bindings, down, now, after1, event1),
        poll_step(before, bindings, down, now, after2, event2),
    ensures
        after1 == after2,
        event1 == event2,
{
}

/// Where no shortcut can be released, a poll is a look for a press.
pub proof fn poll_without_release_is_press(
    before: Tracking,
    bindings: Seq<Seq<i32>>,
    down: Set<i32>,
    now: int,
    after: Tracking,
    event: Option<ShortcutEvent>,
)
    requires
        poll_step(before, bindings, down, now, after, event),
        forall|i: int|
            0 <= i < bindings.len() ==> !#[trigger] before.can_release(bindings, down, i),
    ensures
        press_step(before, bindings, down, now, after, event),
{
    let known = before.enrolled(bindings.len(), now);
    assert forall|i: int| 0 <= i < bindings.len() implies !#[trigger] known.can_release(
        bindings,
        down,
        i,
    ) by {
        assert(!before.can_release(bindings, down, i));
    }
}

/// Where no shortcut can be pressed, a poll is a look for a release, but for the
/// shortcuts that are new.
pub proof fn poll_without_press_is_release(
    before: Tracking,
    bindings: Seq<Seq<i32>>,
    down: Set<i32>,
    now: int,
    after: Tracking,
    event: Option<ShortcutEvent>,
)
    requires
        poll_step(before, bindings, down, now, after, event),
        forall|i: int|
            0 <= i < bindings.len() ==> !#[trigger] before.enrolled(
                bindings.len(),
                now,
            ).can_press(bindings, down, now, i),
    ensures
        release_step(before.enrolled(bindings.len(), now), bindings, down, after, event),
{
    if let Some(e) = event {
        let known = before.enrolled(bindings.len(), now);
        assert(!known.can_press(bindings, down, now, e.binding as int));
    }
}

/// Whether a shortcut is down does not depend on the layout where the layout does
/// not matter.
proof fn lemma_layout_ignored(keys: Seq<i32>, keyboard: KeyboardState, other: KeyboardState)
    requires
        !layout_matters(keys, keyboard),
        other.flags == keyboard.flags,
        other.buttons == keyboard.buttons,
        other.keys == keyboard.keys,
    ensures
        all_down(keys, other.down()) == all_down(keys, keyboard.down()),
        extra_modifier(keys, other.down()) == extra_modifier(keys, keyboard.down()),
{
    if exists|j: int|
        0 <= j < keys.len() && layout_char(#[trigger] keys[j]) is None && !keyboard.key_down(
            keys[j],
        ) {
        let j = choose|j: int|
            0 <= j < keys.len() && layout_char(#[trigger] keys[j]) is None && !keyboard.key_down(
                keys[j],
            );
        assert(!keyboard.down().contains(keys[j]));
        assert(!other.down().contains(keys[j]));
    } else {
        assert forall|j: int| 0 <= j < keys.len() implies keyboard.key_down(#[trigger] keys[j])
            && other.key_down(keys[j]) by {
            assert(layout_char(keys[j]) is None);
        }
    }
    assert forall|m: i32| is_modifier(m) implies other.down().contains(m)
        == keyboard.down().contains(m) by {}
}

/// Where the layout matters for no shortcut, a poll has the same outcome whatever
/// the layout is.
pub proof fn unwanted_layout_is_ignored(
    before: Tracking,
    suspended: bool,
    bindings: Seq<Seq<i32>>,
    keyboard: KeyboardState,
    other: KeyboardState,
    now: int,
    after: Tracking,
    event: Option<ShortcutEvent>,
)
    requires
        forall|i: int| 0 <= i < bindings.len() ==> !layout_matters(#[trigger] bindings[i], keyboard),
        other.flags == keyboard.flags,
        other.buttons == keyboard.buttons,
        other.keys == keyboard.keys,
    ensures
        polled(before, suspended, bindings, keyboard.down(), now, after, event) == polled(
            before,
            suspended,
            bindings,
            other.down(),
            now,
            after,
            event,
        ),
{
    assert forall|i: int| 0 <= i < bindings.len() implies {
        &&& all_down(#[trigger] bindings[i], other.down()) == all_down(bindings[i], keyboard.down())
        &&& extra_modifier(bindings[i], other.down()) == extra_modifier(
            bindings[i],
            keyboard.down(),
        )
    } by {
        lemma_layout_ignored(bindings[i], keyboard, other);
    }
    let known = before.enrolled(bindings.len(), now);
    assert forall|i: int| 0 <= i < bindings.len() implies known.can_press(
        bindings,
        keyboard.down(),
        now,
        i,
    ) == known.can_press(bindings, other.down(), now, i) by {}
    assert forall|i: int| 0 <= i < bindings.len() implies known.can_release(
        bindings,
        keyboard.down(),
        i,
    ) == known.can_release(bindings, other.down(), i) by {}
}

/// A shortcut is pressed only while all its keys are down and no modifier is but
/// those that it names.
pub proof fn pressed_shortcut_matches_keys(look: Look, before: Tracking, after: Tracking, i: usize)
    requires
        look.leads(before, after),
        look.presses(i),
    ensures
        i < look.bindings.len(),
        look.bindings[i as int].len() > 0,
        all_down(look.bindings[i as int], look.down),
        forall|modifier: i32| #[trigger]
            is_modifier(modifier) && look.down.contains(modifier)
                ==> look.bindings[i as int].contains(modifier),
{
}

/// A shortcut is released only once one of its keys is up.
pub proof fn released_shortcut_misses_key(look: Look, before: Tracking, after: Tracking, i: usize)
    requires
        look.leads(before, after),
        look.releases(i),
    ensures
        i < look.bindings.len(),
        exists|key: i32|
            #[trigger] look.bindings[i as int].contains(key) && !look.down.contains(key),
{
    let keys = look.bindings[i as int];
    let j = choose|j: int| 0 <= j < keys.len() && !look.down.contains(#[trigger] keys[j]);
    assert(keys.contains(keys[j]));
}

/// A look leaves every shortcut alone but the one that it presses or releases.
pub proof fn other_shortcuts_are_unchanged(
    look: Look,
    before: Tracking,
    after: Tracking,
    other: usize,
)
    requires
        look.leads(before, after),
        !look.presses(other),
        !look.releases(other),
    ensures
        after.active.contains(other) == before.active.contains(other),
        before.last_press.len() <= after.last_press.len(),
        other < before.last_press.len() ==> after.last_press[other as int]
            == before.last_press[other as int],
{
}

/// A shortcut that is new is never debounced: whether it can be pressed depends
/// on the keys alone.
pub proof fn new_shortcuts_are_not_debounced(
    before: Tracking,
    count: nat,
    now: int,
    i: int,
)
    requires
        before.last_press.len() <= i < count,
    ensures
        now - before.enrolled(count, now).last_press[i] >= DEBOUNCE_NANOS,
{
}

/// When a key of a held shortcut comes up, a shortcut is released: that one, or
/// one that stands before it.
pub proof fn key_release_releases(
    before: ProcessorState,
    key: i32,
    bindings: Seq<Seq<i32>>,
    now: int,
    after: ProcessorState,
    event: Option<ShortcutEvent>,
    i: usize,
)
    requires
        input_step(before, key, false, false, bindings, now, after, event),
        i < bindings.len(),
        before.tracking.active.contains(i),
        bindings[i as int].contains(key),
    ensures
        event is Some,
        event->0.event_type == KeyEventType::Released,
        event->0.binding <= i,
{
    let keys = bindings[i as int];
    let down = before.without_key(key).pressed;
    let j = choose|j: int| 0 <= j < keys.len() && keys[j] == key;
    assert(!down.contains(keys[j]));
    assert(before.tracking.can_release(bindings, down, i as int));
}

/// While shortcuts are suspended keys are still noted, and nothing else happens.
pub proof fn suspension_only_notes_keys(
    before: ProcessorState,
    key: i32,
    is_pressed: bool,
    bindings: Seq<Seq<i32>>,
    now: int,
    after: ProcessorState,
    event: Option<ShortcutEvent>,
)
    requires
        input_step(before, key, is_pressed, true, bindings, now, after, event),
    ensures
        event is None,
        after.tracking == before.tracking,
        after.pressed == if is_pressed {
            before.pressed.insert(key)
        } else {
            before.pressed.remove(key)
        },
{
}

/// What was last noted of shortcut `i` does not precede its press at look `a`.
proof fn lemma_last_press_kept(states: Seq<Tracking>, looks: Seq<Look>, a: int, b: int, i: usize)
    requires
        is_run(states, looks),
        0 <= a < b <= looks.len(),
        looks[a].presses(i),
    ensures
        i < states[b].last_press.len(),
        states[b].last_press[i as int] >= looks[a].now,
    decreases b - a,
{
    assert(looks[b - 1].leads(states[b - 1], states[b - 1 + 1]));
    if b - 1 > a {
        lemma_last_press_kept(states, looks, a, b - 1, i);
    }
}

/// Two presses of one shortcut are at least the debounce time apart, whatever
/// happens in between.
pub proof fn presses_are_spaced(states: Seq<Tracking>, looks: Seq<Look>, a: int, b: int, i: usize)
    requires
        is_run(states, looks),
        0 <= a < b < looks.len(),
        looks[a].presses(i),
        looks[b].presses(i),
    ensures
        looks[b].now - looks[a].now >= DEBOUNCE_NANOS,
{
    lemma_last_press_kept(states, looks, a, b, i);
    assert(looks[b].leads(states[b], states[b + 1]));
}

/// Shortcut `i` was pressed at look `a` and not released before look `b`.
pub open spec fn held_since(looks: Seq<Look>, a: int, b: int, i: usize) -> bool {
    &&& 0 <= a < b
    &&& looks[a].presses(i)
    &&& forall|c: int| a < c < b ==> !(#[trigger] looks[c]).releases(i)
}

/// A shortcut counts as held exactly if it was pressed and not released since.
pub proof fn held_is_pressed_and_not_released(
    states: Seq<Tracking>,
    looks: Seq<Look>,
    b: int,
    i: usize,
)
    requires
        is_run(states, looks),
        states[0] == Tracking::empty(),
        0 <= b <= looks.len(),
    ensures
        states[b].active.contains(i) <==> exists|a: int| held_since(looks, a, b, i),
    decreases b,
{
    if b > 0 {
        held_is_pressed_and_not_released(states, looks, b - 1, i);
        assert(looks[b - 1].leads(states[b - 1], states[b - 1 + 1]));
        let prev = b - 1;
        let last = looks[prev];
        if last.presses(i) {
            assert(held_since(looks, b - 1, b, i));
        } else if last.releases(i) {
            assert forall|a: int| !held_since(looks, a, b, i) by {
                if held_since(looks, a, b, i) {
                    assert(a < b - 1);
                }
            }
        } else {
            other_shortcuts_are_unchanged(last, states[b - 1], states[b], i);
            assert forall|a: int| held_since(looks, a, b, i) implies held_since(
                looks,
                a,
                prev,
                i,
            ) by {
                assert(a < b - 1);
            }
            if states[b].active.contains(i) {
                let a = choose|a: int| held_since(looks, a, prev, i);
                assert(held_since(looks, a, b, i));
            }
        }
    }
}

/// Between two presses of one shortcut it is released.
pub proof fn presses_are_separated_by_release(
    states: Seq<Tracking>,
    looks: Seq<Look>,
    a: int,
    b: int,
    i: usize,
)
    requires
        is_run(states, looks),
        states[0] == Tracking::empty(),
        0 <= a < b < looks.len(),
        looks[a].presses(i),
        looks[b].presses(i),
    ensures
        exists|c: int| a < c < b && (#[trigger] looks[c]).releases(i),
{
    held_is_pressed_and_not_released(states, looks, b, i);
    assert(looks[b].leads(states[b], states[b + 1]));
    assert(!held_since(looks, a, b, i));
}

/// A release of a shortcut follows a press of it, with no other release of it in
/// between.
pub proof fn release_follows_press(states: Seq<Tracking>, looks: Seq<Look>, b: int, i: usize)
    requires
        is_run(states, looks),
        states[0] == Tracking::empty(),
        0 <= b < looks.len(),
        looks[b].releases(i),
    ensures
        exists|a: int| held_since(looks, a, b, i),
{
    held_is_pressed_and_not_released(states, looks, b, i);
    assert(looks[b].leads(states[b], states[b + 1]));
}

/// The times of the looks do not decrease.
pub open spec fn in_order(looks: Seq<Look>) -> bool {
    forall|j: int, k: int| 0 <= j <= k < looks.len() ==> looks[j].now <= looks[k].now
}

/// Shortcut `i` was not pressed before look `b`.
pub open spec fn never_pressed(looks: Seq<Look>, b: int, i: usize) -> bool {
    forall|a: int| 0 <= a < b ==> !(#[trigger] looks[a]).presses(i)
}

/// What was noted of a shortcut that was never pressed lies one second before
/// every time that no look so far came after.
proof fn lemma_unpressed_is_backdated(
    states: Seq<Tracking>,
    looks: Seq<Look>,
    b: int,
    i: usize,
    time: int,
)
    requires
        is_run(states, looks),
        states[0] == Tracking::empty(),
        0 <= b <= looks.len(),
        never_pressed(looks, b, i),
        forall|k: int| 0 <= k < b ==> (#[trigger] looks[k]).now <= time,
    ensures
        i < states[b].last_press.len() ==> states[b].last_press[i as int] <= time - BACKDATE_NANOS,
    decreases b,
{
    if b > 0 {
        lemma_unpressed_is_backdated(states, looks, b - 1, i, time);
        assert(looks[b - 1].leads(states[b - 1], states[b - 1 + 1]));
        assert(!looks[b - 1].presses(i));
    }
}

/// In a run from the start whose times do not decrease, a shortcut that was never
/// pressed counts at every look as last pressed at least one second ago. So its
/// first press is never debounced, however long it has been known.
pub proof fn first_press_is_not_debounced(
    states: Seq<Tracking>,
    looks: Seq<Look>,
    b: int,
    i: usize,
)
    requires
        is_run(states, looks),
        states[0] == Tracking::empty(),
        in_order(looks),
        0 <= b < looks.len(),
        never_pressed(looks, b, i),
    ensures
        i < states[b].last_press.len() ==> states[b].last_press[i as int] <= looks[b].now
            - BACKDATE_NANOS,
        i < looks[b].bindings.len() ==> looks[b].now - states[b].enrolled(
            looks[b].bindings.len(),
            looks[b].now,
        ).last_press[i as int] >= DEBOUNCE_NANOS,
{
    lemma_unpressed_is_backdated(states, looks, b, i, looks[b].now);
}

/// The looks are at the times of a clock: each is at the reading that the clock
/// gives for it, and `readings` are what the clock gave last before and after each
/// look. A look that does not read the clock is at what the clock gave last.
pub open spec fn clocked(readings: Seq<int>, looks: Seq<Look>) -> bool {
    &&& readings.len() == looks.len() + 1
    &&& forall|k: int|
        0 <= k < looks.len() ==> readings[k] <= readings[k + 1] && (#[trigger] looks[k]).now
            == readings[k + 1]
}

/// The times of two looks at the times of a clock do not decrease.
proof fn lemma_clocked_pair(readings: Seq<int>, looks: Seq<Look>, j: int, k: int)
    requires
        clocked(readings, looks),
        0 <= j <= k < looks.len(),
    ensures
        looks[j].now <= looks[k].now,
    decreases k - j,
{
    assert(looks[k].now == readings[k + 1]);
    if j < k {
        lemma_clocked_pair(readings, looks, j, k - 1);
        assert(looks[k - 1].now == readings[k - 1 + 1]);
    }
}

/// The times of looks that go by a clock do not decrease.
pub proof fn clocked_looks_are_in_order(readings: Seq<int>, looks: Seq<Look>)
    requires
        clocked(readings, looks),
    ensures
        in_order(looks),
{
    assert forall|j: int, k: int| 0 <= j <= k < looks.len() implies looks[j].now
        <= looks[k].now by {
        lemma_clocked_pair(readings, looks, j, k);
    }
}

/// In a run that goes by a clock, the first press of a shortcut is never held back
/// by the time: when its keys are down and no other modifier is, a look for a press
/// or a poll presses it, or has an event of a shortcut that stands before it.
pub proof fn first_press_is_not_held_back(
    states: Seq<Tracking>,
    readings: Seq<int>,
    looks: Seq<Look>,
    b: int,
    i: usize,
)
    requires
        is_run(states, looks),
        states[0] == Tracking::empty(),
        clocked(readings, looks),
        0 <= b < looks.len(),
        ({
            let look = looks[b];
            ||| press_step(
                states[b],
                look.bindings,
                look.down,
                look.now,
                states[b + 1],
                look.event,
            )
            ||| poll_step(
                states[b],
                look.bindings,
                look.down,
                look.now,
                states[b + 1],
                look.event,
            )
        }),
        i < looks[b].bindings.len(),
        looks[b].calls_for(i as int),
        never_pressed(looks, b, i),
    ensures
        looks[b].event is Some,
        looks[b].event->0.binding <= i,
        looks[b].event->0.binding == i ==> looks[b].presses(i),
{
    let look = looks[b];
    let known = states[b].enrolled(look.bindings.len(), look.now);
    clocked_looks_are_in_order(readings, looks);
    first_press_is_not_debounced(states, looks, b, i);
    held_is_pressed_and_not_released(states, looks, b, i);
    assert(known.can_press(look.bindings, look.down, look.now, i as int));
}

/// A release is never held back by the time: when a key of a held shortcut is up, a
/// look for a release or a poll releases it, or has an event of a shortcut that
/// stands before it.
pub proof fn release_is_not_held_back(look: Look, before: Tracking, after: Tracking, i: usize)
    requires
        release_step(before, look.bindings, look.down, after, look.event) || poll_step(
            before,
            look.bindings,
            look.down,
            look.now,
            after,
            look.event,
        ),
        i < look.bindings.len(),
        before.can_release(look.bindings, look.down, i as int),
    ensures
        look.event is Some,
        look.event->0.binding <= i,
        look.event->0.binding == i ==> look.releases(i),
{
    assert(before.enrolled(look.bindings.len(), look.now).can_release(
        look.bindings,
        look.down,
        i as int,
    ));
}

/// A run from the start that only looks for presses, always with the same bindings
/// and the same keys down, at times that do not decrease.
pub open spec fn is_press_run(
    states: Seq<Tracking>,
    looks: Seq<Look>,
    bindings: Seq<Seq<i32>>,
    down: Set<i32>,
) -> bool {
    &&& states.len() == looks.len() + 1
    &&& states[0] == Tracking::empty()
    &&& in_order(looks)
    &&& forall|k: int|
        0 <= k < looks.len() ==> {
            &&& (#[trigger] looks[k]).bindings == bindings
            &&& looks[k].down == down
            &&& press_step(states[k], bindings, down, looks[k].now, states[k + 1], looks[k].event)
        }
}

/// Looks for presses that are repeated with the same keys down press each shortcut
/// that the keys call for once, in the order of the bindings: what a look passes
/// over was pressed before, and what it presses was not.
pub proof fn repeated_looks_press_each_once(
    states: Seq<Tracking>,
    looks: Seq<Look>,
    bindings: Seq<Seq<i32>>,
    down: Set<i32>,
    b: int,
    i: usize,
)
    requires
        is_press_run(states, looks, bindings, down),
        0 <= b < looks.len(),
        i < bindings.len(),
    ensures
        looks[b].presses(i) ==> looks[b].calls_for(i as int) && never_pressed(looks, b, i),
        looks[b].calls_for(i as int) && (looks[b].event is None || looks[b].event->0.binding > i)
            ==> !never_pressed(looks, b, i),
{
    assert forall|k: int| 0 <= k < looks.len() implies (#[trigger] looks[k]).leads(
        states[k],
        states[k + 1],
    ) by {}
    let look = looks[b];
    assert(look.bindings == bindings);
    if look.presses(i) {
        assert forall|a: int| 0 <= a < b implies !(#[trigger] looks[a]).presses(i) by {
            if looks[a].presses(i) {
                presses_are_separated_by_release(states, looks, a, b, i);
                let c = choose|c: int| a < c < b && (#[trigger] looks[c]).releases(i);
                assert(looks[c].bindings == bindings);
            }
        }
    }
    if look.calls_for(i as int) && never_pressed(looks, b, i) {
        first_press_is_not_debounced(states, looks, b, i);
        held_is_pressed_and_not_released(states, looks, b, i);
        assert(states[b].enrolled(bindings.len(), look.now).can_press(
            bindings,
            down,
            look.now,
            i as int,
        ));
    }
}

/// In a run from the start, every shortcut that is held has a press time.
pub proof fn held_shortcuts_have_press_times(
    states: Seq<Tracking>,
    looks: Seq<Look>,
    b: int,
    i: usize,
)
    requires
        is_run(states, looks),
        states[0] == Tracking::empty(),
        0 <= b <= looks.len(),
        states[b].active.contains(i),
    ensures
        i < states[b].last_press.len(),
{
    held_is_pressed_and_not_released(states, looks, b, i);
    let a = choose|a: int| held_since(looks, a, b, i);
    lemma_last_press_kept(states, looks, a, b, i);
}

/// One key event, with the circumstances in which it was handled.
pub struct Input {
    pub key: i32,
    pub is_pressed: bool,
    pub suspended: bool,
    pub bindings: Seq<Seq<i32>>,
    pub now: int,
    pub event: Option<ShortcutEvent>,
}

impl Input {
    /// The effect of the key event.
    pub open spec fn leads(self, before: ProcessorState, after: ProcessorState) -> bool {
        input_step(
            before,
            self.key,
            self.is_pressed,
            self.suspended,
            self.bindings,
            self.now,
            after,
            self.event,
        )
    }
}

/// A run of an event processor from its start.
pub open spec fn is_input_run(states: Seq<ProcessorState>, inputs: Seq<Input>) -> bool {
    &&& states.len() == inputs.len() + 1
    &&& states[0] == (ProcessorState { pressed: Set::empty(), tracking: Tracking::empty() })
    &&& forall|k: int|
        0 <= k < inputs.len() ==> (#[trigger] inputs[k]).leads(states[k], states[k + 1])
}

/// The looks at the keyboard that a run of an event processor consists of.
pub open spec fn looks_of(states: Seq<ProcessorState>, inputs: Seq<Input>) -> Seq<Look> {
    Seq::new(
        inputs.len(),
        |k: int|
            Look {
                bindings: inputs[k].bindings,
                down: states[k + 1].pressed,
                now: inputs[k].now,
                event: inputs[k].event,
            },
    )
}

/// What a run of an event processor remembers of the shortcuts.
pub open spec fn trackings_of(states: Seq<ProcessorState>) -> Seq<Tracking> {
    Seq::new(states.len(), |k: int| states[k].tracking)
}

/// A run of an event processor is a run from the start, so what holds of runs
/// holds of it.
pub proof fn input_run_is_run(states: Seq<ProcessorState>, inputs: Seq<Input>)
    requires
        is_input_run(states, inputs),
    ensures
        is_run(trackings_of(states), looks_of(states, inputs)),
        trackings_of(states)[0] == Tracking::empty(),
{
    let trackings = trackings_of(states);
    let looks = looks_of(states, inputs);
    assert forall|k: int| 0 <= k < looks.len() implies (#[trigger] looks[k]).leads(
        trackings[k],
        trackings[k + 1],
    ) by {
        assert(inputs[k].leads(states[k], states[k + 1]));
    }
}

/// The key went down with event `a` and did not come up before event `b`.
pub open spec fn down_since(inputs: Seq<Input>, a: int, b: int, key: i32) -> bool {
    &&& 0 <= a < b
    &&& inputs[a].key == key && inputs[a].is_pressed
    &&& forall|c: int|
        a < c < b ==> !((#[trigger] inputs[c]).key == key && !inputs[c].is_pressed)
}

/// The keys that count as down are those that went down and did not come up
/// since, suspended or not.
pub proof fn down_keys_went_down(states: Seq<ProcessorState>, inputs: Seq<Input>, b: int, key: i32)
    requires
        is_input_run(states, inputs),
        0 <= b <= inputs.len(),
    ensures
        states[b].pressed.contains(key) <==> exists|a: int| down_since(inputs, a, b, key),
    decreases b,
{
    if b > 0 {
        down_keys_went_down(states, inputs, b - 1, key);
        assert(inputs[b - 1].leads(states[b - 1], states[b - 1 + 1]));
        let prev = b - 1;
        let last = inputs[prev];
        if last.key == key && last.is_pressed {
            assert(down_since(inputs, b - 1, b, key));
        } else if last.key == key {
            assert forall|a: int| !down_since(inputs, a, b, key) by {
                if down_since(inputs, a, b, key) {
                    assert(a < b - 1);
                }
            }
        } else {
            assert forall|a: int| down_since(inputs, a, b, key) implies down_since(
                inputs,
                a,
                prev,
                key,
            ) by {
                assert(a < b - 1);
            }
            if states[b].pressed.contains(key) {
                let a = choose|a: int| down_since(inputs, a, prev, key);
                assert(down_since(inputs, a, b, key));
            }
        }
    }
}

} // verus!
