//! Laws of what comes of a look at the keyboard, told from the keys that are down
//! and the times alone.

use vstd::prelude::*;

#[allow(unused_imports)]
use crate::binding::{
    all_down, extra_modifier, is_modifier, key_lists, lemma_extra_modifier, Binding, KeyEventType,
    ShortcutEvent,
};
#[allow(unused_imports)]
use crate::laws::{
    held_is_pressed_and_not_released, held_since, input_run_is_run, is_input_run, is_run, looks_of,
    polls_are_looks, trackings_of, Input, Look,
};
#[allow(unused_imports)]
use crate::poller::polled;
#[allow(unused_imports)]
use crate::processor::{input_step, looked_for_press, looked_for_release, ProcessorState};
#[allow(unused_imports)]
use crate::tracker::Tracking;

verus! {

/// A shortcut with these keys is held down: it has keys, each of them is down, and
/// of Shift, Control, Alt and Meta only those are down that it names.
pub open spec fn chord_held(keys: Seq<i32>, down: Set<i32>) -> bool {
    &&& keys.len() > 0
    &&& forall|key: i32| #[trigger] keys.contains(key) ==> down.contains(key)
    &&& down.contains(0x10) ==> keys.contains(0x10)
    &&& down.contains(0x11) ==> keys.contains(0x11)
    &&& down.contains(0x12) ==> keys.contains(0x12)
    &&& down.contains(0x5B) ==> keys.contains(0x5B)
}

/// One of the keys is up.
pub open spec fn key_up(keys: Seq<i32>, down: Set<i32>) -> bool {
    exists|key: i32| #[trigger] keys.contains(key) && !down.contains(key)
}

/// Shortcut `i` is new, or its last press is 150 ms ago or more.
pub open spec fn rested(tracking: Tracking, i: int, now: int) -> bool {
    i >= tracking.last_press.len() || now - tracking.last_press[i] >= 150_000_000
}

/// The event of a press of shortcut `i`.
pub open spec fn press_of(i: usize) -> Option<ShortcutEvent> {
    Some(ShortcutEvent { binding: i, event_type: KeyEventType::Pressed })
}

/// The event of a release of shortcut `i`.
pub open spec fn release_of(i: usize) -> Option<ShortcutEvent> {
    Some(ShortcutEvent { binding: i, event_type: KeyEventType::Released })
}

proof fn lemma_chord(keys: Seq<i32>, down: Set<i32>)
    ensures
        chord_held(keys, down) <==> keys.len() > 0 && all_down(keys, down) && !extra_modifier(
            keys,
            down,
        ),
        key_up(keys, down) <==> !all_down(keys, down),
{
    lemma_extra_modifier(keys, down);
    if all_down(keys, down) {
        assert forall|key: i32| #[trigger] keys.contains(key) implies down.contains(key) by {
            let j = choose|j: int| 0 <= j < keys.len() && keys[j] == key;
            assert(down.contains(keys[j]));
        }
    } else {
        let j = choose|j: int| 0 <= j < keys.len() && !down.contains(#[trigger] keys[j]);
        assert(keys.contains(keys[j]));
    }
}

/// The key lists of bindings are theirs, one by one.
pub proof fn key_lists_are_the_keys(bindings: Seq<Binding>, i: int)
    requires
        0 <= i < bindings.len(),
    ensures
        key_lists(bindings).len() == bindings.len(),
        key_lists(bindings)[i] == bindings[i].keys@,
{
}

/// The modifiers are Shift, Control, Alt and Meta, and no other key.
pub proof fn modifiers_are_four(vk: i32)
    ensures
        is_modifier(vk) <==> (vk == 0x10 || vk == 0x11 || vk == 0x12 || vk == 0x5B),
{
}

/// At the start no shortcut is held and none has a press time.
pub proof fn start_is_blank(i: usize)
    ensures
        !Tracking::empty().active.contains(i),
        Tracking::empty().last_press.len() == 0,
{
}

/// The notes of a shortcut that is enrolled, pressed or released: enrolment gives
/// new shortcuts a press time one second ago and changes nothing else, a press
/// takes the time of the press, and a release takes no time away.
pub proof fn notes_are_exact(tracking: Tracking, count: nat, now: int, i: usize, j: usize)
    requires
        i < tracking.last_press.len(),
    ensures
        tracking.enrolled(count, now).active == tracking.active,
        tracking.enrolled(count, now).last_press.len() == if count > tracking.last_press.len() {
            count
        } else {
            tracking.last_press.len()
        },
        j < tracking.last_press.len() ==> tracking.enrolled(count, now).last_press[j as int]
            == tracking.last_press[j as int],
        tracking.last_press.len() <= j < count ==> tracking.enrolled(
            count,
            now,
        ).last_press[j as int] == now - 1_000_000_000,
        tracking.pressed(i, now).last_press.len() == tracking.last_press.len(),
        tracking.pressed(i, now).last_press[i as int] == now,
        j < tracking.last_press.len() && j != i ==> tracking.pressed(i, now).last_press[j as int]
            == tracking.last_press[j as int],
        tracking.pressed(i, now).active.contains(j) <==> j == i || tracking.active.contains(j),
        tracking.released(i).last_press == tracking.last_press,
        tracking.released(i).active.contains(j) <==> j != i && tracking.active.contains(j),
{
}

// ---------------------------------------------------------------------------
// Looks for a press.

/// A look for a press that is not suspended answers every shortcut that is held
/// down, is not held already and has rested: with a press of it, or of one that
/// stands before it.
pub proof fn press_look_answers_chords(
    before: ProcessorState,
    bindings: Seq<Seq<i32>>,
    now: int,
    after: ProcessorState,
    event: Option<ShortcutEvent>,
    i: usize,
)
    requires
        looked_for_press(before, false, bindings, now, after, event),
        i < bindings.len(),
        chord_held(bindings[i as int], before.pressed),
        !before.tracking.active.contains(i),
        rested(before.tracking, i as int, now),
    ensures
        exists|j: usize| j <= i && event == #[trigger] press_of(j),
{
    lemma_chord(bindings[i as int], before.pressed);
    let known = before.tracking.enrolled(bindings.len(), now);
    assert(known.can_press(bindings, before.pressed, now, i as int));
    assert(event == press_of(event->0.binding));
}

/// A look for a press has no event but a press, of a shortcut that is held down,
/// was not held already and had rested, and it has none while suspended.
pub proof fn press_look_events_are_earned(
    before: ProcessorState,
    suspended: bool,
    bindings: Seq<Seq<i32>>,
    now: int,
    after: ProcessorState,
    event: Option<ShortcutEvent>,
)
    requires
        looked_for_press(before, suspended, bindings, now, after, event),
        event is Some,
    ensures
        !suspended,
        event == press_of(event->0.binding),
        event->0.binding < bindings.len(),
        chord_held(bindings[event->0.binding as int], before.pressed),
        !before.tracking.active.contains(event->0.binding),
        rested(before.tracking, event->0.binding as int, now),
{
    lemma_chord(bindings[event->0.binding as int], before.pressed);
}

/// What a look for a press leaves behind: the keys as they were, the shortcut that
/// it pressed as held since `now`, new shortcuts as last pressed one second ago,
/// and all else as it was.
pub proof fn press_look_notes_the_press(
    before: ProcessorState,
    suspended: bool,
    bindings: Seq<Seq<i32>>,
    now: int,
    after: ProcessorState,
    event: Option<ShortcutEvent>,
    j: usize,
)
    requires
        looked_for_press(before, suspended, bindings, now, after, event),
    ensures
        after.pressed == before.pressed,
        suspended ==> after.tracking == before.tracking && event is None,
        after.tracking.active.contains(j) <==> before.tracking.active.contains(j) || event
            == press_of(j),
        after.tracking.last_press.len() == if !suspended && bindings.len()
            > before.tracking.last_press.len() {
            bindings.len()
        } else {
            before.tracking.last_press.len()
        },
        j < after.tracking.last_press.len() ==> after.tracking.last_press[j as int] == if event
            == press_of(j) {
            now
        } else if j < before.tracking.last_press.len() {
            before.tracking.last_press[j as int]
        } else {
            now - 1_000_000_000
        },
{
}

// ---------------------------------------------------------------------------
// Looks for a release.

/// A look for a release that is not suspended answers every held shortcut of which
/// a key is up: with a release of it, or of one that stands before it.
pub proof fn release_look_answers_keys_up(
    before: ProcessorState,
    bindings: Seq<Seq<i32>>,
    after: ProcessorState,
    event: Option<ShortcutEvent>,
    i: usize,
)
    requires
        looked_for_release(before, false, bindings, after, event),
        i < bindings.len(),
        before.tracking.active.contains(i),
        key_up(bindings[i as int], before.pressed),
    ensures
        exists|j: usize| j <= i && event == #[trigger] release_of(j),
{
    lemma_chord(bindings[i as int], before.pressed);
    assert(before.tracking.can_release(bindings, before.pressed, i as int));
    assert(event == release_of(event->0.binding));
}

/// A look for a release has no event but a release, of a shortcut that was held and
/// of which a key is up, and it has none while suspended.
pub proof fn release_look_events_are_earned(
    before: ProcessorState,
    suspended: bool,
    bindings: Seq<Seq<i32>>,
    after: ProcessorState,
    event: Option<ShortcutEvent>,
)
    requires
        looked_for_release(before, suspended, bindings, after, event),
        event is Some,
    ensures
        !suspended,
        event == release_of(event->0.binding),
        event->0.binding < bindings.len(),
        before.tracking.active.contains(event->0.binding),
        key_up(bindings[event->0.binding as int], before.pressed),
{
    lemma_chord(bindings[event->0.binding as int], before.pressed);
}

/// What a look for a release leaves behind: the shortcut that it released as not
/// held, and all else as it was.
pub proof fn release_look_notes_the_release(
    before: ProcessorState,
    suspended: bool,
    bindings: Seq<Seq<i32>>,
    after: ProcessorState,
    event: Option<ShortcutEvent>,
    j: usize,
)
    requires
        looked_for_release(before, suspended, bindings, after, event),
    ensures
        after.pressed == before.pressed,
        suspended ==> after.tracking == before.tracking && event is None,
        after.tracking.active.contains(j) <==> before.tracking.active.contains(j) && event
            != release_of(j),
        after.tracking.last_press == before.tracking.last_press,
{
}

// ---------------------------------------------------------------------------
// Key events.

/// A key that goes down is added to those that are down, one that comes up is taken
/// away, and nothing else changes.
pub proof fn keys_are_noted_one_by_one(state: ProcessorState, key: i32, other: i32)
    ensures
        state.with_key(key).pressed.contains(other) <==> other == key || state.pressed.contains(
            other,
        ),
        state.without_key(key).pressed.contains(other) <==> other != key && state.pressed.contains(
            other,
        ),
        state.with_key(key).tracking == state.tracking,
        state.without_key(key).tracking == state.tracking,
{
}

/// A key event notes its key and no other, suspended or not.
pub proof fn inputs_note_their_key(
    before: ProcessorState,
    key: i32,
    is_pressed: bool,
    suspended: bool,
    bindings: Seq<Seq<i32>>,
    now: int,
    after: ProcessorState,
    event: Option<ShortcutEvent>,
    other: i32,
)
    requires
        input_step(before, key, is_pressed, suspended, bindings, now, after, event),
    ensures
        after.pressed.contains(key) == is_pressed,
        other != key ==> after.pressed.contains(other) == before.pressed.contains(other),
{
}

/// A key that goes down while shortcuts are not suspended answers every shortcut
/// that is then held down, was not held already and has rested: with a press of it,
/// or of one that stands before it.
pub proof fn key_press_answers_chords(
    before: ProcessorState,
    key: i32,
    bindings: Seq<Seq<i32>>,
    now: int,
    after: ProcessorState,
    event: Option<ShortcutEvent>,
    i: usize,
)
    requires
        input_step(before, key, true, false, bindings, now, after, event),
        i < bindings.len(),
        chord_held(bindings[i as int], before.pressed.insert(key)),
        !before.tracking.active.contains(i),
        rested(before.tracking, i as int, now),
    ensures
        exists|j: usize| j <= i && event == #[trigger] press_of(j),
{
    press_look_answers_chords(before.with_key(key), bindings, now, after, event, i);
}

/// A key that comes up while shortcuts are not suspended answers every held
/// shortcut of which a key is then up: with a release of it, or of one that stands
/// before it.
pub proof fn key_release_answers_keys_up(
    before: ProcessorState,
    key: i32,
    bindings: Seq<Seq<i32>>,
    now: int,
    after: ProcessorState,
    event: Option<ShortcutEvent>,
    i: usize,
)
    requires
        input_step(before, key, false, false, bindings, now, after, event),
        i < bindings.len(),
        before.tracking.active.contains(i),
        key_up(bindings[i as int], before.pressed.remove(key)),
    ensures
        exists|j: usize| j <= i && event == #[trigger] release_of(j),
{
    release_look_answers_keys_up(before.without_key(key), bindings, after, event, i);
}

/// The event of a key event is earned: a key that goes down has no event but the
/// press of a shortcut that is then held down, was not held already and had rested,
/// and one that comes up none but the release of a held shortcut of which a key is
/// then up. While suspended there is none.
pub proof fn input_events_are_earned(
    before: ProcessorState,
    key: i32,
    is_pressed: bool,
    suspended: bool,
    bindings: Seq<Seq<i32>>,
    now: int,
    after: ProcessorState,
    event: Option<ShortcutEvent>,
)
    requires
        input_step(before, key, is_pressed, suspended, bindings, now, after, event),
        event is Some,
    ensures
        !suspended,
        event->0.binding < bindings.len(),
        is_pressed ==> {
            &&& event == press_of(event->0.binding)
            &&& chord_held(bindings[event->0.binding as int], before.pressed.insert(key))
            &&& !before.tracking.active.contains(event->0.binding)
            &&& rested(before.tracking, event->0.binding as int, now)
        },
        !is_pressed ==> {
            &&& event == release_of(event->0.binding)
            &&& key_up(bindings[event->0.binding as int], before.pressed.remove(key))
            &&& before.tracking.active.contains(event->0.binding)
        },
{
    if is_pressed {
        press_look_events_are_earned(
            before.with_key(key),
            suspended,
            bindings,
            now,
            after,
            event,
        );
    } else {
        release_look_events_are_earned(before.without_key(key), suspended, bindings, after, event);
    }
}

/// What a key event notes of the shortcuts: one that it presses as held since
/// `now`, one that it releases as not held, new ones as last pressed one second ago
/// if a key went down, and all else as it was.
pub proof fn inputs_note_the_event(
    before: ProcessorState,
    key: i32,
    is_pressed: bool,
    suspended: bool,
    bindings: Seq<Seq<i32>>,
    now: int,
    after: ProcessorState,
    event: Option<ShortcutEvent>,
    j: usize,
)
    requires
        input_step(before, key, is_pressed, suspended, bindings, now, after, event),
    ensures
        after.tracking.active.contains(j) <==> event == press_of(j)
            || before.tracking.active.contains(j) && event != release_of(j),
        after.tracking.last_press.len() == if is_pressed && !suspended && bindings.len()
            > before.tracking.last_press.len() {
            bindings.len()
        } else {
            before.tracking.last_press.len()
        },
        j < after.tracking.last_press.len() ==> after.tracking.last_press[j as int] == if event
            == press_of(j) {
            now
        } else if j < before.tracking.last_press.len() {
            before.tracking.last_press[j as int]
        } else {
            now - 1_000_000_000
        },
{
}

// ---------------------------------------------------------------------------
// Polls.

/// A poll while shortcuts are not suspended answers every shortcut that is held
/// down, is not held already and has rested: with a press of it, or with an event
/// of one that stands before it.
pub proof fn poll_answers_chords(
    before: Tracking,
    bindings: Seq<Seq<i32>>,
    down: Set<i32>,
    now: int,
    after: Tracking,
    event: Option<ShortcutEvent>,
    i: usize,
)
    requires
        polled(before, false, bindings, down, now, after, event),
        i < bindings.len(),
        chord_held(bindings[i as int], down),
        !before.active.contains(i),
        rested(before, i as int, now),
    ensures
        event is Some,
        event->0.binding <= i,
        event->0.binding == i ==> event == press_of(i),
{
    lemma_chord(bindings[i as int], down);
    let known = before.enrolled(bindings.len(), now);
    assert(known.can_press(bindings, down, now, i as int));
}

/// A poll while shortcuts are not suspended answers every held shortcut of which a
/// key is up: with a release of it, or with an event of one that stands before it.
pub proof fn poll_answers_keys_up(
    before: Tracking,
    bindings: Seq<Seq<i32>>,
    down: Set<i32>,
    now: int,
    after: Tracking,
    event: Option<ShortcutEvent>,
    i: usize,
)
    requires
        polled(before, false, bindings, down, now, after, event),
        i < bindings.len(),
        before.active.contains(i),
        key_up(bindings[i as int], down),
    ensures
        event is Some,
        event->0.binding <= i,
        event->0.binding == i ==> event == release_of(i),
{
    lemma_chord(bindings[i as int], down);
    let known = before.enrolled(bindings.len(), now);
    assert(known.can_release(bindings, down, i as int));
}

/// The event of a poll is earned: a press by a shortcut that is held down, was not
/// held already and had rested, and a release by a held shortcut of which a key is
/// up. While suspended there is none.
pub proof fn poll_events_are_earned(
    before: Tracking,
    suspended: bool,
    bindings: Seq<Seq<i32>>,
    down: Set<i32>,
    now: int,
    after: Tracking,
    event: Option<ShortcutEvent>,
)
    requires
        polled(before, suspended, bindings, down, now, after, event),
        event is Some,
    ensures
        !suspended,
        event->0.binding < bindings.len(),
        event == press_of(event->0.binding) ==> {
            &&& chord_held(bindings[event->0.binding as int], down)
            &&& !before.active.contains(event->0.binding)
            &&& rested(before, event->0.binding as int, now)
        },
        event == release_of(event->0.binding) ==> {
            &&& key_up(bindings[event->0.binding as int], down)
            &&& before.active.contains(event->0.binding)
        },
{
    lemma_chord(bindings[event->0.binding as int], down);
}

/// What a poll leaves behind: a shortcut that it pressed as held since `now`, one
/// that it released as not held, new ones as last pressed one second ago, and all
/// else as it was. Only suspension makes a poll do nothing.
pub proof fn polls_note_the_event(
    before: Tracking,
    suspended: bool,
    bindings: Seq<Seq<i32>>,
    down: Set<i32>,
    now: int,
    after: Tracking,
    event: Option<ShortcutEvent>,
    j: usize,
)
    requires
        polled(before, suspended, bindings, down, now, after, event),
    ensures
        suspended ==> after == before && event is None,
        after.active.contains(j) <==> event == press_of(j) || before.active.contains(j) && event
            != release_of(j),
        after.last_press.len() == if !suspended && bindings.len() > before.last_press.len() {
            bindings.len()
        } else {
            before.last_press.len()
        },
        j < after.last_press.len() ==> after.last_press[j as int] == if event == press_of(j) {
            now
        } else if j < before.last_press.len() {
            before.last_press[j as int]
        } else {
            now - 1_000_000_000
        },
{
}

// ---------------------------------------------------------------------------
// Runs.

/// The last press of shortcut `i` is 150 ms before `time`, or more, if every look
/// that pressed it was and no look came after `time`.
proof fn lemma_rested_in_run(
    states: Seq<Tracking>,
    looks: Seq<Look>,
    b: int,
    i: usize,
    time: int,
)
    requires
        is_run(states, looks),
        states[0] == Tracking::empty(),
        0 <= b <= looks.len(),
        forall|a: int| 0 <= a < b ==> (#[trigger] looks[a]).now <= time,
        forall|a: int|
            0 <= a < b && (#[trigger] looks[a]).presses(i) ==> time - looks[a].now >= 150_000_000,
    ensures
        rested(states[b], i as int, time),
    decreases b,
{
    if b > 0 {
        lemma_rested_in_run(states, looks, b - 1, i, time);
        assert(looks[b - 1].leads(states[b - 1], states[b - 1 + 1]));
    }
}

/// One poll, with what it was made of and what came of it.
pub struct Poll {
    pub suspended: bool,
    pub bindings: Seq<Seq<i32>>,
    pub down: Set<i32>,
    pub now: int,
    pub event: Option<ShortcutEvent>,
}

/// A run of a poller from its start, at times that do not decrease.
pub open spec fn is_poll_run(states: Seq<Tracking>, polls: Seq<Poll>) -> bool {
    &&& states.len() == polls.len() + 1
    &&& states[0] == Tracking::empty()
    &&& forall|j: int, k: int| 0 <= j <= k < polls.len() ==> polls[j].now <= polls[k].now
    &&& forall|k: int|
        0 <= k < polls.len() ==> polled(
            states[k],
            (#[trigger] polls[k]).suspended,
            polls[k].bindings,
            polls[k].down,
            polls[k].now,
            states[k + 1],
            polls[k].event,
        )
}

/// In a run of a poller, a shortcut is kept from being pressed by nothing but what
/// it is for: if its keys are held down, every earlier press of it was released
/// since, and each was 150 ms before or more, then a poll that is not suspended
/// presses it, or has an event of a shortcut that stands before it.
pub proof fn poll_runs_answer_chords(states: Seq<Tracking>, polls: Seq<Poll>, b: int, i: usize)
    requires
        is_poll_run(states, polls),
        0 <= b < polls.len(),
        !polls[b].suspended,
        i < polls[b].bindings.len(),
        chord_held(polls[b].bindings[i as int], polls[b].down),
        forall|a: int|
            0 <= a < b && (#[trigger] polls[a]).event == press_of(i) ==> {
                &&& polls[b].now - polls[a].now >= 150_000_000
                &&& exists|c: int| a < c < b && (#[trigger] polls[c]).event == release_of(i)
            },
    ensures
        polls[b].event is Some,
        polls[b].event->0.binding <= i,
        polls[b].event->0.binding == i ==> polls[b].event == press_of(i),
{
    let looks = Seq::new(
        polls.len(),
        |k: int|
            Look {
                bindings: polls[k].bindings,
                down: polls[k].down,
                now: polls[k].now,
                event: polls[k].event,
            },
    );
    assert forall|k: int| 0 <= k < looks.len() implies (#[trigger] looks[k]).leads(
        states[k],
        states[k + 1],
    ) by {
        let poll = polls[k];
        polls_are_looks(
            states[k],
            poll.suspended,
            poll.bindings,
            poll.down,
            poll.now,
            states[k + 1],
            poll.event,
        );
    }
    let poll = polls[b];
    assert forall|a: int| 0 <= a < b && (#[trigger] looks[a]).presses(i) implies poll.now
        - looks[a].now >= 150_000_000 by {
        assert(polls[a].event == press_of(i));
    }
    assert forall|a: int| 0 <= a < b implies (#[trigger] looks[a]).now <= poll.now by {
        assert(polls[a].now <= polls[b].now);
    }
    lemma_rested_in_run(states, looks, b, i, poll.now);
    held_is_pressed_and_not_released(states, looks, b, i);
    assert forall|a: int| !held_since(looks, a, b, i) by {
        if held_since(looks, a, b, i) {
            assert(polls[a].event == press_of(i));
            let c = choose|c: int| a < c < b && (#[trigger] polls[c]).event == release_of(i);
            assert(looks[c].releases(i));
        }
    }
    poll_answers_chords(
        states[b],
        poll.bindings,
        poll.down,
        poll.now,
        states[b + 1],
        poll.event,
        i,
    );
}

/// In a run of a poller, a shortcut that was pressed and not released since is
/// released once a key of it is up: a poll that is not suspended releases it, or
/// has an event of a shortcut that stands before it.
pub proof fn poll_runs_answer_keys_up(
    states: Seq<Tracking>,
    polls: Seq<Poll>,
    a: int,
    b: int,
    i: usize,
)
    requires
        is_poll_run(states, polls),
        0 <= a < b < polls.len(),
        polls[a].event == press_of(i),
        forall|c: int| a < c < b ==> (#[trigger] polls[c]).event != release_of(i),
        !polls[b].suspended,
        i < polls[b].bindings.len(),
        key_up(polls[b].bindings[i as int], polls[b].down),
    ensures
        polls[b].event is Some,
        polls[b].event->0.binding <= i,
        polls[b].event->0.binding == i ==> polls[b].event == release_of(i),
{
    lemma_poll_run_holds(states, polls, a, b, i);
    let poll = polls[b];
    poll_answers_keys_up(
        states[b],
        poll.bindings,
        poll.down,
        poll.now,
        states[b + 1],
        poll.event,
        i,
    );
}

/// A shortcut that a poll pressed is held until a poll releases it.
proof fn lemma_poll_run_holds(states: Seq<Tracking>, polls: Seq<Poll>, a: int, b: int, i: usize)
    requires
        is_poll_run(states, polls),
        0 <= a < b <= polls.len(),
        polls[a].event == press_of(i),
        forall|c: int| a < c < b ==> (#[trigger] polls[c]).event != release_of(i),
    ensures
        states[b].active.contains(i),
    decreases b - a,
{
    let poll = polls[b - 1];
    if a < b - 1 {
        lemma_poll_run_holds(states, polls, a, b - 1, i);
    }
    polls_note_the_event(
        states[b - 1],
        poll.suspended,
        poll.bindings,
        poll.down,
        poll.now,
        states[b - 1 + 1],
        poll.event,
        i,
    );
}

/// In a run of an event processor, a shortcut that was pressed and not released
/// since is released once a key of it is up: a key that comes up while shortcuts
/// are not suspended releases it, or one that stands before it.
pub proof fn input_runs_answer_keys_up(
    states: Seq<ProcessorState>,
    inputs: Seq<Input>,
    a: int,
    b: int,
    i: usize,
)
    requires
        is_input_run(states, inputs),
        0 <= a < b < inputs.len(),
        inputs[a].event == press_of(i),
        forall|c: int| a < c < b ==> (#[trigger] inputs[c]).event != release_of(i),
        !inputs[b].is_pressed,
        !inputs[b].suspended,
        i < inputs[b].bindings.len(),
        key_up(inputs[b].bindings[i as int], states[b].pressed.remove(inputs[b].key)),
    ensures
        exists|j: usize| j <= i && inputs[b].event == #[trigger] release_of(j),
{
    lemma_input_run_holds(states, inputs, a, b, i);
    let input = inputs[b];
    assert(input.leads(states[b], states[b + 1]));
    key_release_answers_keys_up(
        states[b],
        input.key,
        input.bindings,
        input.now,
        states[b + 1],
        input.event,
        i,
    );
}

/// A shortcut that a key event pressed is held until one releases it.
proof fn lemma_input_run_holds(
    states: Seq<ProcessorState>,
    inputs: Seq<Input>,
    a: int,
    b: int,
    i: usize,
)
    requires
        is_input_run(states, inputs),
        0 <= a < b <= inputs.len(),
        inputs[a].event == press_of(i),
        forall|c: int| a < c < b ==> (#[trigger] inputs[c]).event != release_of(i),
    ensures
        states[b].tracking.active.contains(i),
    decreases b - a,
{
    let input = inputs[b - 1];
    if a < b - 1 {
        lemma_input_run_holds(states, inputs, a, b - 1, i);
    }
    assert(input.leads(states[b - 1], states[b - 1 + 1]));
    inputs_note_the_event(
        states[b - 1],
        input.key,
        input.is_pressed,
        input.suspended,
        input.bindings,
        input.now,
        states[b - 1 + 1],
        input.event,
        i,
    );
}

/// In a run of an event processor, a shortcut is kept from being pressed by nothing
/// but what it is for: if a key goes down while shortcuts are not suspended, the
/// keys of the shortcut are then held down, every earlier press of it was released
/// since, and each was 150 ms before or more, then the key event presses it, or a
/// shortcut that stands before it.
pub proof fn input_runs_answer_chords(
    states: Seq<ProcessorState>,
    inputs: Seq<Input>,
    b: int,
    i: usize,
)
    requires
        is_input_run(states, inputs),
        forall|j: int, k: int| 0 <= j <= k < inputs.len() ==> inputs[j].now <= inputs[k].now,
        0 <= b < inputs.len(),
        inputs[b].is_pressed,
        !inputs[b].suspended,
        i < inputs[b].bindings.len(),
        chord_held(inputs[b].bindings[i as int], states[b].pressed.insert(inputs[b].key)),
        forall|a: int|
            0 <= a < b && (#[trigger] inputs[a]).event == press_of(i) ==> {
                &&& inputs[b].now - inputs[a].now >= 150_000_000
                &&& exists|c: int| a < c < b && (#[trigger] inputs[c]).event == release_of(i)
            },
    ensures
        exists|j: usize| j <= i && inputs[b].event == #[trigger] press_of(j),
{
    let trackings = trackings_of(states);
    let looks = looks_of(states, inputs);
    input_run_is_run(states, inputs);
    let input = inputs[b];
    assert forall|a: int| 0 <= a < b && (#[trigger] looks[a]).presses(i) implies input.now
        - looks[a].now >= 150_000_000 by {
        assert(inputs[a].event == press_of(i));
    }
    assert forall|a: int| 0 <= a < b implies (#[trigger] looks[a]).now <= input.now by {
        assert(inputs[a].now <= inputs[b].now);
    }
    lemma_rested_in_run(trackings, looks, b, i, input.now);
    held_is_pressed_and_not_released(trackings, looks, b, i);
    assert forall|a: int| !held_since(looks, a, b, i) by {
        if held_since(looks, a, b, i) {
            assert(inputs[a].event == press_of(i));
            let c = choose|c: int| a < c < b && (#[trigger] inputs[c]).event == release_of(i);
            assert(looks[c].releases(i));
        }
    }
    assert(input.leads(states[b], states[b + 1]));
    key_press_answers_chords(
        states[b],
        input.key,
        input.bindings,
        input.now,
        states[b + 1],
        input.event,
        i,
    );
}

} // verus!
