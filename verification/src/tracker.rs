//! Which shortcuts are held, when each was last pressed, and what an
//! observation of the keyboard does to that.

use std::collections::HashSet;
use vstd::prelude::*;

use crate::binding::{KeyEventType, ShortcutEvent};
#[allow(unused_imports)]
use crate::binding::{all_down, extra_modifier};

verus! {

broadcast use vstd::std_specs::hash::group_hash_axioms;

/// A shortcut cannot be pressed again before this many nanoseconds have passed
/// since it was last pressed (150 ms).
pub const DEBOUNCE_NANOS: u64 = 150_000_000;

/// How far in the past a shortcut that is new counts as last pressed (1 s).
pub const BACKDATE_NANOS: u64 = 1_000_000_000;

/// What is remembered of the shortcuts: when each was last pressed, in
/// nanoseconds, and the positions of those that are held.
#[verifier::ext_equal]
pub struct Tracking {
    pub last_press: Seq<int>,
    pub active: Set<usize>,
}

impl Tracking {
    /// Nothing was pressed yet.
    pub open spec fn empty() -> Tracking {
        Tracking { last_press: Seq::empty(), active: Set::empty() }
    }

    /// `count` shortcuts are known; new ones count as last pressed one second
    /// before `now`.
    pub open spec fn enrolled(self, count: nat, now: int) -> Tracking {
        Tracking {
            last_press: Seq::new(
                if self.last_press.len() < count {
                    count
                } else {
                    self.last_press.len()
                },
                |i: int|
                    if i < self.last_press.len() {
                        self.last_press[i]
                    } else {
                        now - BACKDATE_NANOS
                    },
            ),
            ..self
        }
    }

    /// Shortcut `i` was pressed at `now`.
    pub open spec fn pressed(self, i: usize, now: int) -> Tracking {
        Tracking {
            last_press: self.last_press.update(i as int, now),
            active: self.active.insert(i),
        }
    }

    /// Shortcut `i` was released.
    pub open spec fn released(self, i: usize) -> Tracking {
        Tracking { active: self.active.remove(i), ..self }
    }

    /// Shortcut `i` can be pressed at `now`: it has keys, it is not held, its keys
    /// are all down, no other modifier is, and its last press is long enough ago.
    pub open spec fn can_press(
        self,
        bindings: Seq<Seq<i32>>,
        down: Set<i32>,
        now: int,
        i: int,
    ) -> bool {
        &&& bindings[i].len() > 0
        &&& !self.active.contains(i as usize)
        &&& all_down(bindings[i], down)
        &&& !extra_modifier(bindings[i], down)
        &&& now - self.last_press[i] >= DEBOUNCE_NANOS
    }

    /// Shortcut `i` can be released: it is held, and one of its keys is not down.
    pub open spec fn can_release(self, bindings: Seq<Seq<i32>>, down: Set<i32>, i: int) -> bool {
        &&& self.active.contains(i as usize)
        &&& !all_down(bindings[i], down)
    }
}

/// A look for a press: the first shortcut that can be pressed is.
pub open spec fn press_step(
    before: Tracking,
    bindings: Seq<Seq<i32>>,
    down: Set<i32>,
    now: int,
    after: Tracking,
    event: Option<ShortcutEvent>,
) -> bool {
    let known = before.enrolled(bindings.len(), now);
    match event {
        None => {
            &&& after == known
            &&& forall|i: int|
                0 <= i < bindings.len() ==> !#[trigger] known.can_press(bindings, down, now, i)
        },
        Some(e) => {
            &&& e.event_type == KeyEventType::Pressed
            &&& 0 <= e.binding < bindings.len()
            &&& known.can_press(bindings, down, now, e.binding as int)
            &&& forall|i: int|
                0 <= i < e.binding ==> !#[trigger] known.can_press(bindings, down, now, i)
            &&& after == known.pressed(e.binding, now)
        },
    }
}

/// A look for a release: the first shortcut that can be released is.
pub open spec fn release_step(
    before: Tracking,
    bindings: Seq<Seq<i32>>,
    down: Set<i32>,
    after: Tracking,
    event: Option<ShortcutEvent>,
) -> bool {
    match event {
        None => {
            &&& after == before
            &&& forall|i: int|
                0 <= i < bindings.len() ==> !#[trigger] before.can_release(bindings, down, i)
        },
        Some(e) => {
            &&& e.event_type == KeyEventType::Released
            &&& 0 <= e.binding < bindings.len()
            &&& before.can_release(bindings, down, e.binding as int)
            &&& forall|i: int|
                0 <= i < e.binding ==> !#[trigger] before.can_release(bindings, down, i)
            &&& after == before.released(e.binding)
        },
    }
}

/// A look for either: the first shortcut that can be pressed or released is.
pub open spec fn poll_step(
    before: Tracking,
    bindings: Seq<Seq<i32>>,
    down: Set<i32>,
    now: int,
    after: Tracking,
    event: Option<ShortcutEvent>,
) -> bool {
    let known = before.enrolled(bindings.len(), now);
    match event {
        None => {
            &&& after == known
            &&& forall|i: int|
                0 <= i < bindings.len() ==> !#[trigger] known.can_press(bindings, down, now, i)
            &&& forall|i: int|
                0 <= i < bindings.len() ==> !#[trigger] known.can_release(bindings, down, i)
        },
        Some(e) => {
            &&& 0 <= e.binding < bindings.len()
            &&& match e.event_type {
                KeyEventType::Pressed => {
                    &&& known.can_press(bindings, down, now, e.binding as int)
                    &&& after == known.pressed(e.binding, now)
                },
                KeyEventType::Released => {
                    &&& known.can_release(bindings, down, e.binding as int)
                    &&& after == known.released(e.binding)
                },
            }
            &&& forall|i: int|
                0 <= i < e.binding ==> !#[trigger] known.can_press(bindings, down, now, i)
            &&& forall|i: int|
                0 <= i < e.binding ==> !#[trigger] known.can_release(bindings, down, i)
        },
    }
}

/// The press times and held shortcuts of a running program.
pub struct PressTracker {
    last_press_times: Vec<i128>,
    active_bindings: HashSet<usize>,
}

impl View for PressTracker {
    type V = Tracking;

    closed spec fn view(&self) -> Tracking {
        Tracking {
            last_press: Seq::new(
                self.last_press_times@.len(),
                |i: int| self.last_press_times@[i] as int,
            ),
            active: self.active_bindings@,
        }
    }
}

impl PressTracker {
    /// A tracker that knows of no shortcut yet.
    pub fn new() -> (r: PressTracker)
        ensures
            r@ == Tracking::empty(),
    {
        PressTracker { last_press_times: Vec::new(), active_bindings: HashSet::new() }
    }

    /// Makes room for `count` shortcuts.
    pub fn enroll(&mut self, count: usize, now: u64)
        ensures
            final(self)@ == old(self)@.enrolled(count as nat, now as int),
    {
        let ghost before = self@;
        while self.last_press_times.len() < count
            invariant
                before.last_press.len() <= self.last_press_times@.len(),
                self.last_press_times@.len() <= before.last_press.len()
                    || self.last_press_times@.len() <= count,
                self.active_bindings@ == before.active,
                forall|i: int|
                    0 <= i < self.last_press_times@.len() ==> self.last_press_times@[i] as int
                        == if i < before.last_press.len() {
                        before.last_press[i]
                    } else {
                        now - BACKDATE_NANOS
                    },
            decreases count - self.last_press_times.len(),
        {
            self.last_press_times.push(now as i128 - BACKDATE_NANOS as i128);
        }
        assert(self@ =~= before.enrolled(count as nat, now as int));
    }

    /// Whether shortcut `i` is held.
    pub fn is_active(&self, i: usize) -> (r: bool)
        ensures
            r == self@.active.contains(i),
    {
        self.active_bindings.contains(&i)
    }

    /// Whether the last press of shortcut `i` is too recent for another.
    pub fn is_debounced(&self, i: usize, now: u64) -> (r: bool)
        requires
            i < self@.last_press.len(),
        ensures
            r == (now - self@.last_press[i as int] < DEBOUNCE_NANOS),
    {
        self.last_press_times[i] > now as i128 - DEBOUNCE_NANOS as i128
    }

    /// Notes that shortcut `i` is pressed at `now`.
    pub fn press(&mut self, i: usize, now: u64)
        requires
            i < old(self)@.last_press.len(),
        ensures
            final(self)@ == old(self)@.pressed(i, now as int),
    {
        self.last_press_times[i] = now as i128;
        self.active_bindings.insert(i);
        assert(self@ =~= old(self)@.pressed(i, now as int));
    }

    /// Notes that shortcut `i` is released.
    pub fn release(&mut self, i: usize)
        ensures
            final(self)@ == old(self)@.released(i),
    {
        self.active_bindings.remove(&i);
        assert(self@ =~= old(self)@.released(i));
    }
}

} // verus!
