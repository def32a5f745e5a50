//! A monotonic clock that counts nanoseconds from the moment it was started.

use std::time::Instant;
use vstd::prelude::*;

verus! {

/// `std::time::Instant`, carried through without looking inside.
#[verifier::external_type_specification]
#[verifier::external_body]
pub struct ExInstant(std::time::Instant);

/// `std::time::Instant::now`. Nothing is claimed of the instant it returns.
pub assume_specification[ std::time::Instant::now ]() -> Instant;

/// `std::time::Instant::elapsed`, as a number of nanoseconds. Nothing is claimed
/// of the number: it is whatever the machine's clock says.
#[verifier::external_body]
fn elapsed_nanos(start: &Instant) -> u128 {
    start.elapsed().as_nanos()
}

/// Counts nanoseconds from the moment it was started, and never back.
pub(crate) struct Clock {
    start: Instant,
    last: u64,
}

/// `nanos` as a `u64`, or the largest `u64` where it does not fit.
pub(crate) fn saturating_nanos(nanos: u128) -> (r: u64)
    ensures
        r as int == if nanos <= u64::MAX {
            nanos as int
        } else {
            u64::MAX as int
        },
{
    if nanos <= u64::MAX as u128 {
        nanos as u64
    } else {
        u64::MAX
    }
}

impl Clock {
    /// The instant from which the clock counts.
    pub(crate) closed spec fn started(&self) -> Instant {
        self.start
    }

    /// What the clock gave last; zero before its first reading.
    pub(crate) closed spec fn last_reading(&self) -> int {
        self.last as int
    }

    /// Starts a clock at the instant that the machine gives, of which nothing is
    /// known.
    pub(crate) fn start() -> (r: Clock)
        ensures
            r.last_reading() == 0,
    {
        Clock { start: Instant::now(), last: 0 }
    }

    /// Takes a reading of so many nanoseconds: it is what the clock gives, unless it
    /// gave more before.
    fn take_reading(&mut self, nanos: u128) -> (r: u64)
        ensures
            final(self).started() == old(self).started(),
            r as int == final(self).last_reading(),
            final(self).last_reading() == if nanos <= old(self).last_reading() {
                old(self).last_reading()
            } else if nanos <= u64::MAX {
                nanos as int
            } else {
                u64::MAX as int
            },
    {
        let reading: u64 = saturating_nanos(nanos);
        if reading > self.last {
            self.last = reading;
        }
        self.last
    }

    /// The nanoseconds since the clock was started, and no less than it gave
    /// before. The reading is the machine's, so nothing else is known of it.
    pub(crate) fn now(&mut self) -> (r: u64)
        ensures
            final(self).started() == old(self).started(),
            old(self).last_reading() <= final(self).last_reading(),
            r as int == final(self).last_reading(),
    {
        let nanos: u128 = elapsed_nanos(&self.start);
        self.take_reading(nanos)
    }
}

} // verus!
