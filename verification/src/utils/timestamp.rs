//! Timestamps with a resolution of one microsecond.

use vstd::prelude::*;
use vstd::std_specs::convert::FromSpecImpl;

verus! {

/// A point in time as a count of microseconds. Its view is that count.
#[derive(Copy, Clone, Debug, PartialEq, Eq, PartialOrd, Structural)]
pub struct Timestamp(u64);

impl View for Timestamp {
    type V = u64;

    closed spec fn view(&self) -> u64 {
        self.0
    }
}

impl Timestamp {
    /// The timestamp of `micros` microseconds.
    pub closed spec fn at(micros: u64) -> Timestamp {
        Timestamp(micros)
    }

    /// The timestamp of a count of microseconds holds that count, and a
    /// timestamp is the timestamp of the count it holds.
    pub proof fn lemma_at(micros: u64, stamp: Timestamp)
        ensures
            Timestamp::at(micros)@ == micros,
            Timestamp::at(stamp@) == stamp,
    {
    }

    /// The microseconds of this timestamp.
    pub fn as_micros(&self) -> (r: u64)
        ensures
            r == self@,
    {
        self.0
    }

    /// The whole milliseconds of this timestamp.
    pub fn as_millis(&self) -> (r: u64)
        ensures
            r == self@ / 1_000,
    {
        self.0 / 1_000
    }

    /// The nanoseconds of this timestamp.
    pub fn as_nanos(&self) -> (r: u128)
        ensures
            r == self@ * 1_000,
    {
        let micros: u128 = self.0 as u128;
        micros * 1_000
    }

    /// The whole seconds of this timestamp.
    pub fn as_secs(&self) -> (r: u64)
        ensures
            r == self@ / 1_000_000,
    {
        self.0 / 1_000_000
    }

    /// The microseconds from `earlier` to this timestamp; zero where `earlier`
    /// is in fact the later of the two.
    pub fn micros_since(&self, earlier: Timestamp) -> (r: u64)
        ensures
            r == (if self@ >= earlier@ {
                self@ - earlier@
            } else {
                0
            }),
    {
        if self.0 >= earlier.0 {
            self.0 - earlier.0
        } else {
            0
        }
    }
}

impl From<u64> for Timestamp {
    fn from(val: u64) -> (r: Self) {
        Timestamp(val)
    }
}

impl FromSpecImpl<u64> for Timestamp {
    open spec fn obeys_from_spec() -> bool {
        true
    }

    open spec fn from_spec(val: u64) -> Self {
        Timestamp::at(val)
    }
}

impl From<Timestamp> for u64 {
    fn from(val: Timestamp) -> (r: u64) {
        val.0
    }
}

impl FromSpecImpl<Timestamp> for u64 {
    open spec fn obeys_from_spec() -> bool {
        true
    }

    open spec fn from_spec(val: Timestamp) -> u64 {
        val@
    }
}

} // verus!
