//! One min/max power sample with the time it was taken.

use vstd::prelude::*;
use crate::calendar::{local_now, Timestamp};

verus! {

/// A power reading from a single machine.
#[derive(Clone, Copy, Debug, PartialEq, Eq, Structural)]
pub struct PowerReading {
    pub min: i16,
    pub max: i16,
    pub timestamp: Timestamp,
}

impl PowerReading {
    /// `max - min`, the quantity tracked throughout.
    pub open spec fn diff(self) -> int {
        self.max - self.min
    }

    /// The difference fits the sample type and the timestamp is a real local time.
    pub open spec fn wf(self) -> bool {
        &&& i16::MIN <= self.diff() <= i16::MAX
        &&& self.timestamp.wf()
    }

    /// A reading stamped with the current local time.
    pub fn new(min: i16, max: i16) -> (r: PowerReading)
        ensures
            r.min == min,
            r.max == max,
            r.timestamp.wf(),
    {
        PowerReading { min, max, timestamp: local_now() }
    }

    pub fn at_time(timestamp: Timestamp, min: i16, max: i16) -> (r: PowerReading)
        ensures
            r == (PowerReading { min, max, timestamp }),
    {
        PowerReading { min, max, timestamp }
    }

    pub fn difference(&self) -> (r: i16)
        requires
            i16::MIN <= self.diff() <= i16::MAX,
        ensures
            r == self.diff(),
    {
        self.max - self.min
    }
}

} // verus!
