//! Running statistics of the readings' differences over one calendar day.

use vstd::prelude::*;
use crate::calendar::Day;

verus! {

/// The bounds a day starts with, before any reading widens them.
pub const INITIAL_MIN: i16 = 200;
pub const INITIAL_MAX: i16 = 1600;

/// The reading count a day restarts from at rollover: about five minutes of
/// samples at the expected rate of twelve a minute.
pub const ROLLOVER_READINGS: usize = 60;

/// Statistics of one day. The running mean is kept by the caller in `M`
/// (a floating-point value in practice), since this library does no
/// floating-point arithmetic: the caller forms the new mean from
/// `num_readings`, `mean` and the new difference, and hands it in.
#[derive(Clone, Copy, Debug)]
pub struct DayStats<M> {
    pub num_readings: usize,
    pub mean: M,
    pub min: i16,
    pub max: i16,
    pub day: Day,
}

pub open spec fn min_int(a: int, b: int) -> int {
    if a <= b { a } else { b }
}

pub open spec fn max_int(a: int, b: int) -> int {
    if a >= b { a } else { b }
}

impl<M: Copy> DayStats<M> {
    pub open spec fn new_spec(day: Day, mean: M) -> DayStats<M> {
        DayStats { num_readings: 0, mean, min: INITIAL_MIN, max: INITIAL_MAX, day }
    }

    /// A day with no readings yet and the initial bounds.
    pub fn new(day: Day, mean: M) -> (r: DayStats<M>)
        ensures
            r == Self::new_spec(day, mean),
    {
        DayStats { num_readings: 0, mean, min: INITIAL_MIN, max: INITIAL_MAX, day }
    }

    /// These statistics after one more reading of difference `x`, with `mean`
    /// as the new running mean.
    pub open spec fn counting(self, x: int, mean: M) -> DayStats<M> {
        DayStats {
            num_readings: (self.num_readings + 1) as usize,
            mean,
            min: min_int(self.min as int, x) as i16,
            max: max_int(self.max as int, x) as i16,
            day: self.day,
        }
    }

    /// Counts one more reading of difference `x`; `mean` is the new running mean.
    pub fn count_reading(&mut self, x: i16, mean: M)
        requires
            old(self).num_readings < usize::MAX,
        ensures
            *final(self) == old(self).counting(x as int, mean),
    {
        self.mean = mean;
        self.num_readings = self.num_readings + 1;
        if x > self.max {
            self.max = x;
        }
        if x < self.min {
            self.min = x;
        }
    }
}

} // verus!
