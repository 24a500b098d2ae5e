//! The history of one channel: a window of the most recent readings and the
//! statistics of today and of the day before.

use vstd::prelude::*;
use crate::calendar::{local_now, Day, Timestamp};
use crate::reading::PowerReading;
use crate::stats::{DayStats, ROLLOVER_READINGS};

verus! {

/// How many readings the window holds, always.
pub const HISTORY_SIZE: usize = 9;

/// Sum of the `min` values of a sequence of readings.
pub open spec fn sum_min(s: Seq<PowerReading>) -> int
    decreases s.len(),
{
    if s.len() == 0 { 0 } else { sum_min(s.drop_last()) + s.last().min }
}

/// Sum of the `max` values of a sequence of readings.
pub open spec fn sum_max(s: Seq<PowerReading>) -> int
    decreases s.len(),
{
    if s.len() == 0 { 0 } else { sum_max(s.drop_last()) + s.last().max }
}

/// Integer division rounded toward zero.
pub open spec fn trunc_div(a: int, b: int) -> int {
    if a >= 0 { a / b } else { -((-a) / b) }
}

/// Readings in ascending order of their difference.
pub open spec fn sorted_by_difference(s: Seq<PowerReading>) -> bool {
    forall|i: int, j: int| 0 <= i < j < s.len() ==> s[i].diff() <= s[j].diff()
}

/// `s` holds the readings of `w`, each as often, in ascending order of difference.
pub open spec fn is_sorted_arrangement(s: Seq<PowerReading>, w: Seq<PowerReading>) -> bool {
    &&& s.to_multiset() == w.to_multiset()
    &&& sorted_by_difference(s)
}

/// The mean of `count` values of `i16` that sum to `sum`, rounded toward zero.
fn truncated_mean(sum: i32, count: i32) -> (r: i16)
    requires
        count == HISTORY_SIZE,
        -32768 * count <= sum <= 32767 * count,
    ensures
        r == trunc_div(sum as int, count as int),
{
    if sum >= 0 {
        (sum / count) as i16
    } else {
        let q = (-sum) / count;
        (-q) as i16
    }
}

#[derive(Clone, Debug)]
pub struct ChannelPowerHistory<M> {
    /// Oldest first.
    pub readings: Vec<PowerReading>,
    pub today_stats: DayStats<M>,
    pub yesterday_stats: Option<DayStats<M>>,
}

impl<M: Copy> ChannelPowerHistory<M> {
    /// The window holds exactly `HISTORY_SIZE` readings, each well formed.
    pub open spec fn wf(self) -> bool {
        &&& self.readings@.len() == HISTORY_SIZE
        &&& forall|i: int| 0 <= i < self.readings@.len() ==> #[trigger] self.readings@[i].wf()
    }

    /// `self` is `old` after `reading` was pushed on `today`, with `mean` as
    /// the new running mean.
    pub open spec fn is_update_of(self, old: Self, reading: PowerReading, today: Day, mean: M) -> bool {
        let counted = old.today_stats.counting(reading.diff(), mean);
        &&& self.readings@ == old.readings@.drop_first().push(reading)
        &&& if counted.day != today {
            &&& self.yesterday_stats == Some(counted)
            &&& self.today_stats == (DayStats { num_readings: ROLLOVER_READINGS, day: today, ..counted })
        } else {
            &&& self.yesterday_stats == old.yesterday_stats
            &&& self.today_stats == counted
        }
    }

    /// A fresh history: a full window of zero readings stamped `timestamp`,
    /// no yesterday, and today's statistics starting on the day of `timestamp`.
    pub open spec fn is_fresh(self, timestamp: Timestamp, mean: M) -> bool {
        &&& self.wf()
        &&& forall|i: int| 0 <= i < self.readings@.len() ==> #[trigger] self.readings@[i] == (
        PowerReading { min: 0, max: 0, timestamp })
        &&& self.today_stats == DayStats::<M>::new_spec(timestamp.date, mean)
        &&& self.yesterday_stats is None
    }

    /// A fresh history stamped `timestamp`.
    pub fn starting_at(timestamp: Timestamp, mean: M) -> (r: ChannelPowerHistory<M>)
        requires
            timestamp.wf(),
        ensures
            r.is_fresh(timestamp, mean),
    {
        let mut readings: Vec<PowerReading> = Vec::with_capacity(HISTORY_SIZE);
        let mut k: usize = 0;
        while k < HISTORY_SIZE
            invariant
                k <= HISTORY_SIZE,
                readings@.len() == k,
                forall|i: int| 0 <= i < k ==> #[trigger] readings@[i] == (PowerReading { min: 0, max: 0, timestamp }),
            decreases HISTORY_SIZE - k,
        {
            readings.push(PowerReading::at_time(timestamp, 0, 0));
            k = k + 1;
        }
        ChannelPowerHistory {
            readings,
            today_stats: DayStats::new(timestamp.date, mean),
            yesterday_stats: None,
        }
    }

    /// A fresh history stamped with the current local time.
    pub fn new(mean: M) -> (r: ChannelPowerHistory<M>)
        ensures
            r.is_fresh(r.readings@.last().timestamp, mean),
            r.readings@.last().timestamp.wf(),
    {
        ChannelPowerHistory::starting_at(local_now(), mean)
    }

    /// A reading whose `min` and `max` are the means of the window's, rounded
    /// toward zero, stamped as the newest reading.
    pub fn average_reading(&self) -> (r: PowerReading)
        requires
            self.wf(),
        ensures
            r.min == trunc_div(sum_min(self.readings@), HISTORY_SIZE as int),
            r.max == trunc_div(sum_max(self.readings@), HISTORY_SIZE as int),
            r.timestamp == self.readings@.last().timestamp,
    {
        let n = self.readings.len();
        let timestamp = self.readings[n - 1].timestamp;
        let mut min_sum: i32 = 0;
        let mut max_sum: i32 = 0;
        let mut k: usize = 0;
        while k < n
            invariant
                n == self.readings@.len(),
                n == HISTORY_SIZE,
                k <= n,
                min_sum == sum_min(self.readings@.take(k as int)),
                max_sum == sum_max(self.readings@.take(k as int)),
                -32768 * k <= min_sum <= 32767 * k,
                -32768 * k <= max_sum <= 32767 * k,
            decreases n - k,
        {
            let reading = self.readings[k];
            assert(self.readings@.take(k + 1).drop_last() == self.readings@.take(k as int));
            min_sum = min_sum + reading.min as i32;
            max_sum = max_sum + reading.max as i32;
            k = k + 1;
        }
        assert(self.readings@.take(n as int) == self.readings@);
        let min_mean = truncated_mean(min_sum, n as i32);
        let max_mean = truncated_mean(max_sum, n as i32);
        PowerReading::at_time(timestamp, min_mean, max_mean)
    }

    /// The window's readings in ascending order of difference.
    fn sorted_window(&self) -> (r: Vec<PowerReading>)
        requires
            self.wf(),
        ensures
            is_sorted_arrangement(r@, self.readings@),
            r@.len() == self.readings@.len(),
    {
        let n = self.readings.len();
        let mut sorted: Vec<PowerReading> = Vec::with_capacity(n);
        let mut k: usize = 0;
        assert(sorted@ == self.readings@.take(0));
        while k < n
            invariant
                self.wf(),
                n == self.readings@.len(),
                k <= n,
                sorted@.len() == k,
                is_sorted_arrangement(sorted@, self.readings@.take(k as int)),
                forall|i: int| 0 <= i < sorted@.len() ==> #[trigger] sorted@[i].wf(),
            decreases n - k,
        {
            let reading = self.readings[k];
            assert(self.readings@[k as int].wf());
            let x = reading.difference();
            let ghost before = sorted@;
            let mut pos: usize = 0;
            let mut found = false;
            while !found && pos < sorted.len()
                invariant
                    sorted@ == before,
                    pos <= sorted@.len(),
                    forall|i: int| 0 <= i < sorted@.len() ==> #[trigger] sorted@[i].wf(),
                    forall|i: int| 0 <= i < pos ==> #[trigger] sorted@[i].diff() <= x,
                    found ==> pos < sorted@.len() && sorted@[pos as int].diff() > x,
                decreases sorted@.len() - pos + (if found { 0int } else { 1int }),
            {
                assert(sorted@[pos as int].wf());
                if sorted[pos].difference() <= x {
                    pos = pos + 1;
                } else {
                    found = true;
                }
            }
            proof {
                let s = sorted@;
                vstd::seq_lib::to_multiset_insert(s, pos as int, reading);
                let w = self.readings@;
                assert(w.take(k + 1) == w.take(k as int).push(reading));
                w.take(k as int).to_multiset_ensures();
            }
            sorted.insert(pos, reading);
            proof {
                let s = sorted@;
                assert forall|i: int, j: int| 0 <= i < j < s.len() implies s[i].diff() <= s[j].diff() by {
                    if j < pos {
                    } else if j == pos {
                    } else if i < pos {
                    } else if i == pos {
                        if j > pos + 1 {
                            assert(s[pos + 1] == before[pos as int]);
                            assert(s[j] == before[j - 1]);
                        }
                    } else {
                        assert(s[i] == before[i - 1]);
                        assert(s[j] == before[j - 1]);
                    }
                }
            }
            k = k + 1;
        }
        assert(self.readings@.take(n as int) == self.readings@);
        sorted
    }

    /// The window's middle reading by difference, stamped as the newest reading.
    /// Among readings of equal difference any one may be taken.
    pub fn median_reading(&self) -> (r: PowerReading)
        requires
            self.wf(),
        ensures
            exists|s: Seq<PowerReading>|
                #[trigger] is_sorted_arrangement(s, self.readings@) && r.min == s[(HISTORY_SIZE / 2) as int].min
                    && r.max == s[(HISTORY_SIZE / 2) as int].max,
            r.timestamp == self.readings@.last().timestamp,
    {
        let n = self.readings.len();
        let timestamp = self.readings[n - 1].timestamp;
        let sorted = self.sorted_window();
        let median = sorted[n / 2];
        PowerReading::at_time(timestamp, median.min, median.max)
    }

    /// Pushes `reading`, evicting the oldest, counts it in today's statistics,
    /// and rolls the day over when `today` is not the statistics' day.
    pub fn push_and_update(&mut self, reading: PowerReading, today: Day, mean: M)
        requires
            old(self).wf(),
            reading.wf(),
            old(self).today_stats.num_readings < usize::MAX,
        ensures
            final(self).wf(),
            final(self).is_update_of(*old(self), reading, today, mean),
    {
        self.readings.remove(0);
        self.readings.push(reading);
        let x = reading.difference();
        self.today_stats.count_reading(x, mean);
        if self.today_stats.day != today {
            self.yesterday_stats = Some(self.today_stats);
            self.today_stats.num_readings = ROLLOVER_READINGS;
            self.today_stats.day = today;
        }
        proof {
            assert forall|i: int| 0 <= i < self.readings@.len() implies #[trigger] self.readings@[i].wf() by {
                if i < HISTORY_SIZE - 1 {
                    assert(self.readings@[i] == old(self).readings@[i + 1]);
                }
            }
        }
    }
}

} // verus!
