//! The four channels together: the single mutating entry point and the
//! snapshot that pairs the full state with each channel's median reading.

use vstd::prelude::*;
use crate::calendar::{local_now, Day};
use crate::channel::{is_sorted_arrangement, ChannelPowerHistory, HISTORY_SIZE};
use crate::reading::PowerReading;

verus! {

/// Readings from all monitored machines, one per channel.
#[derive(Clone, Copy, Debug)]
pub struct PowerReadings {
    pub a0: PowerReading,
    pub a1: PowerReading,
    pub a2: PowerReading,
    pub a3: PowerReading,
}

impl PowerReadings {
    pub open spec fn wf(self) -> bool {
        self.a0.wf() && self.a1.wf() && self.a2.wf() && self.a3.wf()
    }
}

/// The new running mean of each channel, in channel order.
pub type ChannelMeans<M> = (M, M, M, M);

#[derive(Clone, Debug)]
pub struct PowerHistory<M> {
    pub a0: ChannelPowerHistory<M>,
    pub a1: ChannelPowerHistory<M>,
    pub a2: ChannelPowerHistory<M>,
    pub a3: ChannelPowerHistory<M>,
}

impl<M: Copy> PowerHistory<M> {
    pub open spec fn wf(self) -> bool {
        self.a0.wf() && self.a1.wf() && self.a2.wf() && self.a3.wf()
    }

    /// Every channel's count of readings today can grow by one.
    pub open spec fn can_count(self) -> bool {
        &&& self.a0.today_stats.num_readings < usize::MAX
        &&& self.a1.today_stats.num_readings < usize::MAX
        &&& self.a2.today_stats.num_readings < usize::MAX
        &&& self.a3.today_stats.num_readings < usize::MAX
    }

    /// `self` is `old` after each channel took its reading on `today`.
    pub open spec fn is_update_of(
        self,
        old: Self,
        readings: PowerReadings,
        today: Day,
        means: ChannelMeans<M>,
    ) -> bool {
        &&& self.a0.is_update_of(old.a0, readings.a0, today, means.0)
        &&& self.a1.is_update_of(old.a1, readings.a1, today, means.1)
        &&& self.a2.is_update_of(old.a2, readings.a2, today, means.2)
        &&& self.a3.is_update_of(old.a3, readings.a3, today, means.3)
    }

    /// Four fresh channels, each stamped with the current local time.
    pub fn new(mean: M) -> (r: PowerHistory<M>)
        ensures
            r.wf(),
            r.a0.is_fresh(r.a0.readings@.last().timestamp, mean),
            r.a1.is_fresh(r.a1.readings@.last().timestamp, mean),
            r.a2.is_fresh(r.a2.readings@.last().timestamp, mean),
            r.a3.is_fresh(r.a3.readings@.last().timestamp, mean),
    {
        PowerHistory {
            a0: ChannelPowerHistory::new(mean),
            a1: ChannelPowerHistory::new(mean),
            a2: ChannelPowerHistory::new(mean),
            a3: ChannelPowerHistory::new(mean),
        }
    }

    /// Hands each channel its reading, all under the one day `today`.
    pub fn update_on(&mut self, readings: &PowerReadings, today: Day, means: ChannelMeans<M>)
        requires
            old(self).wf(),
            old(self).can_count(),
            readings.wf(),
        ensures
            final(self).wf(),
            final(self).is_update_of(*old(self), *readings, today, means),
    {
        self.a0.push_and_update(readings.a0, today, means.0);
        self.a1.push_and_update(readings.a1, today, means.1);
        self.a2.push_and_update(readings.a2, today, means.2);
        self.a3.push_and_update(readings.a3, today, means.3);
    }

    /// Hands each channel its reading, under the current local day read once.
    pub fn update(&mut self, readings: &PowerReadings, means: ChannelMeans<M>)
        requires
            old(self).wf(),
            old(self).can_count(),
            readings.wf(),
        ensures
            final(self).wf(),
            exists|today: Day| today.wf() && #[trigger] final(self).is_update_of(*old(self), *readings, today, means),
    {
        let today = local_now().date;
        self.update_on(readings, today, means);
    }
}

/// `r` is a median reading of the window `w`, as `median_reading` gives it.
pub open spec fn is_median_of(r: PowerReading, w: Seq<PowerReading>) -> bool {
    &&& exists|s: Seq<PowerReading>|
        #[trigger] is_sorted_arrangement(s, w) && r.min == s[(HISTORY_SIZE / 2) as int].min
            && r.max == s[(HISTORY_SIZE / 2) as int].max
    &&& r.timestamp == w.last().timestamp
}

/// Response to a query: the full state and each channel's median reading.
#[derive(Clone, Debug)]
pub struct PowerResponse<M> {
    pub history: PowerHistory<M>,
    pub a0: PowerReading,
    pub a1: PowerReading,
    pub a2: PowerReading,
    pub a3: PowerReading,
}

impl<M: Copy> PowerResponse<M> {
    pub fn new(history: PowerHistory<M>) -> (r: PowerResponse<M>)
        requires
            history.wf(),
        ensures
            r.history == history,
            is_median_of(r.a0, history.a0.readings@),
            is_median_of(r.a1, history.a1.readings@),
            is_median_of(r.a2, history.a2.readings@),
            is_median_of(r.a3, history.a3.readings@),
    {
        let a0 = history.a0.median_reading();
        let a1 = history.a1.median_reading();
        let a2 = history.a2.median_reading();
        let a3 = history.a3.median_reading();
        PowerResponse { history, a0, a1, a2, a3 }
    }
}

} // verus!
