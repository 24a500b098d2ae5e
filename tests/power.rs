use laundry_power::calendar::{deserialize, serialize, Day, DayFormatError, Timestamp};
use laundry_power::channel::{ChannelPowerHistory, HISTORY_SIZE};
use laundry_power::history::{PowerHistory, PowerReadings, PowerResponse};
use laundry_power::reading::PowerReading;
use laundry_power::stats::DayStats;

fn day(year: i32, month: u32, day: u32) -> Day {
    Day { year, month, day }
}

fn stamp(date: Day, hour: u32) -> Timestamp {
    Timestamp { date, hour, minute: 0, second: 0, nanosecond: 0, offset_seconds: 3600 }
}

fn channel_with(date: Day, pairs: &[(i16, i16)]) -> ChannelPowerHistory<f64> {
    let mut channel = ChannelPowerHistory::starting_at(stamp(date, 0), 0.0f64);
    for (k, &(min, max)) in pairs.iter().enumerate() {
        let reading = PowerReading::at_time(stamp(date, k as u32 + 1), min, max);
        channel.push_and_update(reading, date, 0.0);
    }
    channel
}

#[test]
fn difference_is_max_minus_min() {
    let r = PowerReading::at_time(stamp(day(2024, 1, 1), 0), 120, 450);
    assert_eq!(r.difference(), 330);
    let r = PowerReading::at_time(stamp(day(2024, 1, 1), 0), -20, 10);
    assert_eq!(r.difference(), 30);
}

#[test]
fn new_reading_keeps_bounds() {
    let r = PowerReading::new(7, 19);
    assert_eq!(r.min, 7);
    assert_eq!(r.max, 19);
    assert!((1..=12).contains(&r.timestamp.date.month));
}

#[test]
fn median_of_example_window() {
    let diffs: [i16; 9] = [5, 10, 15, 3, 3, 3, 20, 1, 9];
    let pairs: Vec<(i16, i16)> = diffs.iter().map(|&d| (100, 100 + d)).collect();
    let channel = channel_with(day(2024, 3, 1), &pairs);
    let median = channel.median_reading();
    // sorted differences: 1 3 3 3 5 9 10 15 20; the middle one of nine is 5
    assert_eq!(median.difference(), 5);
    assert_eq!(median.min, 100);
    assert_eq!(median.max, 105);
    assert_eq!(median.timestamp, channel.readings[HISTORY_SIZE - 1].timestamp);
}

#[test]
fn average_of_equal_differences() {
    let pairs = vec![(5, 15); 9];
    let channel = channel_with(day(2024, 3, 1), &pairs);
    let average = channel.average_reading();
    assert_eq!(average.difference(), 10);
    assert_eq!(average.min, 5);
    assert_eq!(average.max, 15);
}

#[test]
fn average_truncates_toward_zero() {
    let pairs = vec![(-1, 4), (0, 4), (0, 4), (0, 4), (0, 4), (0, 4), (0, 4), (0, 4), (0, 5)];
    let channel = channel_with(day(2024, 3, 1), &pairs);
    let average = channel.average_reading();
    // min sum -1 → 0, max sum 37 → 4
    assert_eq!(average.min, 0);
    assert_eq!(average.max, 4);
    assert_eq!(average.timestamp, stamp(day(2024, 3, 1), 9));
}

#[test]
fn invalid_calendar_day_is_rejected() {
    assert_eq!(deserialize("2024-02-30"), Err(DayFormatError));
    assert_eq!(deserialize("not a day"), Err(DayFormatError));
}

#[test]
fn day_text_round_trip() {
    assert_eq!(deserialize("2024-02-29"), Ok(day(2024, 2, 29)));
    assert_eq!(serialize(&day(2024, 2, 29)), "2024-02-29");
    assert_eq!(serialize(&day(2023, 11, 5)), "2023-11-05");
    assert_eq!(deserialize(&serialize(&day(1999, 12, 31))), Ok(day(1999, 12, 31)));
}

#[test]
fn fresh_day_stats_bounds() {
    let stats = DayStats::new(day(2024, 5, 6), 0.0f64);
    assert_eq!(stats.num_readings, 0);
    assert_eq!(stats.min, 200);
    assert_eq!(stats.max, 1600);
    assert_eq!(stats.day, day(2024, 5, 6));
}

#[test]
fn fresh_channel_holds_zero_window() {
    let channel: ChannelPowerHistory<f64> = ChannelPowerHistory::new(0.0);
    assert_eq!(channel.readings.len(), 9);
    let last = channel.readings[8].timestamp;
    for r in channel.readings.iter() {
        assert_eq!((r.min, r.max), (0, 0));
        assert_eq!(r.timestamp, last);
    }
    assert_eq!(channel.today_stats.day, last.date);
    assert!(channel.yesterday_stats.is_none());
}

#[test]
fn window_evicts_oldest() {
    let d = day(2024, 3, 1);
    let mut channel = channel_with(d, &[(1, 2); 9]);
    let newest = PowerReading::at_time(stamp(d, 20), 3, 30);
    channel.push_and_update(newest, d, 0.0);
    assert_eq!(channel.readings.len(), 9);
    assert_eq!(channel.readings[8], newest);
    assert_eq!(channel.readings[0].timestamp, stamp(d, 2));
}

#[test]
fn same_day_update_counts_reading() {
    let d = day(2024, 3, 1);
    let mut channel = ChannelPowerHistory::starting_at(stamp(d, 0), 0.0f64);
    channel.push_and_update(PowerReading::at_time(stamp(d, 1), 0, 150), d, 150.0);
    assert_eq!(channel.today_stats.num_readings, 1);
    assert_eq!(channel.today_stats.min, 150);
    assert_eq!(channel.today_stats.max, 1600);
    assert_eq!(channel.today_stats.mean, 150.0);
    channel.push_and_update(PowerReading::at_time(stamp(d, 2), 0, 2000), d, 1075.0);
    assert_eq!(channel.today_stats.num_readings, 2);
    assert_eq!(channel.today_stats.min, 150);
    assert_eq!(channel.today_stats.max, 2000);
    assert!(channel.yesterday_stats.is_none());
}

#[test]
fn rollover_keeps_bounds_and_reseeds_count() {
    let d = day(2024, 3, 1);
    let next = day(2024, 3, 2);
    let mut channel = ChannelPowerHistory::starting_at(stamp(d, 0), 0.0f64);
    channel.push_and_update(PowerReading::at_time(stamp(d, 1), 0, 100), d, 100.0);
    channel.push_and_update(PowerReading::at_time(stamp(next, 0), 10, 2010), next, 1050.0);
    let yesterday = channel.yesterday_stats.expect("rollover stores yesterday");
    assert_eq!(yesterday.num_readings, 2);
    assert_eq!(yesterday.mean, 1050.0);
    assert_eq!(yesterday.min, 100);
    assert_eq!(yesterday.max, 2000);
    assert_eq!(yesterday.day, d);
    assert_eq!(channel.today_stats.num_readings, 60);
    assert_eq!(channel.today_stats.mean, 1050.0);
    assert_eq!(channel.today_stats.min, 100);
    assert_eq!(channel.today_stats.max, 2000);
    assert_eq!(channel.today_stats.day, next);
}

#[test]
fn update_keeps_every_window_full() {
    let mut history: PowerHistory<f64> = PowerHistory::new(0.0);
    let d = history.a0.today_stats.day;
    for k in 0..20u32 {
        let r = |m: i16| PowerReading::at_time(stamp(d, k % 24), m, m + 5);
        let readings = PowerReadings { a0: r(1), a1: r(2), a2: r(3), a3: r(4) };
        history.update_on(&readings, d, (5.0, 5.0, 5.0, 5.0));
        for ch in [&history.a0, &history.a1, &history.a2, &history.a3] {
            assert_eq!(ch.readings.len(), 9);
        }
    }
    assert_eq!(history.a2.readings[8].min, 3);
    assert_eq!(history.a3.today_stats.num_readings, 20);
}

#[test]
fn update_reads_clock_for_day() {
    let mut history: PowerHistory<f64> = PowerHistory::new(0.0);
    let d = history.a1.today_stats.day;
    let r = PowerReading::at_time(stamp(d, 3), 0, 50);
    history.update(&PowerReadings { a0: r, a1: r, a2: r, a3: r }, (50.0, 50.0, 50.0, 50.0));
    assert_eq!(history.a1.readings[8], r);
    assert_eq!(history.a1.today_stats.max, 1600);
    assert_eq!(history.a1.today_stats.min, 50);
}

#[test]
fn response_carries_medians() {
    let mut history: PowerHistory<f64> = PowerHistory::new(0.0);
    let d = day(2024, 3, 1);
    for k in 0..9i16 {
        let r = |base: i16| PowerReading::at_time(stamp(d, k as u32), base, base + 2 * k);
        let readings = PowerReadings { a0: r(0), a1: r(10), a2: r(20), a3: r(30) };
        history.update_on(&readings, d, (0.0, 0.0, 0.0, 0.0));
    }
    let response = PowerResponse::new(history.clone());
    assert_eq!(response.a0.difference(), 8);
    assert_eq!((response.a1.min, response.a1.max), (10, 18));
    assert_eq!(response.a3.timestamp, stamp(d, 8));
    assert_eq!(response.history.a2.readings, history.a2.readings);
}
