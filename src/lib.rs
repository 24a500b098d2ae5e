//! Rolling power-draw statistics for four monitored channels: a fixed
//! window of recent min/max samples per channel, running day statistics with
//! a lazy day rollover, and a median-based summary of each window.

pub mod calendar;
pub mod reading;
pub mod stats;
pub mod channel;
pub mod history;
