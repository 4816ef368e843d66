//! Sampling-and-diffing engine for host resource metrics.
//!
//! Cumulative kernel counters go in, one tick at a time; rates per second,
//! CPU mode percentages and an immutable snapshot come out.

mod collector;
mod counters;
mod rate;
mod snapshot;

pub use collector::{
    lemma_sensor_fields, lemma_shares_within_range, lemma_timestamps_increase,
    lemma_usage_within_range, lemma_zero_interval_rates, MetricsCollector, SNAPSHOT_BACKLOG,
};
pub use counters::{cpu_shares, io_rate, lemma_mode_shares_sum, CpuCounters, CpuShares, IoCounters};
pub use rate::{
    counter_rate, fan_rpm, lemma_share_at_most_whole, percent_of, scaled_ratio, PERCENT_SCALE,
    PULSES_PER_REVOLUTION,
};
pub use snapshot::{assemble, Ambient, Gauges, RawCounters, SensorReadings, Snapshot};
