use vstd::prelude::*;

use crate::counters::{cpu_shares, io_rate, io_rate_spec, shares_spec, CpuCounters, CpuShares, IoCounters};
use crate::rate::{counter_rate, fan_rpm, rate_spec, rpm_spec};

verus! {

/// Cumulative counters of one sample: what the engine keeps from one tick
/// to the next.
#[derive(Clone, Debug)]
pub struct RawCounters {
    pub cpu: CpuCounters,
    pub page_faults_minor: u64,
    pub page_faults_major: u64,
    pub disks: Vec<IoCounters>,
    pub nets: Vec<IoCounters>,
}

impl RawCounters {
    /// The baseline before the first tick: every counter 0, no device seen.
    pub fn zero() -> (r: RawCounters)
        ensures
            r.is_zero(),
    {
        RawCounters {
            cpu: CpuCounters::zero(),
            page_faults_minor: 0,
            page_faults_major: 0,
            disks: Vec::new(),
            nets: Vec::new(),
        }
    }

    pub open spec fn is_zero(&self) -> bool {
        &&& self.cpu == CpuCounters::zero_spec()
        &&& self.page_faults_minor == 0
        &&& self.page_faults_major == 0
        &&& self.disks@.len() == 0
        &&& self.nets@.len() == 0
    }
}

/// Instantaneous readings, taken over into the snapshot as they are.
/// Load averages are in hundredths, the CPU temperature in thousandths of
/// a degree Celsius.
#[derive(Clone, Copy, Debug, PartialEq, Eq, Structural)]
pub struct Gauges {
    pub run_queue_length: u64,
    pub load_avg_1: u64,
    pub load_avg_5: u64,
    pub load_avg_15: u64,
    pub cpu_temp_millicelsius: i64,
    pub throttle_status: u64,
    pub mem_total_bytes: u64,
    pub mem_used_bytes: u64,
    pub uptime_seconds: u64,
}

/// One combined read of the ambient probe: temperature in tenths of a
/// degree Celsius, relative humidity in tenths of a percent.
#[derive(Clone, Copy, Debug, PartialEq, Eq, Structural)]
pub struct Ambient {
    pub temp_decicelsius: i64,
    pub humidity_permille: u64,
}

/// What the hardware sensors gave for one tick; `None` where the sensor is
/// absent or its read failed. `pulses` are the tachometer pulses counted
/// since the previous poll, `duty` the fan-control duty cycle in hundredths
/// of a percent.
#[derive(Clone, Copy, Debug, PartialEq, Eq, Structural)]
pub struct SensorReadings {
    pub pulses: Option<u64>,
    pub ambient: Option<Ambient>,
    pub duty: Option<u64>,
}

impl SensorReadings {
    /// Readings of a host without sensor integration.
    pub fn absent() -> (r: SensorReadings)
        ensures
            r.pulses is None && r.ambient is None && r.duty is None,
    {
        SensorReadings { pulses: None, ambient: None, duty: None }
    }
}

/// One immutable record of a tick. Percentages are in hundredths of a
/// percent, rates per second; the optional fields are absent where the
/// sensor gave nothing.
#[derive(Clone, Copy, Debug, PartialEq, Eq, Structural)]
pub struct Snapshot {
    pub timestamp: u64,
    pub cpu: CpuShares,
    pub run_queue_length: u64,
    pub context_switches_per_sec: u64,
    pub cpu_temp_millicelsius: i64,
    pub throttle_status: u64,
    pub mem_total_bytes: u64,
    pub mem_used_bytes: u64,
    pub page_faults_minor_per_sec: u64,
    pub page_faults_major_per_sec: u64,
    pub uptime_seconds: u64,
    pub load_avg_1: u64,
    pub load_avg_5: u64,
    pub load_avg_15: u64,
    pub disk_read_bytes_per_sec: u64,
    pub disk_write_bytes_per_sec: u64,
    pub net_rx_bytes_per_sec: u64,
    pub net_tx_bytes_per_sec: u64,
    pub fan_rpm: Option<u64>,
    pub env_temp_decicelsius: Option<i64>,
    pub env_humidity_permille: Option<u64>,
    pub pwm_duty: Option<u64>,
}

/// The snapshot that one tick assembles from the previous and the current
/// counters, the gauges and the sensor readings.
pub open spec fn snapshot_spec(
    prev: RawCounters,
    cur: RawCounters,
    g: Gauges,
    s: SensorReadings,
    interval_ms: u64,
    timestamp: u64,
) -> Snapshot {
    let ms = interval_ms as int;
    Snapshot {
        timestamp,
        cpu: shares_spec(prev.cpu, cur.cpu),
        run_queue_length: g.run_queue_length,
        context_switches_per_sec: rate_spec(prev.cpu.context_switches as int, cur.cpu.context_switches as int, ms) as u64,
        cpu_temp_millicelsius: g.cpu_temp_millicelsius,
        throttle_status: g.throttle_status,
        mem_total_bytes: g.mem_total_bytes,
        mem_used_bytes: g.mem_used_bytes,
        page_faults_minor_per_sec: rate_spec(prev.page_faults_minor as int, cur.page_faults_minor as int, ms) as u64,
        page_faults_major_per_sec: rate_spec(prev.page_faults_major as int, cur.page_faults_major as int, ms) as u64,
        uptime_seconds: g.uptime_seconds,
        load_avg_1: g.load_avg_1,
        load_avg_5: g.load_avg_5,
        load_avg_15: g.load_avg_15,
        disk_read_bytes_per_sec: io_rate_spec(prev.disks@, cur.disks@, false, ms) as u64,
        disk_write_bytes_per_sec: io_rate_spec(prev.disks@, cur.disks@, true, ms) as u64,
        net_rx_bytes_per_sec: io_rate_spec(prev.nets@, cur.nets@, false, ms) as u64,
        net_tx_bytes_per_sec: io_rate_spec(prev.nets@, cur.nets@, true, ms) as u64,
        fan_rpm: match s.pulses {
            Some(p) => Some(rpm_spec(p as int, ms) as u64),
            None => None,
        },
        env_temp_decicelsius: match s.ambient {
            Some(a) => Some(a.temp_decicelsius),
            None => None,
        },
        env_humidity_permille: match s.ambient {
            Some(a) => Some(a.humidity_permille),
            None => None,
        },
        pwm_duty: s.duty,
    }
}

/// Assembles the snapshot of one tick: rates and shares from the counters'
/// growth over `interval_ms`, the gauges as they are, and each sensor field
/// present exactly where its reading is.
pub fn assemble(
    prev: &RawCounters,
    cur: &RawCounters,
    g: &Gauges,
    s: &SensorReadings,
    interval_ms: u64,
    timestamp: u64,
) -> (r: Snapshot)
    ensures
        r == snapshot_spec(*prev, *cur, *g, *s, interval_ms, timestamp),
{
    let fan = match s.pulses {
        Some(p) => Some(fan_rpm(p, interval_ms)),
        None => None,
    };
    let (temp, humidity) = match s.ambient {
        Some(a) => (Some(a.temp_decicelsius), Some(a.humidity_permille)),
        None => (None, None),
    };
    Snapshot {
        timestamp,
        cpu: cpu_shares(&prev.cpu, &cur.cpu),
        run_queue_length: g.run_queue_length,
        context_switches_per_sec: counter_rate(prev.cpu.context_switches, cur.cpu.context_switches, interval_ms),
        cpu_temp_millicelsius: g.cpu_temp_millicelsius,
        throttle_status: g.throttle_status,
        mem_total_bytes: g.mem_total_bytes,
        mem_used_bytes: g.mem_used_bytes,
        page_faults_minor_per_sec: counter_rate(prev.page_faults_minor, cur.page_faults_minor, interval_ms),
        page_faults_major_per_sec: counter_rate(prev.page_faults_major, cur.page_faults_major, interval_ms),
        uptime_seconds: g.uptime_seconds,
        load_avg_1: g.load_avg_1,
        load_avg_5: g.load_avg_5,
        load_avg_15: g.load_avg_15,
        disk_read_bytes_per_sec: io_rate(&prev.disks, &cur.disks, false, interval_ms),
        disk_write_bytes_per_sec: io_rate(&prev.disks, &cur.disks, true, interval_ms),
        net_rx_bytes_per_sec: io_rate(&prev.nets, &cur.nets, false, interval_ms),
        net_tx_bytes_per_sec: io_rate(&prev.nets, &cur.nets, true, interval_ms),
        fan_rpm: fan,
        env_temp_decicelsius: temp,
        env_humidity_permille: humidity,
        pwm_duty: s.duty,
    }
}

} // verus!
