use vstd::prelude::*;

use crate::counters::{modes_growth, shares_spec, total_growth, CpuCounters};
use crate::rate::{growth, lemma_share_at_most_whole, PERCENT_SCALE};
use crate::snapshot::{assemble, snapshot_spec, Gauges, RawCounters, SensorReadings, Snapshot};

verus! {

/// Number of snapshots that the distributor keeps for a subscriber that
/// has not read them; a later one pushes the oldest out.
pub const SNAPSHOT_BACKLOG: usize = 8;

/// The sampling engine's state between ticks: the configured interval, the
/// counters of the previous tick (all zero before the first) and the
/// timestamp of the last snapshot.
#[derive(Debug)]
pub struct MetricsCollector {
    pub interval_ms: u64,
    pub prev: RawCounters,
    pub last_timestamp: Option<u64>,
}

/// Timestamp of the next snapshot: the clock's reading, moved past the
/// previous snapshot's where the clock did not advance.
pub open spec fn next_timestamp(last: Option<u64>, now: u64) -> int {
    match last {
        None => now as int,
        Some(l) => if now > l { now as int } else { l + 1 },
    }
}

impl MetricsCollector {
    /// A collector that samples every `interval_ms` milliseconds and has not
    /// ticked yet.
    pub fn new(interval_ms: u64) -> (r: MetricsCollector)
        ensures
            r.interval_ms == interval_ms,
            r.prev.is_zero(),
            r.last_timestamp is None,
    {
        MetricsCollector { interval_ms, prev: RawCounters::zero(), last_timestamp: None }
    }

    /// Whether a further snapshot can get a timestamp past the last one.
    pub open spec fn can_tick_spec(&self) -> bool {
        self.last_timestamp != Some(u64::MAX)
    }

    pub fn can_tick(&self) -> (r: bool)
        ensures
            r == self.can_tick_spec(),
    {
        match self.last_timestamp {
            Some(l) => l != u64::MAX,
            None => true,
        }
    }

    /// One tick: the snapshot of the counters `cur` against those of the
    /// previous tick over the configured interval, with `gauges` and
    /// `sensors` taken over, stamped `now` or just past the last
    /// snapshot's timestamp. `cur` becomes the previous sample.
    pub fn tick(&mut self, cur: RawCounters, gauges: Gauges, sensors: SensorReadings, now: u64) -> (r: Snapshot)
        requires
            old(self).can_tick_spec(),
        ensures
            r == snapshot_spec(
                old(self).prev,
                cur,
                gauges,
                sensors,
                old(self).interval_ms,
                next_timestamp(old(self).last_timestamp, now) as u64,
            ),
            r.timestamp == next_timestamp(old(self).last_timestamp, now),
            final(self).interval_ms == old(self).interval_ms,
            final(self).prev == cur,
            final(self).last_timestamp == Some(r.timestamp),
    {
        let stamp: u64 = match self.last_timestamp {
            None => now,
            Some(l) => if now > l { now } else { l + 1 },
        };
        let snap = assemble(&self.prev, &cur, &gauges, &sensors, self.interval_ms, stamp);
        self.prev = cur;
        self.last_timestamp = Some(stamp);
        snap
    }
}

/// Where the clock does not advance, or steps back, a snapshot still gets a
/// timestamp past the one before it: each snapshot's timestamp is greater
/// than that of the snapshot that the previous tick produced.
pub proof fn lemma_timestamps_increase(last: u64, now: u64)
    ensures
        next_timestamp(Some(last), now) > last,
{
}

/// Where the total tick count grew at least by the seven modes' summed
/// growth, as it does on a running system, every CPU share of the snapshot
/// lies between 0 and 100 %. The usage share does in any case.
pub proof fn lemma_shares_within_range(
    prev: RawCounters,
    cur: RawCounters,
    g: Gauges,
    s: SensorReadings,
    interval_ms: u64,
    timestamp: u64,
)
    requires
        modes_growth(prev.cpu, cur.cpu) <= total_growth(prev.cpu, cur.cpu),
    ensures
        ({
            let c = snapshot_spec(prev, cur, g, s, interval_ms, timestamp).cpu;
            &&& c.usage <= PERCENT_SCALE
            &&& c.user <= PERCENT_SCALE
            &&& c.system <= PERCENT_SCALE
            &&& c.idle <= PERCENT_SCALE
            &&& c.iowait <= PERCENT_SCALE
            &&& c.irq <= PERCENT_SCALE
            &&& c.softirq <= PERCENT_SCALE
            &&& c.steal <= PERCENT_SCALE
        }),
{
    lemma_usage_within_range(prev.cpu, cur.cpu);
    let (p, c) = (prev.cpu, cur.cpu);
    let t = total_growth(p, c);
    lemma_share_at_most_whole(growth(p.user as int, c.user as int), t);
    lemma_share_at_most_whole(growth(p.system as int, c.system as int), t);
    lemma_share_at_most_whole(growth(p.idle as int, c.idle as int), t);
    lemma_share_at_most_whole(growth(p.iowait as int, c.iowait as int), t);
    lemma_share_at_most_whole(growth(p.irq as int, c.irq as int), t);
    lemma_share_at_most_whole(growth(p.softirq as int, c.softirq as int), t);
    lemma_share_at_most_whole(growth(p.steal as int, c.steal as int), t);
}

/// The usage share never exceeds 100 %, whatever the counters did.
pub proof fn lemma_usage_within_range(prev: CpuCounters, cur: CpuCounters)
    ensures
        shares_spec(prev, cur).usage <= PERCENT_SCALE,
{
    let t = total_growth(prev, cur);
    let i = growth(prev.idle as int, cur.idle as int);
    lemma_share_at_most_whole(if t < i { 0 } else { t - i }, t);
}

/// With a zero interval every rate of the snapshot is 0, the fan speed
/// included where it is present.
pub proof fn lemma_zero_interval_rates(
    prev: RawCounters,
    cur: RawCounters,
    g: Gauges,
    s: SensorReadings,
    timestamp: u64,
)
    ensures
        ({
            let r = snapshot_spec(prev, cur, g, s, 0, timestamp);
            &&& r.context_switches_per_sec == 0
            &&& r.page_faults_minor_per_sec == 0
            &&& r.page_faults_major_per_sec == 0
            &&& r.disk_read_bytes_per_sec == 0
            &&& r.disk_write_bytes_per_sec == 0
            &&& r.net_rx_bytes_per_sec == 0
            &&& r.net_tx_bytes_per_sec == 0
            &&& (r.fan_rpm is None || r.fan_rpm == Some(0u64))
        }),
{
}

/// The snapshot with its four sensor fields cleared.
pub open spec fn without_sensors(r: Snapshot) -> Snapshot {
    Snapshot { fan_rpm: None, env_temp_decicelsius: None, env_humidity_permille: None, pwm_duty: None, ..r }
}

/// Sensor readings decide the four sensor fields alone: each is absent
/// exactly where its reading is, so readings that are all absent give a
/// snapshot with all four absent, and a failing probe clears its own fields
/// and leaves every other field as it would be.
pub proof fn lemma_sensor_fields(
    prev: RawCounters,
    cur: RawCounters,
    g: Gauges,
    s1: SensorReadings,
    s2: SensorReadings,
    interval_ms: u64,
    timestamp: u64,
)
    ensures
        ({
            let r = snapshot_spec(prev, cur, g, s1, interval_ms, timestamp);
            &&& (r.fan_rpm is None <==> s1.pulses is None)
            &&& (r.env_temp_decicelsius is None <==> s1.ambient is None)
            &&& (r.env_humidity_permille is None <==> s1.ambient is None)
            &&& (r.pwm_duty is None <==> s1.duty is None)
        }),
        without_sensors(snapshot_spec(prev, cur, g, s1, interval_ms, timestamp))
            == without_sensors(snapshot_spec(prev, cur, g, s2, interval_ms, timestamp)),
{
}

} // verus!
