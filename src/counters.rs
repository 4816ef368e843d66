use vstd::prelude::*;

use crate::rate::{capped_ratio, growth, percent_of, percent_spec, scaled_ratio, PERCENT_SCALE};

verus! {

/// Cumulative CPU tick counts per mode, the cumulative total and the
/// cumulative number of context switches, as the kernel reports them.
#[derive(Clone, Copy, Debug, PartialEq, Eq, Structural)]
pub struct CpuCounters {
    pub user: u64,
    pub system: u64,
    pub idle: u64,
    pub iowait: u64,
    pub irq: u64,
    pub softirq: u64,
    pub steal: u64,
    pub total: u64,
    pub context_switches: u64,
}

/// Share of each CPU mode over one interval, in hundredths of a percent.
/// `usage` is the share of every mode but idle.
#[derive(Clone, Copy, Debug, PartialEq, Eq, Structural)]
pub struct CpuShares {
    pub usage: u64,
    pub user: u64,
    pub system: u64,
    pub idle: u64,
    pub iowait: u64,
    pub irq: u64,
    pub softirq: u64,
    pub steal: u64,
}

impl CpuCounters {
    /// The all-zero baseline that stands before the first tick.
    pub fn zero() -> (r: CpuCounters)
        ensures
            r == CpuCounters::zero_spec(),
    {
        CpuCounters {
            user: 0,
            system: 0,
            idle: 0,
            iowait: 0,
            irq: 0,
            softirq: 0,
            steal: 0,
            total: 0,
            context_switches: 0,
        }
    }

    pub open spec fn zero_spec() -> CpuCounters {
        CpuCounters {
            user: 0,
            system: 0,
            idle: 0,
            iowait: 0,
            irq: 0,
            softirq: 0,
            steal: 0,
            total: 0,
            context_switches: 0,
        }
    }
}

/// Growth of the total tick count between two samples.
pub open spec fn total_growth(prev: CpuCounters, cur: CpuCounters) -> int {
    growth(prev.total as int, cur.total as int)
}

/// Sum of the growths of the seven modes between two samples.
pub open spec fn modes_growth(prev: CpuCounters, cur: CpuCounters) -> int {
    growth(prev.user as int, cur.user as int) + growth(prev.system as int, cur.system as int)
        + growth(prev.idle as int, cur.idle as int) + growth(prev.iowait as int, cur.iowait as int)
        + growth(prev.irq as int, cur.irq as int) + growth(prev.softirq as int, cur.softirq as int)
        + growth(prev.steal as int, cur.steal as int)
}

/// Share of one mode whose counter went from `p` to `c`.
pub open spec fn mode_share(p: u64, c: u64, prev: CpuCounters, cur: CpuCounters) -> int {
    percent_spec(growth(p as int, c as int), total_growth(prev, cur))
}

/// What the CPU shares of an interval are.
pub open spec fn shares_spec(prev: CpuCounters, cur: CpuCounters) -> CpuShares {
    let t = total_growth(prev, cur);
    let i = growth(prev.idle as int, cur.idle as int);
    CpuShares {
        usage: percent_spec(if t < i { 0 } else { t - i }, t) as u64,
        user: mode_share(prev.user, cur.user, prev, cur) as u64,
        system: mode_share(prev.system, cur.system, prev, cur) as u64,
        idle: mode_share(prev.idle, cur.idle, prev, cur) as u64,
        iowait: mode_share(prev.iowait, cur.iowait, prev, cur) as u64,
        irq: mode_share(prev.irq, cur.irq, prev, cur) as u64,
        softirq: mode_share(prev.softirq, cur.softirq, prev, cur) as u64,
        steal: mode_share(prev.steal, cur.steal, prev, cur) as u64,
    }
}

/// Sum of the seven mode shares (not `usage`).
pub open spec fn shares_sum(s: CpuShares) -> int {
    s.user + s.system + s.idle + s.iowait + s.irq + s.softirq + s.steal
}

fn delta(prev: u64, cur: u64) -> (r: u64)
    ensures
        r == growth(prev as int, cur as int),
{
    if cur < prev {
        0
    } else {
        cur - prev
    }
}

/// CPU shares over the interval between two samples: each mode's growth
/// over the total's growth. A zero total growth gives 0 for every share.
pub fn cpu_shares(prev: &CpuCounters, cur: &CpuCounters) -> (r: CpuShares)
    ensures
        r == shares_spec(*prev, *cur),
        total_growth(*prev, *cur) == 0 ==> shares_sum(r) == 0 && r.usage == 0,
{
    let t = delta(prev.total, cur.total);
    let i = delta(prev.idle, cur.idle);
    let busy: u64 = if t < i { 0 } else { t - i };
    CpuShares {
        usage: percent_of(busy, t),
        user: percent_of(delta(prev.user, cur.user), t),
        system: percent_of(delta(prev.system, cur.system), t),
        idle: percent_of(i, t),
        iowait: percent_of(delta(prev.iowait, cur.iowait), t),
        irq: percent_of(delta(prev.irq, cur.irq), t),
        softirq: percent_of(delta(prev.softirq, cur.softirq), t),
        steal: percent_of(delta(prev.steal, cur.steal), t),
    }
}

/// Cumulative byte counts of one block device or network interface, under
/// an id that stays the same from sample to sample. For a disk `inbound` is
/// bytes read and `outbound` bytes written; for an interface, bytes
/// received and transmitted.
#[derive(Clone, Copy, Debug, PartialEq, Eq, Structural)]
pub struct IoCounters {
    pub id: u64,
    pub inbound: u64,
    pub outbound: u64,
}

pub open spec fn io_value(c: IoCounters, outbound: bool) -> int {
    if outbound {
        c.outbound as int
    } else {
        c.inbound as int
    }
}

/// The earlier count of the device `id`: that of its first entry at or
/// after index `i` in `prev`, or 0 where it has none (the baseline of a
/// device that was not there before).
pub open spec fn baseline_from(prev: Seq<IoCounters>, id: u64, outbound: bool, i: int) -> int
    decreases prev.len() - i,
{
    if i < 0 || i >= prev.len() {
        0
    } else if prev[i].id == id {
        io_value(prev[i], outbound)
    } else {
        baseline_from(prev, id, outbound, i + 1)
    }
}

pub open spec fn baseline(prev: Seq<IoCounters>, id: u64, outbound: bool) -> int {
    baseline_from(prev, id, outbound, 0)
}

/// Summed growth of every device in `cur` against its baseline in `prev`.
pub open spec fn io_growth(prev: Seq<IoCounters>, cur: Seq<IoCounters>, outbound: bool) -> int
    decreases cur.len(),
{
    if cur.len() == 0 {
        0
    } else {
        io_growth(prev, cur.drop_last(), outbound) + growth(
            baseline(prev, cur.last().id, outbound),
            io_value(cur.last(), outbound),
        )
    }
}

/// Rate per second of the summed growth; a sum past `u64::MAX` counts as
/// `u64::MAX`.
pub open spec fn io_rate_spec(prev: Seq<IoCounters>, cur: Seq<IoCounters>, outbound: bool, elapsed_ms: int) -> int {
    let g = io_growth(prev, cur, outbound);
    capped_ratio(if g > u64::MAX { u64::MAX as int } else { g }, elapsed_ms, 1000)
}

proof fn lemma_io_growth_nonneg(prev: Seq<IoCounters>, cur: Seq<IoCounters>, outbound: bool)
    ensures
        io_growth(prev, cur, outbound) >= 0,
    decreases cur.len(),
{
    if cur.len() > 0 {
        lemma_io_growth_nonneg(prev, cur.drop_last(), outbound);
    }
}

fn baseline_of(prev: &Vec<IoCounters>, id: u64, outbound: bool) -> (r: u64)
    ensures
        r == baseline(prev@, id, outbound),
{
    let mut i: usize = 0;
    while i < prev.len()
        invariant
            i <= prev.len(),
            baseline(prev@, id, outbound) == baseline_from(prev@, id, outbound, i as int),
        decreases prev.len() - i,
    {
        let c = prev[i];
        if c.id == id {
            return if outbound { c.outbound } else { c.inbound };
        }
        i = i + 1;
    }
    0
}

/// Rate per second of the bytes that all devices in `cur` moved in one
/// direction since `prev`, over `elapsed_ms` milliseconds. A device is
/// matched to its first entry of the same id in `prev`; one without an
/// entry there counts from 0, and one whose count went back counts 0.
pub fn io_rate(prev: &Vec<IoCounters>, cur: &Vec<IoCounters>, outbound: bool, elapsed_ms: u64) -> (r: u64)
    ensures
        r == io_rate_spec(prev@, cur@, outbound, elapsed_ms as int),
        elapsed_ms == 0 ==> r == 0,
{
    let mut sum: u64 = 0;
    let mut i: usize = 0;
    while i < cur.len()
        invariant
            i <= cur.len(),
            sum as int == (if io_growth(prev@, cur@.subrange(0, i as int), outbound) > u64::MAX {
                u64::MAX as int
            } else {
                io_growth(prev@, cur@.subrange(0, i as int), outbound)
            }),
        decreases cur.len() - i,
    {
        let c = cur[i];
        let base = baseline_of(prev, c.id, outbound);
        let v = if outbound { c.outbound } else { c.inbound };
        let d = delta(base, v);
        proof {
            let s = cur@.subrange(0, i as int + 1);
            assert(s.drop_last() =~= cur@.subrange(0, i as int));
            assert(s.last() == c);
            lemma_io_growth_nonneg(prev@, cur@.subrange(0, i as int), outbound);
        }
        sum = if sum > u64::MAX - d { u64::MAX } else { sum + d };
        i = i + 1;
    }
    proof {
        assert(cur@.subrange(0, cur@.len() as int) =~= cur@);
    }
    scaled_ratio(sum, elapsed_ms, 1000)
}

proof fn lemma_floor_bounds(d: int, t: int)
    requires
        d >= 0,
        t > 0,
    ensures
        (d * 10000 / t) * t <= d * 10000,
        d * 10000 < (d * 10000 / t) * t + t,
        d * 10000 / t >= 0,
{
    let q = d * 10000 / t;
    let m = d * 10000 % t;
    assert(d * 10000 == q * t + m && 0 <= m < t) by (nonlinear_arith)
        requires t > 0, q == d * 10000 / t, m == d * 10000 % t;
    assert(d * 10000 >= 0) by (nonlinear_arith)
        requires d >= 0;
    assert(q >= 0) by (nonlinear_arith)
        requires d * 10000 >= 0, t > 0, q == d * 10000 / t;
}

/// Where the total tick count grew by exactly the sum of the seven modes'
/// growths, and did grow, the seven mode shares add up to 100 % within the
/// rounding of each share down to a hundredth of a percent: at most 7
/// hundredths short, never over.
pub proof fn lemma_mode_shares_sum(prev: CpuCounters, cur: CpuCounters)
    requires
        total_growth(prev, cur) == modes_growth(prev, cur),
        total_growth(prev, cur) > 0,
    ensures
        PERCENT_SCALE - 7 < shares_sum(shares_spec(prev, cur)) <= PERCENT_SCALE,
{
    let t = total_growth(prev, cur);
    let d1 = growth(prev.user as int, cur.user as int);
    let d2 = growth(prev.system as int, cur.system as int);
    let d3 = growth(prev.idle as int, cur.idle as int);
    let d4 = growth(prev.iowait as int, cur.iowait as int);
    let d5 = growth(prev.irq as int, cur.irq as int);
    let d6 = growth(prev.softirq as int, cur.softirq as int);
    let d7 = growth(prev.steal as int, cur.steal as int);
    lemma_floor_bounds(d1, t);
    lemma_floor_bounds(d2, t);
    lemma_floor_bounds(d3, t);
    lemma_floor_bounds(d4, t);
    lemma_floor_bounds(d5, t);
    lemma_floor_bounds(d6, t);
    lemma_floor_bounds(d7, t);
    let q1 = d1 * 10000 / t;
    let q2 = d2 * 10000 / t;
    let q3 = d3 * 10000 / t;
    let q4 = d4 * 10000 / t;
    let q5 = d5 * 10000 / t;
    let q6 = d6 * 10000 / t;
    let q7 = d7 * 10000 / t;
    let qs = q1 + q2 + q3 + q4 + q5 + q6 + q7;
    assert(qs * t <= t * 10000 && t * 10000 < qs * t + 7 * t) by (nonlinear_arith)
        requires
            q1 * t <= d1 * 10000, d1 * 10000 < q1 * t + t,
            q2 * t <= d2 * 10000, d2 * 10000 < q2 * t + t,
            q3 * t <= d3 * 10000, d3 * 10000 < q3 * t + t,
            q4 * t <= d4 * 10000, d4 * 10000 < q4 * t + t,
            q5 * t <= d5 * 10000, d5 * 10000 < q5 * t + t,
            q6 * t <= d6 * 10000, d6 * 10000 < q6 * t + t,
            q7 * t <= d7 * 10000, d7 * 10000 < q7 * t + t,
            t == d1 + d2 + d3 + d4 + d5 + d6 + d7,
            qs == q1 + q2 + q3 + q4 + q5 + q6 + q7;
    assert(qs <= 10000 && 10000 < qs + 7) by (nonlinear_arith)
        requires qs * t <= t * 10000, t * 10000 < qs * t + 7 * t, t > 0;
    assert(q1 <= 10000 && q2 <= 10000 && q3 <= 10000 && q4 <= 10000 && q5 <= 10000
        && q6 <= 10000 && q7 <= 10000);
}

} // verus!
