use vstd::prelude::*;

verus! {

/// Percentages are reported in hundredths of a percent: 100 % is `PERCENT_SCALE`.
pub const PERCENT_SCALE: u64 = 10000;

/// Tachometer pulses that the reference fan gives per revolution.
pub const PULSES_PER_REVOLUTION: u64 = 2;

/// `num * scale / den`, rounded down; 0 when `den` is 0.
pub open spec fn ratio_spec(num: int, den: int, scale: int) -> int {
    if den <= 0 {
        0
    } else {
        num * scale / den
    }
}

/// `ratio_spec`, capped at what a `u64` holds.
pub open spec fn capped_ratio(num: int, den: int, scale: int) -> int {
    let r = ratio_spec(num, den, scale);
    if r > u64::MAX {
        u64::MAX as int
    } else {
        r
    }
}

/// Growth of a counter between two samples; a counter that went back was
/// reset and counts as no growth.
pub open spec fn growth(prev: int, cur: int) -> int {
    if cur < prev {
        0
    } else {
        cur - prev
    }
}

/// Change per second of a counter over `elapsed_ms` milliseconds.
pub open spec fn rate_spec(prev: int, cur: int, elapsed_ms: int) -> int {
    capped_ratio(growth(prev, cur), elapsed_ms, 1000)
}

/// Share of `part` in `whole`, in hundredths of a percent.
pub open spec fn percent_spec(part: int, whole: int) -> int {
    capped_ratio(part, whole, PERCENT_SCALE as int)
}

/// Revolutions per minute from the pulses counted over `elapsed_ms`.
pub open spec fn rpm_spec(pulses: int, elapsed_ms: int) -> int {
    capped_ratio(pulses, elapsed_ms, 60000int / PULSES_PER_REVOLUTION as int)
}

/// `num * scale / den` rounded down, 0 for a zero denominator, and
/// `u64::MAX` where the quotient does not fit.
pub fn scaled_ratio(num: u64, den: u64, scale: u64) -> (r: u64)
    ensures
        r == capped_ratio(num as int, den as int, scale as int),
{
    if den == 0 {
        return 0;
    }
    proof {
        assert((num as int) * (scale as int) <= (u64::MAX as int) * (u64::MAX as int)) by (nonlinear_arith)
            requires num <= u64::MAX, scale <= u64::MAX;
    }
    let prod: u128 = (num as u128) * (scale as u128);
    let q: u128 = prod / (den as u128);
    if q > u64::MAX as u128 {
        u64::MAX
    } else {
        q as u64
    }
}

/// Rate per second of a cumulative counter that went from `prev` to `cur`
/// over `elapsed_ms` milliseconds. A reset (`cur < prev`) and a zero
/// interval both give 0.
pub fn counter_rate(prev: u64, cur: u64, elapsed_ms: u64) -> (r: u64)
    ensures
        r == rate_spec(prev as int, cur as int, elapsed_ms as int),
        elapsed_ms == 0 || cur <= prev ==> r == 0,
{
    let delta: u64 = if cur < prev { 0 } else { cur - prev };
    scaled_ratio(delta, elapsed_ms, 1000)
}

/// `part` as a share of `whole` in hundredths of a percent; 0 when `whole` is 0.
pub fn percent_of(part: u64, whole: u64) -> (r: u64)
    ensures
        r == percent_spec(part as int, whole as int),
        whole == 0 ==> r == 0,
        part <= whole ==> r <= PERCENT_SCALE,
{
    proof {
        if part <= whole {
            lemma_share_at_most_whole(part as int, whole as int);
        }
    }
    scaled_ratio(part, whole, PERCENT_SCALE)
}

/// A part no larger than the whole has a share of at most 100 %.
pub proof fn lemma_share_at_most_whole(part: int, whole: int)
    requires
        0 <= part <= whole,
    ensures
        0 <= percent_spec(part, whole) <= PERCENT_SCALE,
{
    if whole > 0 {
        assert(0 <= part * 10000 <= whole * 10000) by (nonlinear_arith)
            requires 0 <= part <= whole;
        assert(0 <= (part * 10000) / whole <= (whole * 10000) / whole) by (nonlinear_arith)
            requires 0 <= part * 10000 <= whole * 10000, whole > 0;
        assert((whole * 10000) / whole == 10000) by (nonlinear_arith)
            requires whole > 0;
    }
}

/// Fan speed from the tachometer pulses counted over `elapsed_ms`:
/// `pulses / PULSES_PER_REVOLUTION * 60 s / elapsed`, rounded down; 0 for a
/// zero interval.
pub fn fan_rpm(pulses: u64, elapsed_ms: u64) -> (r: u64)
    ensures
        r == rpm_spec(pulses as int, elapsed_ms as int),
        elapsed_ms == 0 ==> r == 0,
{
    scaled_ratio(pulses, elapsed_ms, 60000 / PULSES_PER_REVOLUTION)
}

} // verus!
