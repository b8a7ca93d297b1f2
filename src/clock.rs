//! Clock arithmetic: the period derived from the hardware clock, the logical
//! tick of a counter value, and the bounded compare value.

use vstd::prelude::*;

verus! {

/// Fixed pre-division of the hardware clock that feeds the counter.
pub const CLOCK_DIVIDER: u64 = 8;

/// Deadline value that stands for "no pending deadline".
pub const NO_DEADLINE: u64 = 0xFFFF_FFFF_FFFF_FFFF;

/// Counter counts per logical tick for a hardware clock and a tick rate.
pub open spec fn period_of(hclk_hz: u64, tick_hz: u64) -> int {
    (hclk_hz as int / CLOCK_DIVIDER as int) / tick_hz as int
}

/// Completed logical ticks at a raw counter value.
pub open spec fn ticks_at(raw: u64, period: u64) -> int {
    raw as int / period as int
}

/// Whether a deadline is due when the clock reads `now`: it is at most one
/// tick away.
pub open spec fn is_due(deadline: u64, now: int) -> bool {
    deadline as int <= now + 1
}

/// The compare value that arms the next interrupt for `target`: the target's
/// counter value, but never more than one period past the current count, plus
/// one.
pub open spec fn compare_for(target: u64, period: u64, raw: u64) -> int {
    let far = target as int * period as int;
    let bound = raw as int + period as int;
    (if far < bound { far } else { bound }) + 1
}

/// Relies on embassy_time_driver::TICK_HZ, the logical tick rate chosen at
/// build time: every rate that crate offers is at least one tick per second.
#[verifier::external_body]
pub(crate) fn logical_tick_rate() -> (r: u64)
    ensures
        r >= 1,
{
    embassy_time_driver::TICK_HZ
}

/// Counter counts per logical tick: the hardware clock divided by the fixed
/// pre-division, then by the tick rate, both truncating.
pub fn period_for(hclk_hz: u64, tick_hz: u64) -> (r: u64)
    requires
        tick_hz > 0,
    ensures
        r == period_of(hclk_hz, tick_hz),
{
    let cnt_per_second = hclk_hz / CLOCK_DIVIDER;
    cnt_per_second / tick_hz
}

/// Logical ticks completed at counter value `raw`.
pub fn ticks(raw: u64, period: u64) -> (r: u64)
    requires
        period > 0,
    ensures
        r == ticks_at(raw, period),
{
    raw / period
}

/// The value to write to the compare register so that the next interrupt
/// comes at `target`, or one period from `raw`, whichever is sooner.
pub fn compare_value(target: u64, period: u64, raw: u64) -> (r: u64)
    requires
        raw as int + period as int + 1 <= u64::MAX,
    ensures
        r == compare_for(target, period, raw),
{
    let far: u64 = if period == 0 || target <= u64::MAX / period {
        proof {
            if period > 0 {
                lemma_mul_fits(target, period);
            }
        }
        target * period
    } else {
        proof {
            lemma_mul_exceeds(target, period);
        }
        u64::MAX
    };
    let bound = raw + period;
    let cmp = if far < bound { far } else { bound };
    cmp + 1
}

proof fn lemma_mul_fits(a: u64, b: u64)
    requires
        b > 0,
        a <= u64::MAX / b,
    ensures
        a as int * b as int <= u64::MAX,
{
    let q = u64::MAX as int / b as int;
    assert(q * b as int <= u64::MAX) by (nonlinear_arith)
        requires
            q == u64::MAX as int / b as int,
            b > 0,
    ;
    assert(a as int * b as int <= q * b as int) by (nonlinear_arith)
        requires
            a as int <= q,
            b > 0,
    ;
}

proof fn lemma_mul_exceeds(a: u64, b: u64)
    requires
        b > 0,
        a > u64::MAX / b,
    ensures
        a as int * b as int > u64::MAX,
{
    let q = u64::MAX as int / b as int;
    assert((q + 1) * b as int > u64::MAX) by (nonlinear_arith)
        requires
            q == u64::MAX as int / b as int,
            b > 0,
    ;
    assert(a as int * b as int >= (q + 1) * b as int) by (nonlinear_arith)
        requires
            a as int >= q + 1,
            b > 0,
    ;
}

/// Logical time never runs backwards while the counter has not wrapped.
pub proof fn lemma_ticks_monotonic(period: u64, earlier: u64, later: u64)
    requires
        period > 0,
        earlier <= later,
    ensures
        ticks_at(earlier, period) <= ticks_at(later, period),
{
    vstd::arithmetic::div_mod::lemma_div_is_ordered(earlier as int, later as int, period as int);
}

/// A compare value never lies more than one period and one count past the
/// counter value it was computed from.
pub proof fn lemma_compare_within_one_period(target: u64, period: u64, raw: u64)
    ensures
        compare_for(target, period, raw) <= raw as int + period as int + 1,
        compare_for(target, period, raw) >= 1,
{
}

} // verus!
