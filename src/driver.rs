//! The driver: period, alarm slot and waker slot, with the operations the
//! runtime and the interrupt entry point call.

use vstd::prelude::*;
use crate::alarm::{AlarmState, DriverState};
use crate::clock::{
    compare_for, compare_value, logical_tick_rate, period_for, period_of, ticks, ticks_at,
    NO_DEADLINE,
};

verus! {

/// What the owner of the hardware does after an interrupt: invoke `wake` if
/// there is one, and write `compare` to the compare register.
pub struct AlarmAction<W> {
    pub wake: Option<W>,
    pub compare: u64,
}

/// Time driver over a free-running counter, with a single pending deadline.
///
/// All methods take `&mut self` or `&self`: the owner serialises access with
/// a critical section that excludes the timer interrupt.
pub struct SystickDriver<W> {
    period: u64,
    tick_hz: u64,
    alarm: AlarmState,
    waker: Option<W>,
}

impl<W> View for SystickDriver<W> {
    type V = DriverState<W>;

    closed spec fn view(&self) -> DriverState<W> {
        DriverState {
            period: self.period,
            tick_hz: self.tick_hz,
            deadline: self.alarm.timestamp,
            waker: self.waker,
        }
    }
}

impl<W> SystickDriver<W> {
    /// The period is never zero, so a tick conversion never divides by zero.
    pub open spec fn wf(&self) -> bool {
        self@.wf()
    }

    /// A driver before initialisation: a placeholder period of one count per
    /// tick, no deadline, no waker.
    pub fn new() -> (r: Self)
        ensures
            r.wf(),
            r@.period == 1,
            r@.deadline == NO_DEADLINE,
            r@.waker is None,
    {
        SystickDriver { period: 1, tick_hz: 1, alarm: AlarmState::new(), waker: None }
    }

    /// Derives the period from the hardware clock and a logical tick rate.
    /// The alarm and the waker are left as they are.
    pub fn configure(&mut self, hclk_hz: u64, tick_hz: u64)
        requires
            tick_hz > 0,
            period_of(hclk_hz, tick_hz) > 0,
        ensures
            final(self).wf(),
            final(self)@.period == period_of(hclk_hz, tick_hz),
            final(self)@.tick_hz == tick_hz,
            final(self)@.deadline == old(self)@.deadline,
            final(self)@.waker == old(self)@.waker,
    {
        self.period = period_for(hclk_hz, tick_hz);
        self.tick_hz = tick_hz;
    }

    /// Derives the period from the hardware clock and the runtime's logical
    /// tick rate, and records that rate. Returns whether the period is at
    /// least one count per tick; when it is not, the former period stays.
    pub fn init(&mut self, hclk_hz: u64) -> (accepted: bool)
        requires
            old(self).wf(),
        ensures
            final(self).wf(),
            accepted ==> final(self)@.period == period_of(hclk_hz, final(self)@.tick_hz),
            accepted == (period_of(hclk_hz, final(self)@.tick_hz) > 0),
            !accepted ==> final(self)@.period == old(self)@.period,
            final(self)@.deadline == old(self)@.deadline,
            final(self)@.waker == old(self)@.waker,
    {
        let tick_hz = logical_tick_rate();
        let period = period_for(hclk_hz, tick_hz);
        if period > 0 {
            self.configure(hclk_hz, tick_hz);
            true
        } else {
            self.tick_hz = tick_hz;
            false
        }
    }

    /// Counter counts per logical tick.
    pub fn period(&self) -> (r: u64)
        ensures
            r == self@.period,
    {
        self.period
    }

    /// The pending deadline, or `NO_DEADLINE`.
    pub fn deadline(&self) -> (r: u64)
        ensures
            r == self@.deadline,
    {
        self.alarm.timestamp
    }

    /// The current logical tick for counter value `raw_cnt`: completed ticks,
    /// never rounded up.
    pub fn now(&self, raw_cnt: u64) -> (r: u64)
        requires
            self.wf(),
        ensures
            r == ticks_at(raw_cnt, self@.period),
    {
        ticks(raw_cnt, self.period)
    }

    /// Registers `waker` for deadline `at`, replacing any earlier deadline and
    /// dropping its waker unwoken. Returns the compare value to write, computed
    /// from counter value `raw_cnt`.
    pub fn schedule_wake(&mut self, at: u64, waker: W, raw_cnt: u64) -> (cmp: u64)
        requires
            old(self).wf(),
            raw_cnt as int + old(self)@.period as int + 1 <= u64::MAX,
        ensures
            final(self).wf(),
            final(self)@ == old(self)@.scheduled(at, waker),
            cmp == compare_for(at, old(self)@.period, raw_cnt),
            cmp <= raw_cnt + old(self)@.period + 1,
    {
        self.waker = Some(waker);
        self.alarm.timestamp = at;
        compare_value(at, self.period, raw_cnt)
    }

    /// Clears the alarm slot and hands out the pending waker.
    fn trigger_alarm(&mut self) -> (r: Option<W>)
        ensures
            final(self)@.period == old(self)@.period,
            final(self)@.tick_hz == old(self)@.tick_hz,
            final(self)@.deadline == NO_DEADLINE,
            final(self)@.waker is None,
            r == old(self)@.waker,
    {
        self.alarm.timestamp = NO_DEADLINE;
        self.waker.take()
    }

    /// The compare-match interrupt at counter value `raw_cnt`. A deadline at
    /// most one tick away is due: it is cleared and its waker handed out.
    /// Either way the interrupt is rearmed for the pending deadline, or one
    /// period ahead, whichever is sooner.
    pub fn on_interrupt(&mut self, raw_cnt: u64) -> (action: AlarmAction<W>)
        requires
            old(self).wf(),
            raw_cnt as int + old(self)@.period as int + 1 <= u64::MAX,
        ensures
            final(self).wf(),
            final(self)@ == old(self)@.after_interrupt(raw_cnt),
            action.wake == old(self)@.woken_at(raw_cnt),
            action.compare == compare_for(
                old(self)@.rearm_target(raw_cnt),
                old(self)@.period,
                raw_cnt,
            ),
            action.compare <= raw_cnt + old(self)@.period + 1,
    {
        let next = self.alarm.timestamp;
        let now = self.now(raw_cnt);
        let (wake, target) = if next > now + 1 {
            (None, next)
        } else {
            (self.trigger_alarm(), NO_DEADLINE)
        };
        let compare = compare_value(target, self.period, raw_cnt);
        AlarmAction { wake, compare }
    }
}

} // verus!
