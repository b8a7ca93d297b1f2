//! The single alarm slot and the driver's abstract state, with the steps that
//! scheduling and the compare-match interrupt take on it.

use vstd::prelude::*;
use crate::clock::{is_due, ticks_at, NO_DEADLINE};

verus! {

/// The one alarm slot: the pending deadline in logical ticks, or
/// `NO_DEADLINE` when nothing is pending.
pub struct AlarmState {
    pub timestamp: u64,
}

impl AlarmState {
    /// A disarmed slot.
    pub fn new() -> (r: Self)
        ensures
            r.timestamp == NO_DEADLINE,
    {
        AlarmState { timestamp: NO_DEADLINE }
    }
}

/// What the driver holds, as mathematics: the period, the tick rate it was
/// derived from, the pending deadline and the pending waker.
pub struct DriverState<W> {
    pub period: u64,
    pub tick_hz: u64,
    pub deadline: u64,
    pub waker: Option<W>,
}

impl<W> DriverState<W> {
    /// The period and the tick rate are never zero.
    pub open spec fn wf(self) -> bool {
        self.period > 0 && self.tick_hz > 0
    }

    /// The logical tick at counter value `raw`.
    pub open spec fn now(self, raw: u64) -> int {
        ticks_at(raw, self.period)
    }

    /// The state after a deadline and its waker are registered: the old
    /// deadline and waker are replaced, the old waker is never invoked.
    pub open spec fn scheduled(self, at: u64, waker: W) -> Self {
        DriverState { period: self.period, tick_hz: self.tick_hz, deadline: at, waker: Some(waker) }
    }

    /// Whether an interrupt at counter value `raw` finds the deadline due.
    pub open spec fn due_at(self, raw: u64) -> bool {
        is_due(self.deadline, self.now(raw))
    }

    /// The state after an interrupt at counter value `raw`: a due deadline is
    /// cleared together with its waker; otherwise nothing changes.
    pub open spec fn after_interrupt(self, raw: u64) -> Self {
        if self.due_at(raw) {
            DriverState { period: self.period, tick_hz: self.tick_hz, deadline: NO_DEADLINE, waker: None }
        } else {
            self
        }
    }

    /// The waker that an interrupt at counter value `raw` invokes, if any.
    pub open spec fn woken_at(self, raw: u64) -> Option<W> {
        if self.due_at(raw) {
            self.waker
        } else {
            None
        }
    }

    /// The deadline the interrupt at `raw` rearms for.
    pub open spec fn rearm_target(self, raw: u64) -> u64 {
        if self.due_at(raw) {
            NO_DEADLINE
        } else {
            self.deadline
        }
    }
}

/// The wakers invoked by a run of interrupts at the counter values `raws`,
/// one entry per interrupt, starting from state `s`.
pub open spec fn wakes<W>(s: DriverState<W>, raws: Seq<u64>) -> Seq<Option<W>>
    decreases raws.len(),
{
    if raws.len() == 0 {
        Seq::empty()
    } else {
        seq![s.woken_at(raws[0])] + wakes(s.after_interrupt(raws[0]), raws.drop_first())
    }
}

/// The index of the first interrupt in `raws` that finds `deadline` due, or
/// the length of `raws` if none does.
pub open spec fn first_due(deadline: u64, period: u64, raws: Seq<u64>) -> nat
    decreases raws.len(),
{
    if raws.len() == 0 {
        0
    } else if is_due(deadline, ticks_at(raws[0], period)) {
        0
    } else {
        1 + first_due(deadline, period, raws.drop_first())
    }
}

proof fn lemma_idle_wakes_nothing<W>(s: DriverState<W>, raws: Seq<u64>)
    requires
        s.waker is None,
    ensures
        wakes(s, raws).len() == raws.len(),
        forall|i: int| 0 <= i < raws.len() ==> wakes(s, raws)[i] is None,
    decreases raws.len(),
{
    if raws.len() > 0 {
        lemma_idle_wakes_nothing(s.after_interrupt(raws[0]), raws.drop_first());
    }
}

proof fn lemma_pending_wakes_once<W>(s: DriverState<W>, raws: Seq<u64>)
    requires
        s.waker is Some,
    ensures
        wakes(s, raws).len() == raws.len(),
        first_due(s.deadline, s.period, raws) <= raws.len(),
        forall|i: int|
            0 <= i < raws.len() ==> wakes(s, raws)[i] == (if i == first_due(
                s.deadline,
                s.period,
                raws,
            ) {
                s.waker
            } else {
                None
            }),
    decreases raws.len(),
{
    if raws.len() > 0 {
        let rest = raws.drop_first();
        let next = s.after_interrupt(raws[0]);
        if s.due_at(raws[0]) {
            lemma_idle_wakes_nothing(next, rest);
            assert forall|i: int| 0 <= i < raws.len() implies wakes(s, raws)[i] == (if i == 0 {
                s.waker
            } else {
                None
            }) by {
                if i > 0 {
                    assert(wakes(s, raws)[i] == wakes(next, rest)[i - 1]);
                }
            }
        } else {
            lemma_pending_wakes_once(next, rest);
            assert forall|i: int| 0 <= i < raws.len() implies wakes(s, raws)[i] == (if i
                == first_due(s.deadline, s.period, raws) {
                s.waker
            } else {
                None
            }) by {
                if i > 0 {
                    assert(wakes(s, raws)[i] == wakes(next, rest)[i - 1]);
                }
            }
        }
    }
}

/// A registered waker is invoked exactly once over any run of interrupts that
/// reaches its deadline: at the first interrupt that finds the clock at most
/// one tick short of it, and at no other. A run that never gets there invokes
/// nothing.
pub proof fn lemma_scheduled_waker_fires_once<W>(s: DriverState<W>, at: u64, waker: W, raws: Seq<u64>)
    ensures
        ({
            let outs = wakes(s.scheduled(at, waker), raws);
            let k = first_due(at, s.period, raws);
            &&& outs.len() == raws.len()
            &&& k <= raws.len()
            &&& k < raws.len() ==> is_due(at, ticks_at(raws[k as int], s.period))
            &&& forall|i: int| 0 <= i < k ==> !is_due(at, ticks_at(raws[i], s.period))
            &&& forall|i: int|
                0 <= i < raws.len() ==> outs[i] == (if i == k {
                    Some(waker)
                } else {
                    None
                })
        }),
{
    lemma_pending_wakes_once(s.scheduled(at, waker), raws);
    lemma_first_due_is_first(at, s.period, raws);
}

proof fn lemma_first_due_is_first(deadline: u64, period: u64, raws: Seq<u64>)
    ensures
        first_due(deadline, period, raws) <= raws.len(),
        first_due(deadline, period, raws) < raws.len() ==> is_due(
            deadline,
            ticks_at(raws[first_due(deadline, period, raws) as int], period),
        ),
        forall|i: int|
            0 <= i < first_due(deadline, period, raws) ==> !is_due(
                deadline,
                ticks_at(raws[i], period),
            ),
    decreases raws.len(),
{
    if raws.len() > 0 {
        let rest = raws.drop_first();
        lemma_first_due_is_first(deadline, period, rest);
        if !is_due(deadline, ticks_at(raws[0], period)) {
            assert forall|i: int| 0 <= i < first_due(deadline, period, raws) implies !is_due(
                deadline,
                ticks_at(raws[i], period),
            ) by {
                if i > 0 {
                    assert(raws[i] == rest[i - 1]);
                }
            }
        }
    }
}

/// Scheduling again before the first deadline fires replaces it entirely: the
/// state is as if only the second request had been made, and no interrupt
/// ever invokes a waker other than the second one.
pub proof fn lemma_reschedule_discards_first<W>(
    s: DriverState<W>,
    d1: u64,
    w1: W,
    d2: u64,
    w2: W,
    raws: Seq<u64>,
)
    ensures
        s.scheduled(d1, w1).scheduled(d2, w2) == s.scheduled(d2, w2),
        forall|i: int|
            0 <= i < raws.len() ==> wakes(s.scheduled(d1, w1).scheduled(d2, w2), raws)[i] is None
                || wakes(s.scheduled(d1, w1).scheduled(d2, w2), raws)[i] == Some(w2),
{
    lemma_scheduled_waker_fires_once(s, d2, w2, raws);
}

} // verus!
