//! Deadlines and delays over the platform's monotonic tick counter.

use vstd::prelude::*;
use crate::bus::{Access, Step};

verus! {

/// Ticks of the counter per second.
pub const TIME_BASE: u64 = 4_000_000;

/// Longest duration, in microseconds, whose tick count can be computed.
pub const MAX_MICROS: u64 = 4_611_686_018_427;

/// The number of ticks in a duration given in microseconds, rounded down.
pub open spec fn ticks_in(micros: u64) -> int {
    micros * TIME_BASE / 1_000_000
}

/// The reading at which a span of `ticks` that begins at the reading `now`
/// is over; at the top of the counter's range it stays there.
pub open spec fn limit_after(now: u64, ticks: u64) -> u64 {
    if now + ticks > u64::MAX {
        u64::MAX
    } else {
        (now + ticks) as u64
    }
}

/// Converts a duration in microseconds to ticks.
pub fn to_tick(micros: u64) -> (ticks: u64)
    requires
        micros <= MAX_MICROS,
    ensures
        ticks == ticks_in(micros),
{
    micros * TIME_BASE / 1_000_000
}

/// A deadline on the tick counter.
#[derive(Debug, Clone, Copy)]
pub struct Timer {
    pub deadline: u64,
}

impl Timer {
    /// Starts a timer at the reading `now` that runs for `micros`
    /// microseconds.
    pub fn start(now: u64, micros: u64) -> (timer: Timer)
        requires
            micros <= MAX_MICROS,
        ensures
            timer.deadline == limit_after(now, ticks_in(micros) as u64),
    {
        Timer { deadline: now.saturating_add(to_tick(micros)) }
    }

    /// Whether the timer has run out at the reading `now`.
    pub fn timeout(&self, now: u64) -> (over: bool)
        ensures
            over == (now >= self.deadline),
    {
        if now >= self.deadline {
            true
        } else {
            false
        }
    }
}

/// A busy-wait in progress: the platform reads the tick counter until the
/// span is over.
#[derive(Debug, Clone, Copy)]
pub struct Delay {
    /// Length of the span in ticks.
    pub ticks: u64,
    /// The reading at which the span is over, once the first reading has
    /// fixed it.
    pub limit: Option<u64>,
    /// Whether a reading has reached the limit.
    pub over: bool,
}

impl Delay {
    /// The delay of `micros` microseconds as it is begun, before any
    /// reading.
    pub open spec fn begun(micros: u64) -> Delay {
        Delay { ticks: ticks_in(micros) as u64, limit: None, over: false }
    }

    /// The delay after one more reading of the counter, and what follows:
    /// the first reading fixes the limit and asks for the next; each later
    /// reading below the limit asks for one more; the first at or above it
    /// ends the delay. A delay that is over stays so.
    pub open spec fn next(self, now: u64) -> (Delay, Step<()>) {
        if self.over {
            (self, Step::Done(()))
        } else {
            match self.limit {
                None => (
                    Delay {
                        ticks: self.ticks,
                        limit: Some(limit_after(now, self.ticks)),
                        over: false,
                    },
                    Step::Do(Access::ReadTick),
                ),
                Some(limit) => if now < limit {
                    (self, Step::Do(Access::ReadTick))
                } else {
                    (Delay { ticks: self.ticks, limit: self.limit, over: true }, Step::Done(()))
                },
            }
        }
    }

    /// Takes a reading of the tick counter and says whether to read again.
    pub fn resume(&mut self, now: u64) -> (step: Step<()>)
        ensures
            (*final(self), step) == old(self).next(now),
    {
        if self.over {
            return Step::Done(());
        }
        match self.limit {
            None => {
                self.limit = Some(now.saturating_add(self.ticks));
                Step::Do(Access::ReadTick)
            },
            Some(limit) => {
                if now < limit {
                    Step::Do(Access::ReadTick)
                } else {
                    self.over = true;
                    Step::Done(())
                }
            },
        }
    }
}

/// Begins a delay of `micros` microseconds; its first access reads the tick
/// counter.
pub fn delay(micros: u64) -> (begun: (Delay, Access))
    requires
        micros <= MAX_MICROS,
    ensures
        begun == (Delay::begun(micros), Access::ReadTick),
{
    (Delay { ticks: to_tick(micros), limit: None, over: false }, Access::ReadTick)
}

/// The delay after it was begun and has taken `readings` of the counter, in
/// order.
pub open spec fn delay_after(micros: u64, readings: Seq<u64>) -> Delay
    decreases readings.len(),
{
    if readings.len() == 0 {
        Delay::begun(micros)
    } else {
        delay_after(micros, readings.drop_last()).next(readings.last()).0
    }
}

/// A delay lasts as long as its span. The first reading fixes the limit:
/// the span on from that reading. However the later readings fall, the
/// delay is over exactly when one of them has reached the limit; until then
/// every reading was below it.
pub proof fn lemma_delay_lasts_its_span(micros: u64, readings: Seq<u64>)
    requires
        micros <= MAX_MICROS,
        readings.len() >= 1,
    ensures
        delay_after(micros, readings).ticks == ticks_in(micros),
        delay_after(micros, readings).limit == Some(
            limit_after(readings[0], ticks_in(micros) as u64),
        ),
        delay_after(micros, readings).over <==> exists|i: int|
            1 <= i < readings.len() && #[trigger] readings[i] >= limit_after(
                readings[0],
                ticks_in(micros) as u64,
            ),
    decreases readings.len(),
{
    let limit = limit_after(readings[0], ticks_in(micros) as u64);
    if readings.len() > 1 {
        let earlier = readings.drop_last();
        lemma_delay_lasts_its_span(micros, earlier);
        assert(earlier[0] == readings[0]);
        if delay_after(micros, earlier).over {
            let i = choose|i: int| 1 <= i < earlier.len() && #[trigger] earlier[i] >= limit;
            assert(readings[i] >= limit);
        } else if delay_after(micros, readings).over {
            assert(readings[readings.len() - 1] >= limit);
        } else {
            assert forall|i: int| 1 <= i < readings.len() implies !(#[trigger] readings[i]
                >= limit) by {
                if i < earlier.len() {
                    assert(earlier[i] == readings[i]);
                }
            }
        }
    } else {
        assert(delay_after(micros, readings.drop_last()) == Delay::begun(micros));
    }
}

} // verus!
