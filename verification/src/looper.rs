//! The pace of the main loop.

use vstd::prelude::*;

verus! {

/// The period of one tick: a sixtieth of a second, in nanoseconds.
pub const TARGET_LOOP_DELTA_NANOS: u64 = 16_666_666;

/// How a tick ended.
#[derive(Debug, Clone, Copy, PartialEq, Eq, Structural)]
pub struct LoopEnd {
    /// How long the tick took, in nanoseconds.
    pub loop_delta: u64,
    /// How long to sleep until the next tick is due. `None` if the tick
    /// overran its period: the next tick then starts at once.
    pub sleep: Option<u64>,
    /// The mean duration of the ticks since the last report, where one is
    /// due.
    pub average: Option<u64>,
}

pub struct Looper {
    pub update_start_time: u64,
    /// Ticks since the last report.
    pub loop_count: u32,
    /// Their total duration, in nanoseconds.
    pub delta_total: u64,
    /// After how many ticks a report is due; zero for none.
    pub print_loop_time_rate: u32,
}

impl Looper {
    /// Holds of every looper: fewer ticks are counted than make a report
    /// due.
    pub open spec fn wf(self) -> bool {
        self.print_loop_time_rate > 0 ==> self.loop_count < self.print_loop_time_rate
    }

    pub fn new(now: u64, print_loop_time_rate: u32) -> (r: Looper)
        ensures
            r.wf(),
            r == (Looper {
                update_start_time: now,
                loop_count: 0,
                delta_total: 0,
                print_loop_time_rate,
            }),
    {
        Looper { update_start_time: now, delta_total: 0, print_loop_time_rate, loop_count: 0 }
    }

    /// Notes when a tick starts.
    pub fn start_loop(&mut self, now: u64)
        ensures
            *final(self) == (Looper { update_start_time: now, ..*old(self) }),
    {
        self.update_start_time = now;
    }

    /// How long a tick that started at `start` had taken at `now`.
    pub open spec fn spec_loop_delta(start: u64, now: u64) -> u64 {
        if now >= start {
            (now - start) as u64
        } else {
            0
        }
    }

    /// The sum of two durations, held at the largest value there is.
    pub open spec fn spec_total(a: u64, b: u64) -> u64 {
        if a + b > u64::MAX {
            u64::MAX
        } else {
            (a + b) as u64
        }
    }

    /// Ends a tick at `now`: says how long to sleep so that ticks start a
    /// period apart, or that the tick overran, and every
    /// `print_loop_time_rate` ticks reports their mean duration.
    pub fn loop_end_wait(&mut self, now: u64) -> (r: LoopEnd)
        requires
            old(self).wf(),
        ensures
            final(self).wf(),
            final(self).update_start_time == old(self).update_start_time,
            final(self).print_loop_time_rate == old(self).print_loop_time_rate,
            r.loop_delta == Looper::spec_loop_delta(old(self).update_start_time, now),
            r.sleep == if r.loop_delta <= TARGET_LOOP_DELTA_NANOS {
                Some((TARGET_LOOP_DELTA_NANOS - r.loop_delta) as u64)
            } else {
                None
            },
            old(self).print_loop_time_rate == 0 ==> {
                &&& r.average.is_none()
                &&& final(self).loop_count == old(self).loop_count
                &&& final(self).delta_total == old(self).delta_total
            },
            old(self).print_loop_time_rate > 0 && old(self).loop_count + 1 < old(
                self,
            ).print_loop_time_rate ==> {
                &&& r.average.is_none()
                &&& final(self).loop_count == old(self).loop_count + 1
                &&& final(self).delta_total == Looper::spec_total(
                    old(self).delta_total,
                    r.loop_delta,
                )
            },
            old(self).print_loop_time_rate > 0 && old(self).loop_count + 1 == old(
                self,
            ).print_loop_time_rate ==> {
                &&& r.average == Some(
                    (Looper::spec_total(old(self).delta_total, r.loop_delta) / (old(
                        self,
                    ).print_loop_time_rate as u64)) as u64,
                )
                &&& final(self).loop_count == 0
                &&& final(self).delta_total == 0
            },
    {
        let loop_delta = if now >= self.update_start_time {
            now - self.update_start_time
        } else {
            0
        };
        let mut average = None;
        if self.print_loop_time_rate > 0 {
            self.delta_total = if loop_delta > u64::MAX - self.delta_total {
                u64::MAX
            } else {
                self.delta_total + loop_delta
            };
            self.loop_count += 1;
            if self.loop_count == self.print_loop_time_rate {
                average = Some(self.delta_total / (self.print_loop_time_rate as u64));
                self.delta_total = 0;
                self.loop_count = 0;
            }
        }
        let sleep = if loop_delta <= TARGET_LOOP_DELTA_NANOS {
            Some(TARGET_LOOP_DELTA_NANOS - loop_delta)
        } else {
            None
        };
        LoopEnd { loop_delta, sleep, average }
    }
}

} // verus!
