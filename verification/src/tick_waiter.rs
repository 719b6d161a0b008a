use vstd::prelude::*;

use core::marker::PhantomData;

use crate::accumulator::poll_step;
use crate::accumulator::poll_transition;
use crate::convert::ns_ticks;
use crate::convert::ns_ticks_core;
use crate::convert::us_ticks;
use crate::convert::us_ticks_wide;
use crate::num_width::Num;
use crate::Interval;
use crate::TickInstant;
use crate::Waiter;
use crate::WaiterStatus;

verus! {

/// A [`Waiter`] for systems whose only notion of time is a monotonic tick
/// counter: an immutable tick-count deadline, derived once from a requested
/// duration and the counter's frequency, plus the interval action run on
/// each unexpired poll.
///
/// An engine is built once and may be shared read-only by any number of
/// concurrently live sessions; each session owns its own mutable counters.
pub struct TickWaiter<T, I, N> {
    timeout_tick: N,
    interval: I,
    _t: PhantomData<T>,
}

impl<T: TickInstant, I: Interval, N: Num> TickWaiter<T, I, N> {
    /// The tick-count deadline a session must accumulate to expire.
    pub closed spec fn spec_deadline(&self) -> nat {
        self.timeout_tick.as_nat()
    }

    /// The interval action run on each unexpired poll.
    pub closed spec fn spec_interval(&self) -> I {
        self.interval
    }

    /// The tick-count deadline, as the engine's numeric width.
    pub fn timeout_tick(&self) -> (t: N)
        ensures
            t.as_nat() == self.spec_deadline(),
    {
        self.timeout_tick
    }

    /// Begin a fresh session: its baseline is the tick counter as it reads
    /// now and its elapsed-tick accumulator is zero.
    pub fn start<'a>(&'a self) -> (s: TickWaiterTime<'a, T, I, N>)
        ensures
            s.spec_waiter() == *self,
            s.spec_elapsed() == 0,
    {
        TickWaiterTime { tick: T::now(), elapsed_tick: N::zero(), waiter: self }
    }
}

impl<T: TickInstant, I: Interval> TickWaiter<T, I, u32> {
    /// Build an engine from a microsecond request: the deadline is
    /// `timeout_us` microseconds at `frequency` ticks per second, rounded up
    /// to whole ticks. The caller must pick a request that fits the `u32`
    /// width; [`crate::us_ticks_checked`] tells which do.
    pub fn us(timeout_us: u32, interval: I, frequency: u32) -> (w: Self)
        requires
            us_ticks(timeout_us as nat, frequency as nat) <= u32::MAX,
        ensures
            w.spec_deadline() == us_ticks(timeout_us as nat, frequency as nat),
            w.spec_interval() == interval,
    {
        let wide = us_ticks_wide(timeout_us, frequency);
        TickWaiter { timeout_tick: wide as u32, interval, _t: PhantomData }
    }
}

impl<T: TickInstant, I: Interval> TickWaiter<T, I, u64> {
    /// Build an engine from a nanosecond request, which can wait longer
    /// thanks to the `u64` width: the deadline is `timeout_ns` nanoseconds
    /// at `frequency` ticks per second, rounded up to whole ticks. The
    /// frequency must be an exact multiple of 1,000,000 and the request must
    /// fit the width; [`crate::ns_ticks_checked`] tells which do.
    pub fn ns(timeout_ns: u64, interval: I, frequency: u32) -> (w: Self)
        requires
            frequency % 1_000_000 == 0,
            (timeout_ns as nat) * ((frequency as nat) / 1_000_000) <= u64::MAX,
        ensures
            w.spec_deadline() == ns_ticks(timeout_ns as nat, frequency as nat),
            w.spec_interval() == interval,
    {
        let timeout_tick = ns_ticks_core(timeout_ns, frequency);
        TickWaiter { timeout_tick, interval, _t: PhantomData }
    }
}

/// One poll session of a [`TickWaiter`]: the last tick-source sample, the
/// elapsed ticks accumulated since the last expiry or restart, and a
/// non-owning handle to the shared engine.
pub struct TickWaiterTime<'a, T: TickInstant, I: Interval, N: Num> {
    tick: T,
    elapsed_tick: N,
    waiter: &'a TickWaiter<T, I, N>,
}

impl<'a, T: TickInstant, I: Interval, N: Num> TickWaiterTime<'a, T, I, N> {
    /// The shared engine this session was started from.
    pub closed spec fn spec_waiter(&self) -> TickWaiter<T, I, N> {
        *self.waiter
    }

    /// The tick-count deadline of the engine this session belongs to.
    pub open spec fn spec_deadline(&self) -> nat {
        self.spec_waiter().spec_deadline()
    }

    /// The elapsed ticks accumulated since the last expiry or restart.
    pub closed spec fn spec_elapsed(&self) -> nat {
        self.elapsed_tick.as_nat()
    }

    /// Poll once: sample the tick source, fold the delta since the previous
    /// sample into the elapsed accumulator (saturating), and compare against
    /// the deadline. On expiry the deadline is subtracted and the remainder
    /// carried forward, so a session polled forever is a periodic alarm with
    /// no cumulative drift; it can be reused without calling `restart()`.
    /// On an unexpired poll the engine's interval action runs instead.
    ///
    /// Which delta the tick source reports is the source's affair; whatever
    /// it is, the session takes exactly one [`poll_transition`] step on it.
    pub fn timeout(&mut self) -> (expired: bool)
        ensures
            final(self).spec_waiter() == old(self).spec_waiter(),
            exists|delta: nat|
                delta <= u32::MAX && #[trigger] poll_transition(
                    old(self).spec_elapsed(),
                    delta,
                    old(self).spec_deadline(),
                    N::width_max(),
                    expired,
                    final(self).spec_elapsed(),
                ),
    {
        let now = T::now();
        let delta = now.tick_since(self.tick);
        self.tick = now;
        let (next, expired) = poll_step(self.elapsed_tick, delta, self.waiter.timeout_tick);
        self.elapsed_tick = next;
        if !expired {
            self.waiter.interval.interval();
        }
        proof {
            assert(poll_transition(
                old(self).spec_elapsed(),
                delta as nat,
                old(self).spec_deadline(),
                N::width_max(),
                expired,
                self.spec_elapsed(),
            ));
        }
        expired
    }

    /// Realign the session's phase to now: the baseline becomes a fresh
    /// sample and the accumulator is reset to zero, discarding any carried
    /// remainder.
    pub fn restart(&mut self)
        ensures
            final(self).spec_waiter() == old(self).spec_waiter(),
            final(self).spec_elapsed() == 0,
    {
        self.tick = T::now();
        self.elapsed_tick = N::zero();
    }
}

impl<'a, T: TickInstant + 'a, I: Interval + 'a, N: Num + 'a> Waiter<'a> for TickWaiter<T, I, N> {
    type Status = TickWaiterTime<'a, T, I, N>;

    fn start(&'a self) -> TickWaiterTime<'a, T, I, N> {
        TickWaiter::start(self)
    }
}

impl<'a, T: TickInstant, I: Interval, N: Num> WaiterStatus for TickWaiterTime<'a, T, I, N> {
    fn timeout(&mut self) -> bool {
        TickWaiterTime::timeout(self)
    }

    fn restart(&mut self) {
        TickWaiterTime::restart(self)
    }
}

} // verus!
