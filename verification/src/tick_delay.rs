use vstd::prelude::*;

use core::marker::PhantomData;

use crate::convert::ns_ticks;
use crate::convert::us_ticks;
use crate::Interval;
use crate::TickInstant;
use crate::tick_waiter::TickWaiter;

verus! {

/// The configuration of a blocking delay built on [`TickWaiter`]: "block the
/// caller for N nanoseconds/microseconds". The two routes carry independent
/// interval actions, since short delays often want busy-waiting while long
/// ones want yielding or sleeping.
///
/// [`TickDelay::ns_waiter`] and [`TickDelay::us_waiter`] derive the one-shot
/// engine for a request; the caller blocks by starting it and polling the
/// session until it expires. That poll loop runs for as long as the tick
/// source takes to deliver the deadline, so it stays with the caller, whose
/// blocking discipline it is.
pub struct TickDelay<T, INS, IUS> {
    frequency: u32,
    interval_ns: INS,
    interval_us: IUS,
    _t: PhantomData<T>,
}

impl<T: TickInstant, INS: Interval, IUS: Interval> TickDelay<T, INS, IUS> {
    /// The declared tick frequency, in ticks per second.
    pub closed spec fn spec_frequency(&self) -> nat {
        self.frequency as nat
    }

    /// - `frequency`: ticks per second of the tick source `T`. For
    ///   [`TickDelay::ns_waiter`] it must be an exact multiple of 1,000,000.
    /// - `interval_ns`: the action run on each unexpired poll of a
    ///   nanosecond-route delay.
    /// - `interval_us`: the same for the microsecond route.
    pub fn new(frequency: u32, interval_ns: INS, interval_us: IUS) -> (d: Self)
        ensures
            d.spec_frequency() == frequency as nat,
    {
        TickDelay { frequency, interval_ns, interval_us, _t: PhantomData }
    }

    /// The engine for one delay of `ns` nanoseconds: its deadline is the
    /// nanosecond-route tick count and it idles with this delay's
    /// nanosecond interval action. A `u32` request never overflows the
    /// engine's `u64` width.
    pub fn ns_waiter(&self, ns: u32) -> (w: TickWaiter<T, INS, u64>)
        requires
            self.spec_frequency() % 1_000_000 == 0,
        ensures
            w.spec_deadline() == ns_ticks(ns as nat, self.spec_frequency()),
    {
        proof {
            let per_us = (self.frequency as nat) / 1_000_000;
            assert(per_us <= 4294);
            assert((ns as int) * (per_us as int) <= 4_294_967_295 * 4294) by (nonlinear_arith)
                requires
                    ns <= 4_294_967_295u32,
                    0 <= per_us <= 4294,
            ;
        }
        TickWaiter::<T, INS, u64>::ns(ns as u64, self.interval_ns.clone(), self.frequency)
    }

    /// The engine for one delay of `us` microseconds: its deadline is the
    /// microsecond-route tick count and it idles with this delay's
    /// microsecond interval action. The derived tick count must fit the
    /// `u32` width; [`crate::us_ticks_checked`] tells which requests do.
    pub fn us_waiter(&self, us: u32) -> (w: TickWaiter<T, IUS, u32>)
        requires
            us_ticks(us as nat, self.spec_frequency()) <= u32::MAX,
        ensures
            w.spec_deadline() == us_ticks(us as nat, self.spec_frequency()),
    {
        TickWaiter::<T, IUS, u32>::us(us, self.interval_us.clone(), self.frequency)
    }
}

} // verus!
