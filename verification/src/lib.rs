//! Traits used to wait and time out in a `no-std` embedded system.
//!
//! A caller asks for a duration; an engine converts it into a tick-count
//! deadline using a declared tick frequency; the caller then polls a session,
//! which accumulates elapsed ticks from a monotonic tick source and compares
//! them against the deadline. On expiry the accumulator keeps the remainder
//! (a phase accumulator), so indefinite re-polling behaves as a drift-free
//! periodic alarm.
//!
//! Implementers can pick one of the following routes.
//! - Implement [`Waiter`], [`TimedWaiter`] and [`WaiterStatus`] directly.
//! - Implement [`TickInstant`] and [`Interval`], then use [`TickWaiter`].
//!   [`NonInterval`] is the do-nothing interval.
//! - Use [`Counter`] when no tick source exists at all.
//!
//! [`TickDelay`] derives the one-shot engines for blocking delays built on
//! [`TickWaiter`].
use vstd::prelude::*;

mod accumulator;
mod convert;
mod counter;
mod non_interval;
mod num_width;
mod tick_delay;
mod tick_waiter;

pub use accumulator::lemma_exact_deadline_single_expiry;
pub use accumulator::lemma_fresh_poll_not_expired;
pub use accumulator::lemma_no_ticks_lost;
pub use accumulator::lemma_zero_deadline_always_expires;
pub use accumulator::poll_expired;
pub use accumulator::poll_next_elapsed;
pub use accumulator::poll_step;
pub use accumulator::poll_transition;
pub use accumulator::run_elapsed;
pub use accumulator::run_expiries;
pub use accumulator::sat_add;
pub use accumulator::seq_sum;
pub use convert::div_ceil;
pub use convert::lemma_ns_us_routes_agree;
pub use convert::ns_ticks;
pub use convert::ns_ticks_checked;
pub use convert::us_ticks;
pub use convert::us_ticks_checked;
pub use convert::TickError;
pub use counter::counter_advanced;
pub use counter::counter_expired;
pub use counter::Counter;
pub use counter::CounterInstance;
pub use non_interval::NonInterval;
pub use num_width::Num;
pub use tick_delay::TickDelay;
pub use tick_waiter::TickWaiter;
pub use tick_waiter::TickWaiterTime;

verus! {

/// A source of expirable wait sessions.
pub trait Waiter<'a> {
    /// The session type handed out by [`Waiter::start`]; it may borrow the
    /// waiter it was started from for `'a`.
    type Status: WaiterStatus;

    /// Start waiting.
    fn start(&'a self) -> Self::Status;
}

/// A [`Waiter`] whose time limit is chosen at the start of each session
/// rather than at construction, as a number of microseconds.
pub trait TimedWaiter<'a> {
    /// The session type handed out by [`TimedWaiter::start`].
    type Status: WaiterStatus;

    /// Set the timeout and start waiting.
    fn start(&'a self, timeout_us: u32) -> Self::Status;
}

/// One wait session produced by a [`Waiter`].
pub trait WaiterStatus {
    /// Check whether the time limit has expired. Depending on the
    /// implementation, this may idle for a while before returning.
    fn timeout(&mut self) -> bool;

    /// Reset the timeout condition.
    fn restart(&mut self);
}

/// A monotonic tick counter sampled as opaque instants. Monotonicity and
/// hardware wraparound are the implementer's concern; the engine only
/// accumulates the forward distances it is handed.
pub trait TickInstant: Copy {
    /// Sample the current instant.
    fn now() -> Self;

    /// The number of ticks elapsed from `earlier` to `self`.
    fn tick_since(self, earlier: Self) -> u32;

    /// The number of ticks elapsed since `self`.
    fn tick_elapsed(self) -> u32 {
        Self::now().tick_since(self)
    }
}

/// The action taken on each unexpired poll: do nothing, yield, sleep, or
/// anything else of the implementer's choosing. It must be cheap to clone so
/// every session can hold its own copy.
pub trait Interval: Clone {
    fn interval(&self);
}

} // verus!
