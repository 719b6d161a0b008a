use vstd::prelude::*;

use crate::Waiter;
use crate::WaiterStatus;

verus! {

/// Whether a poll finds the counter expired: a count-based waiter with
/// `retry_times` retries expires once `count` polls have already been spent,
/// except that a retry budget of `usize::MAX` never expires.
pub open spec fn counter_expired(count: nat, retry_times: nat) -> bool {
    retry_times != usize::MAX && count >= retry_times
}

/// The spent-poll count after one more poll: it grows by one until the retry
/// budget is reached and is left unchanged from then on (also when the
/// budget is `usize::MAX`, where expiry never comes).
pub open spec fn counter_advanced(count: nat, retry_times: nat) -> nat {
    if retry_times != usize::MAX && count < retry_times {
        count + 1
    } else {
        count
    }
}

/// A [`Waiter`] whose expiry is independent of time: it is determined solely
/// by the number of times `timeout()` has been called on a session.
pub struct Counter {
    retry_times: usize,
}

impl Counter {
    /// The configured number of retries.
    pub closed spec fn spec_retry_times(&self) -> nat {
        self.retry_times as nat
    }

    /// - `retry_times`: the number of calls to `timeout()` before it returns
    ///   `true`.
    ///     - If set to `0`, `timeout()` always returns `true`.
    ///     - If set to `usize::MAX`, `timeout()` always returns `false`.
    pub fn new(retry_times: usize) -> (c: Self)
        ensures
            c.spec_retry_times() == retry_times as nat,
    {
        Counter { retry_times }
    }

    /// Begin a fresh session counting from zero spent polls.
    pub fn start<'a>(&'a self) -> (s: CounterInstance<'a>)
        ensures
            s.spec_counter() == *self,
            s.spec_count() == 0,
    {
        CounterInstance { count: 0, waiter: self }
    }
}

/// One session of a [`Counter`]: the number of polls spent so far, plus a
/// non-owning handle to the shared counter configuration.
pub struct CounterInstance<'a> {
    count: usize,
    waiter: &'a Counter,
}

impl<'a> CounterInstance<'a> {
    /// The shared counter this session was started from.
    pub closed spec fn spec_counter(&self) -> Counter {
        *self.waiter
    }

    /// The number of polls spent since the session started or was restarted.
    pub closed spec fn spec_count(&self) -> nat {
        self.count as nat
    }

    /// The retry budget of the counter this session belongs to.
    pub open spec fn spec_retry_times(&self) -> nat {
        self.spec_counter().spec_retry_times()
    }

    /// Report whether the retry budget is spent, charging one poll to the
    /// budget when it is not.
    pub fn timeout(&mut self) -> (expired: bool)
        ensures
            final(self).spec_counter() == old(self).spec_counter(),
            expired == counter_expired(old(self).spec_count(), old(self).spec_retry_times()),
            final(self).spec_count() == counter_advanced(
                old(self).spec_count(),
                old(self).spec_retry_times(),
            ),
    {
        if self.waiter.retry_times == usize::MAX {
            return false;
        }

        if self.count < self.waiter.retry_times {
            self.count = self.count + 1;
            false
        } else {
            true
        }
    }

    /// Reset the spent-poll count to zero.
    pub fn restart(&mut self)
        ensures
            final(self).spec_counter() == old(self).spec_counter(),
            final(self).spec_count() == 0,
    {
        self.count = 0;
    }
}

impl<'a> Waiter<'a> for Counter {
    type Status = CounterInstance<'a>;

    fn start(&'a self) -> CounterInstance<'a> {
        Counter::start(self)
    }
}

impl<'a> WaiterStatus for CounterInstance<'a> {
    fn timeout(&mut self) -> bool {
        CounterInstance::timeout(self)
    }

    fn restart(&mut self) {
        CounterInstance::restart(self)
    }
}

} // verus!
