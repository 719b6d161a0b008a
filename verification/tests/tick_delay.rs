use std::time::{Duration, Instant};

use waiter_trait::{NonInterval, TickDelay, TickInstant};

/// A tick source backed by the host's monotonic clock, one tick per
/// nanosecond.
#[derive(Clone, Copy)]
struct HostInstant(Instant);

impl TickInstant for HostInstant {
    fn now() -> Self {
        HostInstant(Instant::now())
    }

    fn tick_since(self, earlier: Self) -> u32 {
        self.0.duration_since(earlier.0).as_nanos() as u32
    }
}

#[test]
fn tick_delay() {
    let d = TickDelay::<HostInstant, _, _>::new(
        Duration::from_secs(1).as_nanos() as u32,
        NonInterval::new(),
        NonInterval::new(),
    );

    let t = Instant::now();
    let w = d.ns_waiter(10_000);
    let mut s = w.start();
    while !s.timeout() {}
    let elapsed = t.elapsed();
    assert!(elapsed - Duration::from_nanos(10_000) < Duration::from_nanos(500));

    let t = Instant::now();
    let w = d.us_waiter(1000);
    let mut s = w.start();
    while !s.timeout() {}
    let elapsed = t.elapsed();
    assert!(elapsed - Duration::from_micros(1000) < Duration::from_micros(500));
}
