use waiter_trait::{
    ns_ticks_checked, poll_step, us_ticks_checked, NonInterval, TickError, TickInstant, TickWaiter,
};

/// A tick source that never advances: every sampled delta is zero.
#[derive(Clone, Copy)]
struct FrozenInstant;

impl TickInstant for FrozenInstant {
    fn now() -> Self {
        FrozenInstant
    }

    fn tick_since(self, _earlier: Self) -> u32 {
        0
    }
}

#[test]
fn ns_route_scenario_carries_remainder() {
    // 10,000 ns at 1,000,000,000 ticks/sec derive a deadline of 10,000 ticks.
    let w = TickWaiter::<FrozenInstant, NonInterval, u64>::ns(
        10_000,
        NonInterval::new(),
        1_000_000_000,
    );
    let deadline = w.timeout_tick();
    assert_eq!(deadline, 10_000);

    // Deltas of 4000, 4000, 4000 expire on the third poll, carrying the
    // 2000-tick overshoot forward rather than discarding it.
    let (acc, expired) = poll_step(0u64, 4000, deadline);
    assert!(!expired);
    assert_eq!(acc, 4000);
    let (acc, expired) = poll_step(acc, 4000, deadline);
    assert!(!expired);
    assert_eq!(acc, 8000);
    let (acc, expired) = poll_step(acc, 4000, deadline);
    assert!(expired);
    assert_eq!(acc, 2000);
}

#[test]
fn us_route_scenario_rounds_up() {
    // 1000 us at 2,000,000 ticks/sec derive a deadline of 2000 ticks.
    let w =
        TickWaiter::<FrozenInstant, NonInterval, u32>::us(1000, NonInterval::new(), 2_000_000);
    assert_eq!(w.timeout_tick(), 2000);
    assert_eq!(us_ticks_checked(1000, 2_000_000), Ok(2000));

    // A duration that is not a whole number of ticks rounds up, not down.
    assert_eq!(us_ticks_checked(1, 1_500_000), Ok(2));
}

#[test]
fn deltas_summing_to_deadline_expire_exactly_once() {
    // Non-negative deltas summing to exactly the deadline: expired exactly
    // once, and the carried remainder afterwards is sum - deadline = 0.
    let deadline: u64 = 5000;
    let deltas: [u32; 5] = [1000, 0, 2500, 1500, 0];
    let mut acc: u64 = 0;
    let mut expiries: u32 = 0;
    for d in deltas {
        let (next, expired) = poll_step(acc, d, deadline);
        acc = next;
        if expired {
            expiries += 1;
        }
    }
    assert_eq!(expiries, 1);
    assert_eq!(acc, 0);
}

#[test]
fn fresh_session_with_zero_elapsed_is_not_expired() {
    let w = TickWaiter::<FrozenInstant, NonInterval, u64>::ns(
        10_000,
        NonInterval::new(),
        1_000_000_000,
    );
    // The frozen tick source reports zero elapsed ticks on every poll.
    let mut s = w.start();
    assert!(!s.timeout());
    assert!(!s.timeout());
    s.restart();
    assert!(!s.timeout());
}

#[test]
fn zero_deadline_expires_on_every_poll() {
    let w =
        TickWaiter::<FrozenInstant, NonInterval, u64>::ns(0, NonInterval::new(), 1_000_000_000);
    assert_eq!(w.timeout_tick(), 0);
    let mut s = w.start();
    assert!(s.timeout());
    assert!(s.timeout());
    assert!(s.timeout());

    // Whatever has accumulated, a zero deadline reports expiry.
    let (_, expired) = poll_step(0u32, 0, 0u32);
    assert!(expired);
    let (_, expired) = poll_step(123u32, 7, 0u32);
    assert!(expired);
}

#[test]
fn ns_and_us_routes_agree_on_whole_microseconds() {
    // 123,000 ns at 7,000,000 ticks/sec equals 123 us on the other route.
    let ns = ns_ticks_checked(123_000, 7_000_000).unwrap();
    let us = us_ticks_checked(123, 7_000_000).unwrap();
    assert_eq!(ns, us as u64);
    assert_eq!(ns, 861);
}

#[test]
fn overflowing_us_request_fails_construction_deterministically() {
    // ceil(4,294,967,295 us * 2,000,000 / 1,000,000) ticks exceed u32.
    let first = us_ticks_checked(u32::MAX, 2_000_000);
    let second = us_ticks_checked(u32::MAX, 2_000_000);
    assert_eq!(first, Err(TickError::ConstructionOverflow));
    assert_eq!(second, first);
}

#[test]
fn overflowing_ns_request_fails_construction() {
    assert_eq!(
        ns_ticks_checked(u64::MAX, 1_000_000_000),
        Err(TickError::ConstructionOverflow)
    );
}

#[test]
fn ns_route_rejects_uneven_frequency() {
    assert_eq!(
        ns_ticks_checked(1000, 999_999),
        Err(TickError::InvalidFrequency)
    );
    assert_eq!(
        ns_ticks_checked(1000, 1_000_001),
        Err(TickError::InvalidFrequency)
    );
}

#[test]
fn elapsed_ticks_saturate_instead_of_wrapping() {
    // Near the top of the u32 width the accumulator saturates, so the
    // deadline is still considered reached rather than lost to wraparound.
    let (acc, expired) = poll_step(u32::MAX - 2, 100, u32::MAX);
    assert!(expired);
    assert_eq!(acc, 0);

    let (acc, expired) = poll_step(u64::MAX - 2, 100, u64::MAX);
    assert!(expired);
    assert_eq!(acc, 0);
}

#[test]
fn carry_forward_never_discards_ticks() {
    let deadline: u64 = 5000;
    let mut acc: u64 = 0;
    let mut expiries: u64 = 0;
    for _ in 0..3 {
        let (next, expired) = poll_step(acc, 7000, deadline);
        acc = next;
        if expired {
            expiries += 1;
        }
    }
    // Every sampled tick is accounted for: the carried remainder plus one
    // deadline per expiry equals the total of the deltas.
    assert_eq!(expiries, 3);
    assert_eq!(acc, 6000);
    assert_eq!(acc + deadline * expiries, 21_000);

    // The over-full remainder expires the next poll even with no new ticks.
    let (next, expired) = poll_step(acc, 0, deadline);
    assert!(expired);
    assert_eq!(next, 1000);
}
