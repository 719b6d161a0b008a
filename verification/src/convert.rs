use vstd::prelude::*;

verus! {

/// Why building a tick deadline from a requested duration failed. All
/// validity checks happen at construction, before any session exists; once a
/// waiter is built, polling cannot fail.
#[derive(Clone, Copy, Debug, PartialEq, Eq, Structural)]
pub enum TickError {
    /// The derived tick count does not fit the selected integer width.
    ConstructionOverflow,
    /// The nanosecond route was given a frequency that is not an exact
    /// multiple of 1,000,000 ticks per second.
    InvalidFrequency,
}

/// `a / b` rounded towards positive infinity, for positive `b`.
pub open spec fn div_ceil(a: int, b: int) -> int {
    (a + b - 1) / b
}

/// The tick deadline derived from a microsecond request: `timeout_us`
/// microseconds at `frequency` ticks per second, rounded up to whole ticks.
pub open spec fn us_ticks(timeout_us: nat, frequency: nat) -> int {
    div_ceil(timeout_us * frequency as int, 1_000_000)
}

/// The tick deadline derived from a nanosecond request: `timeout_ns`
/// nanoseconds at `frequency` ticks per second, where `frequency` is an
/// exact multiple of 1,000,000, rounded up to whole ticks.
pub open spec fn ns_ticks(timeout_ns: nat, frequency: nat) -> int {
    div_ceil(timeout_ns * (frequency / 1_000_000) as int, 1000)
}

/// The microsecond-route tick count, widened so the product cannot
/// overflow while it is being computed.
pub(crate) fn us_ticks_wide(timeout_us: u32, frequency: u32) -> (t: u64)
    ensures
        t as int == us_ticks(timeout_us as nat, frequency as nat),
{
    proof {
        assert((timeout_us as int) * (frequency as int) <= 0xffff_ffff * 0xffff_ffff)
            by (nonlinear_arith)
            requires
                timeout_us <= 0xffff_ffffu32,
                frequency <= 0xffff_ffffu32,
        ;
    }
    let product: u64 = (timeout_us as u64) * (frequency as u64);
    (product + 999_999) / 1_000_000
}

/// The microsecond-route tick deadline for a `u32`-wide engine, or
/// [`TickError::ConstructionOverflow`] when it does not fit that width.
/// The same inputs always give the same answer.
pub fn us_ticks_checked(timeout_us: u32, frequency: u32) -> (r: Result<u32, TickError>)
    ensures
        (({
            let t = us_ticks(timeout_us as nat, frequency as nat);
            if t <= u32::MAX {
                r == Ok::<u32, TickError>(t as u32)
            } else {
                r == Err::<u32, TickError>(TickError::ConstructionOverflow)
            }
        })),
{
    let t = us_ticks_wide(timeout_us, frequency);
    if t <= u32::MAX as u64 {
        Ok(t as u32)
    } else {
        Err(TickError::ConstructionOverflow)
    }
}

/// The nanosecond-route tick deadline for a `u64`-wide engine:
/// [`TickError::InvalidFrequency`] when `frequency` is not an exact multiple
/// of 1,000,000, and [`TickError::ConstructionOverflow`] when the tick
/// product overflows the width while being derived. The same inputs always
/// give the same answer.
pub fn ns_ticks_checked(timeout_ns: u64, frequency: u32) -> (r: Result<u64, TickError>)
    ensures
        frequency % 1_000_000 != 0 ==> r == Err::<u64, TickError>(TickError::InvalidFrequency),
        frequency % 1_000_000 == 0 ==> (({
            let product = (timeout_ns as nat) * ((frequency / 1_000_000) as nat);
            if product <= u64::MAX {
                r == Ok::<u64, TickError>(ns_ticks(timeout_ns as nat, frequency as nat) as u64)
            } else {
                r == Err::<u64, TickError>(TickError::ConstructionOverflow)
            }
        })),
{
    if frequency % 1_000_000 != 0 {
        return Err(TickError::InvalidFrequency);
    }
    let per_us: u64 = (frequency / 1_000_000) as u64;
    match timeout_ns.checked_mul(per_us) {
        Some(_) => Ok(ns_ticks_core(timeout_ns, frequency)),
        None => Err(TickError::ConstructionOverflow),
    }
}

/// The nanosecond-route tick count, for requests already known to keep the
/// tick product inside the `u64` width.
pub(crate) fn ns_ticks_core(timeout_ns: u64, frequency: u32) -> (t: u64)
    requires
        frequency % 1_000_000 == 0,
        (timeout_ns as nat) * ((frequency as nat) / 1_000_000) <= u64::MAX,
    ensures
        t as int == ns_ticks(timeout_ns as nat, frequency as nat),
{
    let per_us: u64 = (frequency / 1_000_000) as u64;
    let product: u64 = timeout_ns * per_us;
    let whole: u64 = product / 1000;
    let t: u64 = if product % 1000 == 0 {
        whole
    } else {
        whole + 1
    };
    proof {
        assert(t as int == div_ceil(product as int, 1000));
    }
    t
}

/// Conversion cross-check: for a frequency that is an exact multiple of
/// 1,000,000 and a nanosecond request that is an exact multiple of 1,000,
/// the nanosecond route derives the same tick count as the microsecond
/// route given the equivalent number of microseconds.
pub proof fn lemma_ns_us_routes_agree(timeout_ns: nat, frequency: nat)
    requires
        frequency % 1_000_000 == 0,
        timeout_ns % 1000 == 0,
    ensures
        ns_ticks(timeout_ns, frequency) == us_ticks(timeout_ns / 1000, frequency),
{
    let per_us = frequency / 1_000_000;
    let us = timeout_ns / 1000;
    assert(frequency == 1_000_000 * per_us);
    assert(timeout_ns == 1000 * us);
    assert(timeout_ns * per_us == 1000 * (us * per_us)) by (nonlinear_arith)
        requires
            timeout_ns == 1000 * us,
    ;
    assert(us * frequency == 1_000_000 * (us * per_us)) by (nonlinear_arith)
        requires
            frequency == 1_000_000 * per_us,
    ;
    assert(div_ceil(1000 * (us * per_us) as int, 1000) == us * per_us);
    assert(div_ceil(1_000_000 * (us * per_us) as int, 1_000_000) == us * per_us);
}

} // verus!
