use vstd::prelude::*;

use crate::num_width::Num;

verus! {

/// Addition capped at `cap`: elapsed ticks saturate at the top of their
/// width instead of wrapping, so accumulated time is never silently lost.
pub open spec fn sat_add(a: nat, b: nat, cap: nat) -> nat {
    if a + b <= cap {
        a + b
    } else {
        cap
    }
}

/// Whether one poll expires: the elapsed ticks carried so far, plus the
/// delta just sampled (saturating at `cap`), have reached the deadline.
pub open spec fn poll_expired(elapsed: nat, delta: nat, deadline: nat, cap: nat) -> bool {
    sat_add(elapsed, delta, cap) >= deadline
}

/// The elapsed-tick count carried out of one poll. On expiry the deadline is
/// subtracted and the remainder is carried forward — a phase accumulator,
/// not a reset — so repeated polling forms a drift-free periodic alarm.
pub open spec fn poll_next_elapsed(elapsed: nat, delta: nat, deadline: nat, cap: nat) -> nat {
    let grown = sat_add(elapsed, delta, cap);
    if grown >= deadline {
        (grown - deadline) as nat
    } else {
        grown
    }
}

/// One poll of the phase accumulator in full: it expires exactly when
/// [`poll_expired`] says so and carries [`poll_next_elapsed`] forward.
pub open spec fn poll_transition(
    elapsed: nat,
    delta: nat,
    deadline: nat,
    cap: nat,
    expired: bool,
    elapsed_after: nat,
) -> bool {
    &&& expired == poll_expired(elapsed, delta, deadline, cap)
    &&& elapsed_after == poll_next_elapsed(elapsed, delta, deadline, cap)
}

/// The phase-accumulator core of one poll, as executable code: fold one
/// sampled tick delta into the elapsed count and compare it against the
/// deadline, carrying the remainder forward on expiry.
pub fn poll_step<N: Num>(elapsed: N, delta: u32, deadline: N) -> (r: (N, bool))
    ensures
        poll_transition(
            elapsed.as_nat(),
            delta as nat,
            deadline.as_nat(),
            N::width_max(),
            r.1,
            r.0.as_nat(),
        ),
{
    let grown = elapsed.add_u32(delta);
    if grown.at_least(deadline) {
        (grown.subtract(deadline), true)
    } else {
        (grown, false)
    }
}

/// The sum of a sequence of tick deltas.
pub open spec fn seq_sum(deltas: Seq<nat>) -> nat
    decreases deltas.len(),
{
    if deltas.len() == 0 {
        0
    } else {
        deltas[0] + seq_sum(deltas.drop_first())
    }
}

/// The elapsed-tick count carried after polling through `deltas` in order,
/// starting from `elapsed`.
pub open spec fn run_elapsed(elapsed: nat, deltas: Seq<nat>, deadline: nat, cap: nat) -> nat
    decreases deltas.len(),
{
    if deltas.len() == 0 {
        elapsed
    } else {
        run_elapsed(
            poll_next_elapsed(elapsed, deltas[0], deadline, cap),
            deltas.drop_first(),
            deadline,
            cap,
        )
    }
}

/// How many of the polls through `deltas` report expiry, starting from
/// `elapsed`.
pub open spec fn run_expiries(elapsed: nat, deltas: Seq<nat>, deadline: nat, cap: nat) -> nat
    decreases deltas.len(),
{
    if deltas.len() == 0 {
        0
    } else {
        (if poll_expired(elapsed, deltas[0], deadline, cap) {
            1 as nat
        } else {
            0 as nat
        }) + run_expiries(
            poll_next_elapsed(elapsed, deltas[0], deadline, cap),
            deltas.drop_first(),
            deadline,
            cap,
        )
    }
}

/// While the deltas polled through never bring the accumulator up to the
/// deadline, no poll expires and the elapsed count is the plain sum.
proof fn lemma_run_below_deadline(elapsed: nat, deltas: Seq<nat>, deadline: nat, cap: nat)
    requires
        deadline <= cap,
        elapsed + seq_sum(deltas) < deadline,
    ensures
        run_expiries(elapsed, deltas, deadline, cap) == 0,
        run_elapsed(elapsed, deltas, deadline, cap) == elapsed + seq_sum(deltas),
    decreases deltas.len(),
{
    if deltas.len() > 0 {
        let grown = sat_add(elapsed, deltas[0], cap);
        assert(grown == elapsed + deltas[0]);
        lemma_run_below_deadline(grown, deltas.drop_first(), deadline, cap);
    }
}

/// Polling through deltas that top the accumulator up to exactly the
/// deadline expires exactly once and carries no remainder out.
proof fn lemma_run_to_deadline(elapsed: nat, deltas: Seq<nat>, deadline: nat, cap: nat)
    requires
        0 < deadline <= cap,
        elapsed < deadline,
        elapsed + seq_sum(deltas) == deadline,
    ensures
        run_expiries(elapsed, deltas, deadline, cap) == 1,
        run_elapsed(elapsed, deltas, deadline, cap) == 0,
    decreases deltas.len(),
{
    assert(deltas.len() > 0);
    let grown = sat_add(elapsed, deltas[0], cap);
    assert(grown == elapsed + deltas[0]);
    if grown == deadline {
        assert(poll_expired(elapsed, deltas[0], deadline, cap));
        assert(poll_next_elapsed(elapsed, deltas[0], deadline, cap) == 0);
        assert(seq_sum(deltas.drop_first()) == 0);
        lemma_run_below_deadline(0, deltas.drop_first(), deadline, cap);
    } else {
        assert(grown < deadline);
        lemma_run_to_deadline(grown, deltas.drop_first(), deadline, cap);
    }
}

/// For a non-zero deadline and any sequence of tick deltas summing to
/// exactly the deadline, a fresh session polled through those deltas
/// reports expiry exactly once, and the remainder it carries forward is the
/// sum of the deltas minus the deadline.
pub proof fn lemma_exact_deadline_single_expiry(deltas: Seq<nat>, deadline: nat, cap: nat)
    requires
        0 < deadline <= cap,
        seq_sum(deltas) == deadline,
    ensures
        run_expiries(0, deltas, deadline, cap) == 1,
        run_elapsed(0, deltas, deadline, cap) == seq_sum(deltas) - deadline,
{
    lemma_run_to_deadline(0, deltas, deadline, cap);
}

/// No tick is ever lost to an expiry: over any run of polls that never
/// saturates the width, the elapsed count carried out, plus one deadline per
/// expiry reported, equals the elapsed count carried in plus every delta
/// sampled. This is what the carry-forward buys: a session polled forever is
/// a periodic alarm whose average period is exactly the deadline, with no
/// cumulative drift from irregular polling.
pub proof fn lemma_no_ticks_lost(elapsed: nat, deltas: Seq<nat>, deadline: nat, cap: nat)
    requires
        elapsed + seq_sum(deltas) <= cap,
    ensures
        run_elapsed(elapsed, deltas, deadline, cap) + deadline * run_expiries(
            elapsed,
            deltas,
            deadline,
            cap,
        ) == elapsed + seq_sum(deltas),
    decreases deltas.len(),
{
    if deltas.len() > 0 {
        let grown = sat_add(elapsed, deltas[0], cap);
        assert(grown == elapsed + deltas[0]);
        let carried = poll_next_elapsed(elapsed, deltas[0], deadline, cap);
        let tail = deltas.drop_first();
        lemma_no_ticks_lost(carried, tail, deadline, cap);
        let rest = run_expiries(carried, tail, deadline, cap);
        assert(seq_sum(deltas) == deltas[0] + seq_sum(tail));
        assert(run_elapsed(carried, tail, deadline, cap) + deadline * rest == carried + seq_sum(
            tail,
        ));
        assert(run_elapsed(elapsed, deltas, deadline, cap) == run_elapsed(
            carried,
            tail,
            deadline,
            cap,
        ));
        if grown >= deadline {
            assert(carried == grown - deadline);
            assert(run_expiries(elapsed, deltas, deadline, cap) == 1 + rest);
            assert(deadline * (1 + rest) == deadline * rest + deadline) by (nonlinear_arith);
            assert(deadline * run_expiries(elapsed, deltas, deadline, cap) == deadline * rest
                + deadline);
        } else {
            assert(run_expiries(elapsed, deltas, deadline, cap) == rest);
        }
    } else {
        assert(run_elapsed(elapsed, deltas, deadline, cap) == elapsed);
        assert(run_expiries(elapsed, deltas, deadline, cap) == 0);
        assert(seq_sum(deltas) == 0);
        assert(deadline * 0 == 0);
    }
}

/// Immediately after a restart, a poll that finds zero elapsed ticks
/// reports not-expired, given a non-zero deadline, and carries nothing.
pub proof fn lemma_fresh_poll_not_expired(deadline: nat, cap: nat)
    requires
        0 < deadline,
    ensures
        !poll_expired(0, 0, deadline, cap),
        poll_next_elapsed(0, 0, deadline, cap) == 0,
{
}

/// A deadline of zero expires on every poll, whatever ticks have elapsed.
pub proof fn lemma_zero_deadline_always_expires(elapsed: nat, delta: nat, cap: nat)
    ensures
        poll_expired(elapsed, delta, 0, cap),
{
}

} // verus!
