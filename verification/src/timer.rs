//! Repeating spawn timers, advanced by whole milliseconds of frame time.

use vstd::prelude::*;

verus! {

/// Whether a timer of period `period` fires when a step of `delta` is added
/// to accumulator `elapsed`.
pub open spec fn fires_at(period: int, elapsed: int, delta: int) -> bool {
    elapsed + delta >= period
}

/// The accumulator a timer of period `period` holds after a step of `delta`
/// from accumulator `elapsed`: on firing it keeps the accumulated time
/// modulo the period, otherwise it just accumulates.
pub open spec fn next_at(period: int, elapsed: int, delta: int) -> int {
    if fires_at(period, elapsed, delta) {
        (elapsed + delta) % period
    } else {
        elapsed + delta
    }
}

/// A repeating countdown: accumulates elapsed time and fires once whenever a
/// whole period has passed. However large a single step is, one step fires
/// at most once (no catch-up bursts); the overshoot beyond a whole number of
/// periods is kept, so runs of period-sized-or-smaller steps fire exactly
/// once per period of accumulated time.
#[derive(Clone, Copy, PartialEq, Eq, Structural, Debug)]
pub struct RepeatTimer {
    /// Period between firings, in milliseconds.
    pub period_ms: u64,
    /// Time accumulated toward the next firing, in milliseconds.
    pub elapsed_ms: u64,
}

/// Largest frame delta a tick accepts, in milliseconds (one hour; far above
/// any real frame, and small enough that the accumulator sum cannot wrap).
pub const MAX_TICK_MS: u64 = 3_600_000;

impl RepeatTimer {
    /// The period is positive and the accumulator stays below it.
    pub open spec fn wf(self) -> bool {
        0 < self.period_ms && self.elapsed_ms < self.period_ms
    }

    pub fn new(period_ms: u64) -> (t: RepeatTimer)
        requires
            0 < period_ms,
        ensures
            t.period_ms == period_ms,
            t.elapsed_ms == 0,
            t.wf(),
    {
        RepeatTimer { period_ms, elapsed_ms: 0 }
    }

    /// Advance the timer by one frame's delta. Fires at most once per call
    /// regardless of how large the delta is; on firing, the accumulator
    /// keeps the remainder of the accumulated time modulo the period.
    pub fn tick(&mut self, delta_ms: u64) -> (fired: bool)
        requires
            old(self).wf(),
            delta_ms <= MAX_TICK_MS,
            old(self).period_ms <= u64::MAX - MAX_TICK_MS,
        ensures
            final(self).wf(),
            final(self).period_ms == old(self).period_ms,
            fired == fires_at(
                old(self).period_ms as int,
                old(self).elapsed_ms as int,
                delta_ms as int,
            ),
            final(self).elapsed_ms == next_at(
                old(self).period_ms as int,
                old(self).elapsed_ms as int,
                delta_ms as int,
            ),
    {
        let total: u64 = self.elapsed_ms + delta_ms;
        if total >= self.period_ms {
            self.elapsed_ms = total % self.period_ms;
            true
        } else {
            self.elapsed_ms = total;
            false
        }
    }
}

/// The accumulator after running a fresh timer of period `period` through
/// the deltas of `ds`, in order.
pub open spec fn run_elapsed(period: int, ds: Seq<int>) -> int
    decreases ds.len(),
{
    if ds.len() == 0 {
        0
    } else {
        next_at(period, run_elapsed(period, ds.drop_last()), ds.last())
    }
}

/// How often a fresh timer of period `period` fires over the deltas of
/// `ds`, in order.
pub open spec fn run_count(period: int, ds: Seq<int>) -> int
    decreases ds.len(),
{
    if ds.len() == 0 {
        0
    } else {
        run_count(period, ds.drop_last()) + if fires_at(
            period,
            run_elapsed(period, ds.drop_last()),
            ds.last(),
        ) {
            1int
        } else {
            0int
        }
    }
}

/// Sum of a sequence of deltas.
pub open spec fn sum_of(ds: Seq<int>) -> int
    decreases ds.len(),
{
    if ds.len() == 0 {
        0
    } else {
        sum_of(ds.drop_last()) + ds.last()
    }
}

/// A sum of non-negative deltas is non-negative.
pub proof fn lemma_sum_nonneg(ds: Seq<int>)
    requires
        forall|i: int| 0 <= i < ds.len() ==> 0 <= #[trigger] ds[i],
    ensures
        0 <= sum_of(ds),
    decreases ds.len(),
{
    if ds.len() > 0 {
        lemma_sum_nonneg(ds.drop_last());
    }
}

/// Law: over any run of steps each no larger than the period, a fresh
/// repeating timer fires exactly once per whole period of accumulated
/// time: the cumulative count is the floor of the accumulated time over
/// the period, and the accumulator is the remainder. (A single oversized
/// step still fires at most once; the floor law is for period-sized-or-
/// smaller steps.)
pub proof fn lemma_spawn_rate(period: int, ds: Seq<int>)
    requires
        0 < period,
        forall|i: int| 0 <= i < ds.len() ==> 0 <= #[trigger] ds[i] <= period,
    ensures
        run_count(period, ds) == sum_of(ds) / period,
        run_elapsed(period, ds) == sum_of(ds) % period,
    decreases ds.len(),
{
    if ds.len() == 0 {
        vstd::arithmetic::div_mod::lemma_fundamental_div_mod_converse(0, period, 0, 0);
    } else {
        assert(forall|i: int|
            0 <= i < ds.drop_last().len() ==> 0 <= #[trigger] ds.drop_last()[i] <= period);
        lemma_spawn_rate(period, ds.drop_last());
        lemma_sum_nonneg(ds.drop_last());
        let s = sum_of(ds.drop_last());
        let d = ds.last();
        let e = run_elapsed(period, ds.drop_last());
        let q = run_count(period, ds.drop_last());
        vstd::arithmetic::div_mod::lemma_mod_bound(s, period);
        vstd::arithmetic::div_mod::lemma_fundamental_div_mod(s, period);
        assert(s == period * q + e);
        if e + d >= period {
            assert(e + d == 1 * period + (e + d - period)) by (nonlinear_arith);
            vstd::arithmetic::div_mod::lemma_fundamental_div_mod_converse(
                e + d,
                period,
                1,
                e + d - period,
            );
            assert(s + d == (q + 1) * period + (e + d - period)) by (nonlinear_arith)
                requires
                    s == period * q + e,
            ;
            vstd::arithmetic::div_mod::lemma_fundamental_div_mod_converse(
                s + d,
                period,
                q + 1,
                e + d - period,
            );
        } else {
            assert(s + d == q * period + (e + d)) by (nonlinear_arith)
                requires
                    s == period * q + e,
            ;
            vstd::arithmetic::div_mod::lemma_fundamental_div_mod_converse(s + d, period, q, e + d);
        }
    }
}

} // verus!
