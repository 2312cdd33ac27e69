//! Simple exponential backoff.

use vstd::prelude::*;
use crate::delay::{Delay, MAX_DELAY_NANOS};
use vstd::arithmetic::power2::{lemma2_to64, lemma_pow2_unfold, pow2};

verus! {

/// The smaller of two lengths.
pub open spec fn min_nat(a: nat, b: nat) -> nat {
    if a <= b {
        a
    } else {
        b
    }
}

/// The delay that follows `current`: twice as long, but no longer than `max`.
pub open spec fn next_backoff(current: nat, max: nat) -> nat {
    min_nat(2 * current, max)
}

/// The `k`-th delay (counting from zero) handed out by a backoff that starts at
/// `start` and maxes out at `max`.
pub open spec fn backoff_delay(start: nat, max: nat, k: nat) -> nat
    decreases k,
{
    if k == 0 {
        start
    } else {
        next_backoff(backoff_delay(start, max, (k - 1) as nat), max)
    }
}

/// Simple exponential backoff.
pub struct ExponentialBackoff {
    start_delay: Delay,
    max_delay: Delay,
    current_delay: Delay,
    /// Delays handed out since the backoff was created or last reset.
    steps: Ghost<nat>,
}

impl ExponentialBackoff {
    #[verifier::type_invariant]
    spec fn follows_sequence(self) -> bool {
        self.current_delay@ == backoff_delay(self.start_delay@, self.max_delay@, self.steps@)
    }

    /// The delay that the backoff starts with, in nanoseconds.
    pub closed spec fn start(&self) -> nat {
        self.start_delay@
    }

    /// The delay that the backoff maxes out at, in nanoseconds.
    pub closed spec fn max(&self) -> nat {
        self.max_delay@
    }

    /// The delay that the next call of `next_delay` returns, in nanoseconds.
    pub closed spec fn current(&self) -> nat {
        self.current_delay@
    }

    /// How many delays were handed out since the backoff was created or last reset.
    pub closed spec fn steps(&self) -> nat {
        self.steps@
    }

    /// The state that every backoff is in: the next delay is the `steps()`-th delay of
    /// the sequence `backoff_delay(start, max, _)`, and it is no longer than the larger of
    /// the start and maximum delays.
    pub open spec fn on_sequence(&self) -> bool {
        &&& self.current() == backoff_delay(self.start(), self.max(), self.steps())
        &&& self.current() <= max_nat(self.start(), self.max())
    }

    /// Creates a new exponential backoff instance starting with delay
    /// `start_delay` and maxing out at `max_delay`.
    pub fn new(start_delay: Delay, max_delay: Delay) -> (b: Self)
        ensures
            b.start() == start_delay@,
            b.max() == max_delay@,
            b.current() == start_delay@,
            b.steps() == 0,
            b.on_sequence(),
    {
        Self { start_delay, max_delay, current_delay: start_delay, steps: Ghost(0) }
    }

    /// Resets the exponential backoff so that the next delay is the start delay again.
    pub fn reset(&mut self)
        ensures
            final(self).start() == old(self).start(),
            final(self).max() == old(self).max(),
            final(self).current() == old(self).start(),
            final(self).steps() == 0,
            final(self).on_sequence(),
    {
        *self = Self {
            start_delay: self.start_delay,
            max_delay: self.max_delay,
            current_delay: self.start_delay,
            steps: Ghost(0),
        };
    }

    /// Returns the next delay. This is twice as long as the last returned delay,
    /// up until `max_delay` is reached.
    ///
    /// Doubling a delay beyond the range of `Delay` is an overflow, which the caller rules out
    /// (see `lemma_backoff_delay_fits_when_doubled` for when it cannot happen).
    pub fn next_delay(&mut self) -> (delay: Delay)
        requires
            2 * old(self).current() <= MAX_DELAY_NANOS,
        ensures
            delay@ == old(self).current(),
            delay@ == backoff_delay(old(self).start(), old(self).max(), old(self).steps()),
            final(self).start() == old(self).start(),
            final(self).max() == old(self).max(),
            final(self).current() == next_backoff(old(self).current(), old(self).max()),
            final(self).steps() == old(self).steps() + 1,
            final(self).on_sequence(),
    {
        proof {
            use_type_invariant(&*self);
        }
        let delay = self.current_delay;
        let doubled = Delay::from_nanos(self.current_delay.as_nanos() * 2);
        let max_nanos = self.max_delay.as_nanos();
        let next = if doubled.as_nanos() <= max_nanos {
            doubled
        } else {
            self.max_delay
        };
        *self = Self {
            start_delay: self.start_delay,
            max_delay: self.max_delay,
            current_delay: next,
            steps: Ghost(self.steps@ + 1),
        };
        delay
    }
}

/// The larger of two lengths.
pub open spec fn max_nat(a: nat, b: nat) -> nat {
    if a >= b {
        a
    } else {
        b
    }
}

/// No delay of the sequence is longer than the larger of the start and maximum delays.
pub proof fn lemma_backoff_delay_bounded(start: nat, max: nat, k: nat)
    ensures
        backoff_delay(start, max, k) <= max_nat(start, max),
        k >= 1 ==> backoff_delay(start, max, k) <= max,
        start == 0 ==> backoff_delay(start, max, k) == 0,
    decreases k,
{
    if k > 0 {
        lemma_backoff_delay_bounded(start, max, (k - 1) as nat);
    }
}

/// A backoff whose start and maximum delays are at most half the range of `Delay` can
/// double every delay it hands out: `next_delay` can be called (and the backoff reset)
/// any number of times.
pub proof fn lemma_backoff_delay_fits_when_doubled(start: nat, max: nat, k: nat)
    requires
        2 * start <= MAX_DELAY_NANOS,
        2 * max <= MAX_DELAY_NANOS,
    ensures
        2 * backoff_delay(start, max, k) <= MAX_DELAY_NANOS,
{
    lemma_backoff_delay_bounded(start, max, k);
}

/// A backoff whose start and maximum delays are at most half the range of `Delay` meets
/// the `requires` of `next_delay`, whatever calls it has been through.
pub proof fn lemma_next_delay_never_overflows(b: ExponentialBackoff)
    requires
        b.on_sequence(),
        2 * b.start() <= MAX_DELAY_NANOS,
        2 * b.max() <= MAX_DELAY_NANOS,
    ensures
        2 * b.current() <= MAX_DELAY_NANOS,
{
    lemma_backoff_delay_fits_when_doubled(b.start(), b.max(), b.steps());
}

/// After the first delay, the `k`-th delay is the start delay doubled `k` times, capped
/// at the maximum delay.
pub proof fn lemma_backoff_delay_closed_form(start: nat, max: nat, k: nat)
    requires
        k >= 1,
    ensures
        backoff_delay(start, max, k) == min_nat(start * pow2(k), max),
    decreases k,
{
    lemma_pow2_unfold(k);
    let p = pow2((k - 1) as nat);
    assert(start * pow2(k) == 2 * (start * p)) by (nonlinear_arith)
        requires
            pow2(k) == 2 * p,
    ;
    if k == 1 {
        lemma2_to64();
        assert(start * p == start) by (nonlinear_arith)
            requires
                p == 1,
        ;
        assert(backoff_delay(start, max, 0) == start);
        assert(backoff_delay(start, max, 1) == min_nat(2 * start, max));
        assert(min_nat(2 * (start * p), max) == min_nat(2 * start, max));
    } else {
        lemma_backoff_delay_closed_form(start, max, (k - 1) as nat);
        let x = start * p;
        assert(backoff_delay(start, max, (k - 1) as nat) == min_nat(x, max));
        assert(backoff_delay(start, max, k) == min_nat(2 * min_nat(x, max), max));
        assert(min_nat(2 * min_nat(x, max), max) == min_nat(2 * x, max));
    }
}

/// When the start delay is no longer than the maximum, the delays never shrink and
/// never exceed the maximum.
pub proof fn lemma_backoff_delay_grows_up_to_max(start: nat, max: nat, k: nat)
    requires
        start <= max,
    ensures
        backoff_delay(start, max, k) <= backoff_delay(start, max, k + 1),
        backoff_delay(start, max, k + 1) <= max,
    decreases k,
{
    if k > 0 {
        lemma_backoff_delay_grows_up_to_max(start, max, (k - 1) as nat);
    }
}

/// Once the delay has reached the maximum, it stays there.
pub proof fn lemma_backoff_delay_stays_at_max(start: nat, max: nat, k: nat, j: nat)
    requires
        backoff_delay(start, max, k) == max,
        k <= j,
    ensures
        backoff_delay(start, max, j) == max,
    decreases j - k,
{
    if k < j {
        lemma_backoff_delay_stays_at_max(start, max, k, (j - 1) as nat);
    }
}

} // verus!
