//! A span of time with nanosecond precision and the range of `std::time::Duration`.

use vstd::prelude::*;

verus! {

/// Nanoseconds in one second.
pub const NANOS_PER_SEC: u128 = 1_000_000_000;

/// Nanoseconds in one millisecond.
pub const NANOS_PER_MILLI: u128 = 1_000_000;

/// The longest span a `Delay` can hold: `u64::MAX` seconds plus 999 999 999 nanoseconds,
/// the same range as `std::time::Duration`.
pub const MAX_DELAY_NANOS: u128 = 18_446_744_073_709_551_615_999_999_999;

/// A span of time. Its view is its length in nanoseconds.
#[derive(Clone, Copy, Debug, PartialEq, Eq)]
pub struct Delay {
    nanos: u128,
}

impl Delay {
    #[verifier::type_invariant]
    spec fn in_range(self) -> bool {
        self.nanos <= MAX_DELAY_NANOS
    }
}

impl View for Delay {
    type V = nat;

    closed spec fn view(&self) -> nat {
        self.nanos as nat
    }
}

impl Delay {
    /// A delay of exactly `nanos` nanoseconds.
    pub fn from_nanos(nanos: u128) -> (d: Delay)
        requires
            nanos <= MAX_DELAY_NANOS,
        ensures
            d@ == nanos,
    {
        Delay { nanos }
    }

    /// A delay of `secs` seconds plus `nanos` nanoseconds, where `nanos` may exceed a
    /// second and then carries into the seconds, as `Duration::new` does.
    pub fn new(secs: u64, nanos: u32) -> (d: Delay)
        requires
            secs + (nanos as int) / (NANOS_PER_SEC as int) <= u64::MAX,
        ensures
            d@ == secs * NANOS_PER_SEC + nanos,
    {
        let total: u128 = (secs as u128) * NANOS_PER_SEC + (nanos as u128);
        assert(total <= MAX_DELAY_NANOS) by (nonlinear_arith)
            requires
                total == secs * 1_000_000_000 + nanos,
                secs + nanos / 1_000_000_000 <= 0xffff_ffff_ffff_ffffu64,
                nanos < 0x1_0000_0000,
        ;
        Delay { nanos: total }
    }

    /// A delay of `secs` whole seconds.
    pub fn from_secs(secs: u64) -> (d: Delay)
        ensures
            d@ == secs * NANOS_PER_SEC,
    {
        assert(secs * 1_000_000_000 <= MAX_DELAY_NANOS) by (nonlinear_arith)
            requires
                secs <= 0xffff_ffff_ffff_ffffu64,
        ;
        Delay { nanos: (secs as u128) * NANOS_PER_SEC }
    }

    /// A delay of `millis` milliseconds.
    pub fn from_millis(millis: u64) -> (d: Delay)
        ensures
            d@ == millis * NANOS_PER_MILLI,
    {
        assert(millis * 1_000_000 <= MAX_DELAY_NANOS) by (nonlinear_arith)
            requires
                millis <= 0xffff_ffff_ffff_ffffu64,
        ;
        Delay { nanos: (millis as u128) * NANOS_PER_MILLI }
    }

    /// The whole length in nanoseconds.
    pub fn as_nanos(&self) -> (n: u128)
        ensures
            n == self@,
            n <= MAX_DELAY_NANOS,
    {
        proof {
            use_type_invariant(self);
        }
        self.nanos
    }

    /// The number of whole seconds.
    pub fn as_secs(&self) -> (s: u64)
        ensures
            s == self@ / (NANOS_PER_SEC as nat),
    {
        proof {
            use_type_invariant(self);
        }
        assert(self.nanos / 1_000_000_000 <= 0xffff_ffff_ffff_ffffu64) by (nonlinear_arith)
            requires
                self.nanos <= MAX_DELAY_NANOS,
        ;
        (self.nanos / NANOS_PER_SEC) as u64
    }

    /// The nanoseconds beyond the whole seconds.
    pub fn subsec_nanos(&self) -> (n: u32)
        ensures
            n == self@ % (NANOS_PER_SEC as nat),
            n < NANOS_PER_SEC,
    {
        (self.nanos % NANOS_PER_SEC) as u32
    }
}

} // verus!
