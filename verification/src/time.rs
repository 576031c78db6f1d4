//! A span of time, counted in nanoseconds, with the range of
//! `std::time::Duration` (up to `u64::MAX` seconds and 999 999 999
//! nanoseconds).

use vstd::prelude::*;

verus! {

/// Nanoseconds in one second.
pub const NANOS_PER_SEC: u128 = 1_000_000_000;

/// The largest representable span, in nanoseconds.
pub const MAX_NANOS: u128 = 18_446_744_073_709_551_615_999_999_999;

/// The largest representable span, in nanoseconds.
pub open spec fn max_nanos() -> nat {
    MAX_NANOS as nat
}

/// A non-negative span of time.
#[derive(Clone, Copy, Debug, PartialEq, Eq, Hash, Structural)]
pub struct Duration {
    nanos: u128,
}

impl View for Duration {
    type V = nat;

    /// The span in nanoseconds.
    closed spec fn view(&self) -> nat {
        self.nanos as nat
    }
}

/// The smaller of two naturals.
pub open spec fn min_nat(a: nat, b: nat) -> nat {
    if a <= b {
        a
    } else {
        b
    }
}

impl Duration {
    #[verifier::type_invariant]
    spec fn bounded(self) -> bool {
        self.nanos <= MAX_NANOS
    }

    /// The span holds at most [`MAX_NANOS`] nanoseconds.
    pub fn lemma_bounded(&self)
        ensures
            self@ <= max_nanos(),
    {
        proof {
            use_type_invariant(self);
        }
    }

    /// The empty span.
    pub fn zero() -> (r: Duration)
        ensures
            r@ == 0,
    {
        Duration { nanos: 0 }
    }

    /// A span of whole seconds.
    pub fn from_secs(secs: u64) -> (r: Duration)
        ensures
            r@ == secs * 1_000_000_000,
    {
        assert(secs * 1_000_000_000 <= MAX_NANOS);
        Duration { nanos: (secs as u128) * NANOS_PER_SEC }
    }

    /// A span of milliseconds.
    pub fn from_millis(millis: u64) -> (r: Duration)
        ensures
            r@ == millis * 1_000_000,
    {
        Duration { nanos: (millis as u128) * 1_000_000 }
    }

    /// A span of nanoseconds.
    pub fn from_nanos(nanos: u64) -> (r: Duration)
        ensures
            r@ == nanos,
    {
        Duration { nanos: nanos as u128 }
    }

    /// A span of `secs` seconds and `nanos` nanoseconds. The total must not
    /// exceed the largest representable span.
    pub fn new(secs: u64, nanos: u32) -> (r: Duration)
        requires
            secs * 1_000_000_000 + nanos <= max_nanos(),
        ensures
            r@ == secs * 1_000_000_000 + nanos,
    {
        Duration { nanos: (secs as u128) * NANOS_PER_SEC + (nanos as u128) }
    }

    /// Returns whether the span is empty.
    pub fn is_zero(&self) -> (r: bool)
        ensures
            r == (self@ == 0),
    {
        self.nanos == 0
    }

    /// The whole span in nanoseconds.
    pub fn as_nanos(&self) -> (r: u128)
        ensures
            r == self@,
    {
        self.nanos
    }

    /// The whole seconds in the span.
    pub fn as_secs(&self) -> (r: u64)
        ensures
            r == self@ / 1_000_000_000,
    {
        proof {
            use_type_invariant(self);
        }
        (self.nanos / NANOS_PER_SEC) as u64
    }

    /// The nanoseconds beyond the whole seconds.
    pub fn subsec_nanos(&self) -> (r: u32)
        ensures
            r == self@ % 1_000_000_000,
    {
        (self.nanos % NANOS_PER_SEC) as u32
    }

    /// Returns whether this span is no longer than `other`.
    pub fn le(&self, other: &Duration) -> (r: bool)
        ensures
            r == (self@ <= other@),
    {
        self.nanos <= other.nanos
    }

    /// The shorter of two spans.
    pub fn min(self, other: Duration) -> (r: Duration)
        ensures
            r@ == min_nat(self@, other@),
    {
        if self.nanos <= other.nanos {
            self
        } else {
            other
        }
    }

    /// The span multiplied by `factor`, or the largest span when the product
    /// is not representable.
    pub fn saturating_mul(self, factor: u32) -> (r: Duration)
        ensures
            r@ == min_nat(self@ * (factor as nat), max_nanos()),
    {
        proof {
            use_type_invariant(&self);
            assert(self.nanos * factor <= MAX_NANOS * 0xffff_ffffu128) by (nonlinear_arith)
                requires
                    self.nanos <= MAX_NANOS,
                    factor <= 0xffff_ffffu32,
            ;
        }
        let product = self.nanos * (factor as u128);
        if product <= MAX_NANOS {
            Duration { nanos: product }
        } else {
            Duration { nanos: MAX_NANOS }
        }
    }
}

} // verus!
