//! A nanosecond-precise span of time with the range of `std::time::Duration`.

use vstd::prelude::*;

verus! {

/// Nanoseconds in one second.
pub const NANOS_PER_SEC: u128 = 1_000_000_000;

/// The largest span: `u64::MAX` seconds and 999_999_999 nanoseconds.
pub const MAX_SPAN_NANOS: u128 = 18_446_744_073_709_551_615_999_999_999;

/// A span of time, counted in nanoseconds, never beyond `MAX_SPAN_NANOS`.
#[derive(Clone, Copy, Debug)]
pub struct TimeSpan {
    nanos: u128,
}

impl View for TimeSpan {
    type V = nat;

    closed spec fn view(&self) -> nat {
        self.nanos as nat
    }
}

/// `a - b`, or zero when `b` is the later of the two.
pub open spec fn span_since(a: nat, b: nat) -> nat {
    if a >= b {
        (a - b) as nat
    } else {
        0
    }
}

/// Doubling that stops at the largest span.
pub open spec fn doubled(a: nat) -> nat {
    if 2 * a <= MAX_SPAN_NANOS {
        2 * a
    } else {
        MAX_SPAN_NANOS as nat
    }
}

/// An optional span taken as an optional number of nanoseconds.
pub open spec fn opt_span(o: Option<TimeSpan>) -> Option<nat> {
    match o {
        Some(t) => Some(t@),
        None => None,
    }
}

impl TimeSpan {
    #[verifier::type_invariant]
    spec fn bounded(self) -> bool {
        self.nanos <= MAX_SPAN_NANOS
    }

    /// The empty span.
    pub fn zero() -> (t: TimeSpan)
        ensures
            t@ == 0,
    {
        TimeSpan { nanos: 0 }
    }

    pub fn from_secs(secs: u64) -> (t: TimeSpan)
        ensures
            t@ == secs * NANOS_PER_SEC,
    {
        TimeSpan { nanos: secs as u128 * NANOS_PER_SEC }
    }

    pub fn from_millis(millis: u64) -> (t: TimeSpan)
        ensures
            t@ == millis * 1_000_000,
    {
        TimeSpan { nanos: millis as u128 * 1_000_000 }
    }

    pub fn from_nanos(nanos: u64) -> (t: TimeSpan)
        ensures
            t@ == nanos,
    {
        TimeSpan { nanos: nanos as u128 }
    }

    /// The span of `secs` seconds and `subsec_nanos` nanoseconds, as
    /// `Duration::new` builds it when the nanoseconds stay below one second.
    pub fn from_parts(secs: u64, subsec_nanos: u32) -> (t: TimeSpan)
        requires
            subsec_nanos < NANOS_PER_SEC,
        ensures
            t@ == secs * NANOS_PER_SEC + subsec_nanos,
    {
        TimeSpan { nanos: secs as u128 * NANOS_PER_SEC + subsec_nanos as u128 }
    }

    /// The whole span in nanoseconds.
    pub fn as_nanos(&self) -> (n: u128)
        ensures
            n == self@,
            n <= MAX_SPAN_NANOS,
    {
        proof {
            use_type_invariant(self);
        }
        self.nanos
    }

    /// The whole seconds of the span.
    pub fn as_secs(&self) -> (s: u64)
        ensures
            s == self@ / (NANOS_PER_SEC as nat),
    {
        proof {
            use_type_invariant(self);
        }
        let n = self.nanos;
        assert(n / NANOS_PER_SEC <= u64::MAX) by (nonlinear_arith)
            requires
                n <= MAX_SPAN_NANOS,
        ;
        (n / NANOS_PER_SEC) as u64
    }

    /// The nanoseconds past the whole seconds.
    pub fn subsec_nanos(&self) -> (s: u32)
        ensures
            s == self@ % (NANOS_PER_SEC as nat),
            s < NANOS_PER_SEC,
    {
        let n = self.nanos;
        (n % NANOS_PER_SEC) as u32
    }

    pub fn is_zero(&self) -> (b: bool)
        ensures
            b == (self@ == 0),
    {
        self.nanos == 0
    }

    /// How far `self` lies after `earlier`; zero when it does not.
    pub fn since(&self, earlier: TimeSpan) -> (d: TimeSpan)
        ensures
            d@ == span_since(self@, earlier@),
    {
        proof {
            use_type_invariant(self);
        }
        if self.nanos >= earlier.nanos {
            TimeSpan { nanos: self.nanos - earlier.nanos }
        } else {
            TimeSpan { nanos: 0 }
        }
    }

    /// Twice the span, or the largest span where twice would not fit.
    pub fn saturating_double(&self) -> (d: TimeSpan)
        ensures
            d@ == doubled(self@),
    {
        proof {
            use_type_invariant(self);
        }
        if self.nanos <= MAX_SPAN_NANOS / 2 {
            TimeSpan { nanos: self.nanos * 2 }
        } else {
            TimeSpan { nanos: MAX_SPAN_NANOS }
        }
    }

    /// The sum of two spans, where it does not pass the largest span.
    pub fn checked_add(&self, other: TimeSpan) -> (s: Option<TimeSpan>)
        ensures
            s is Some <==> self@ + other@ <= MAX_SPAN_NANOS,
            s matches Some(t) ==> t@ == self@ + other@,
    {
        proof {
            use_type_invariant(self);
            use_type_invariant(&other);
        }
        if other.nanos <= MAX_SPAN_NANOS - self.nanos {
            Some(TimeSpan { nanos: self.nanos + other.nanos })
        } else {
            None
        }
    }

    /// `self < other`.
    pub fn lt(&self, other: &TimeSpan) -> (b: bool)
        ensures
            b == (self@ < other@),
    {
        self.nanos < other.nanos
    }

    /// `self <= other`.
    pub fn le(&self, other: &TimeSpan) -> (b: bool)
        ensures
            b == (self@ <= other@),
    {
        self.nanos <= other.nanos
    }
}

} // verus!
