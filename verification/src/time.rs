//! A span of time with nanosecond resolution, held as whole seconds and a
//! sub-second part.

use vstd::prelude::*;

verus! {

/// Nanoseconds in one second.
pub const NANOS_PER_SEC: u32 = 1_000_000_000;

/// Nanoseconds in one millisecond.
pub const NANOS_PER_MILLI: u32 = 1_000_000;

/// Milliseconds in one second.
pub const MILLIS_PER_SEC: u64 = 1_000;

/// The largest number of nanoseconds a [`TimeSpan`] can hold.
pub open spec fn max_total_nanos() -> nat {
    18_446_744_073_709_551_615_999_999_999
}

/// A non-negative span of time: `secs` whole seconds plus `nanos` nanoseconds,
/// where `nanos` is always below one second.
#[derive(Clone, Copy, Debug, PartialEq, Eq, Structural)]
pub struct TimeSpan {
    secs: u64,
    nanos: u32,
}

impl TimeSpan {
    /// What holds of every span: its sub-second part is less than a second.
    #[verifier::type_invariant]
    pub closed spec fn well_formed(self) -> bool {
        self.nanos < NANOS_PER_SEC
    }

    /// The whole seconds of the span.
    pub closed spec fn whole_secs(self) -> nat {
        self.secs as nat
    }

    /// The part of the span below one second, in nanoseconds.
    pub closed spec fn sub_nanos(self) -> nat {
        self.nanos as nat
    }

    /// The span as a number of nanoseconds: the model every contract speaks of.
    pub open spec fn total_nanos(self) -> nat {
        self.whole_secs() * (NANOS_PER_SEC as nat) + self.sub_nanos()
    }

    /// The length decides the span: two spans of the same number of
    /// nanoseconds are the same value. So a contract that states the length
    /// of a span states the span.
    pub proof fn law_length_decides_the_span(a: TimeSpan, b: TimeSpan)
        requires
            a.well_formed(),
            b.well_formed(),
            a.total_nanos() == b.total_nanos(),
        ensures
            a == b,
    {
        assert(a.secs == b.secs && a.nanos == b.nanos) by (nonlinear_arith)
            requires
                a.nanos < 1_000_000_000,
                b.nanos < 1_000_000_000,
                a.secs * 1_000_000_000 + a.nanos == b.secs * 1_000_000_000 + b.nanos,
        ;
    }

    /// A span from its two parts; `None` when `nanos` is a second or more.
    pub fn new(secs: u64, nanos: u32) -> (r: Option<TimeSpan>)
        ensures
            nanos < NANOS_PER_SEC <==> r is Some,
            r matches Some(t) ==> t.whole_secs() == secs && t.sub_nanos() == nanos,
    {
        if nanos < NANOS_PER_SEC {
            Some(TimeSpan { secs, nanos })
        } else {
            None
        }
    }

    /// The span of `secs` whole seconds.
    pub fn from_secs(secs: u64) -> (r: TimeSpan)
        ensures
            r.whole_secs() == secs,
            r.sub_nanos() == 0,
            r.total_nanos() == secs as nat * NANOS_PER_SEC as nat,
    {
        TimeSpan { secs, nanos: 0 }
    }

    /// The span of `millis` milliseconds.
    pub fn from_millis(millis: u64) -> (r: TimeSpan)
        ensures
            r.whole_secs() == millis as nat / 1000,
            r.sub_nanos() == (millis as nat % 1000) * 1_000_000,
            r.total_nanos() == millis as nat * NANOS_PER_MILLI as nat,
    {
        let secs: u64 = millis / MILLIS_PER_SEC;
        let rest: u64 = millis % MILLIS_PER_SEC;
        let nanos: u32 = (rest as u32) * NANOS_PER_MILLI;
        TimeSpan { secs, nanos }
    }

    /// The span of `nanos` nanoseconds; `None` when the whole seconds do not
    /// fit in 64 bits.
    pub fn from_nanos(nanos: u128) -> (r: Option<TimeSpan>)
        ensures
            nanos <= max_total_nanos() <==> r is Some,
            r matches Some(t) ==> t.total_nanos() == nanos,
    {
        let secs: u128 = nanos / (NANOS_PER_SEC as u128);
        let rest: u128 = nanos % (NANOS_PER_SEC as u128);
        proof {
            vstd::arithmetic::div_mod::lemma_fundamental_div_mod(nanos as int, 1_000_000_000);
        }
        if secs <= u64::MAX as u128 {
            Some(TimeSpan { secs: secs as u64, nanos: rest as u32 })
        } else {
            None
        }
    }

    /// The whole seconds of the span.
    pub fn as_secs(&self) -> (s: u64)
        ensures
            s == self.whole_secs(),
            s == self.total_nanos() / NANOS_PER_SEC as nat,
    {
        proof {
            use_type_invariant(self);
        }
        self.secs
    }

    /// The part of the span below one second, in nanoseconds.
    pub fn subsec_nanos(&self) -> (n: u32)
        ensures
            n == self.sub_nanos(),
            n < NANOS_PER_SEC,
            n == self.total_nanos() % NANOS_PER_SEC as nat,
    {
        proof {
            use_type_invariant(self);
        }
        self.nanos
    }

    /// The span in whole milliseconds, rounded down.
    pub fn as_millis(&self) -> (m: u128)
        ensures
            m == self.total_nanos() / NANOS_PER_MILLI as nat,
    {
        proof {
            use_type_invariant(self);
        }
        let sub: u32 = self.nanos / NANOS_PER_MILLI;
        (self.secs as u128) * (MILLIS_PER_SEC as u128) + (sub as u128)
    }
}

} // verus!
