//! Lengths of time, held as whole seconds and a sub-second part.
use vstd::prelude::*;

verus! {

pub const NANOS_PER_SEC: u32 = 1_000_000_000;

#[verifier::external_type_specification]
#[verifier::external_body]
pub struct ExInstant(std::time::Instant);

/// Relies on `Instant::now`: the current reading of the monotonic clock.
#[verifier::external_body]
pub(crate) fn instant_now() -> (r: std::time::Instant) {
    std::time::Instant::now()
}

/// Relies on `Instant::elapsed`, read as `Duration::as_secs` and
/// `Duration::subsec_nanos`; the second part is below one second.
#[verifier::external_body]
pub(crate) fn elapsed_parts(start: &std::time::Instant) -> (r: (u64, u32))
    ensures
        r.1 < NANOS_PER_SEC,
{
    let d = start.elapsed();
    (d.as_secs(), d.subsec_nanos())
}

/// The longest representable span, in nanoseconds.
pub open spec fn max_span_nanos() -> nat {
    u64::MAX as nat * NANOS_PER_SEC as nat + (NANOS_PER_SEC - 1) as nat
}

/// A non-negative length of time with nanosecond resolution.
#[derive(Clone, Copy, Debug, PartialEq, Eq, Hash)]
pub struct TimeSpan {
    secs: u64,
    nanos: u32,
}

impl View for TimeSpan {
    type V = nat;

    /// The length in nanoseconds.
    closed spec fn view(&self) -> nat {
        self.secs as nat * NANOS_PER_SEC as nat + self.nanos as nat
    }
}

impl TimeSpan {
    #[verifier::type_invariant]
    spec fn inv(self) -> bool {
        self.nanos < NANOS_PER_SEC
    }

    pub closed spec fn spec_secs(self) -> u64 {
        self.secs
    }

    pub closed spec fn spec_nanos(self) -> u32 {
        self.nanos
    }

    /// The whole seconds and the sub-second part determine the span.
    proof fn lemma_parts(self)
        requires
            self.nanos < NANOS_PER_SEC,
        ensures
            self.spec_nanos() < NANOS_PER_SEC,
            self@ == self.spec_secs() as nat * NANOS_PER_SEC as nat + self.spec_nanos() as nat,
            self.spec_secs() as nat == self@ / NANOS_PER_SEC as nat,
            self.spec_nanos() as nat == self@ % NANOS_PER_SEC as nat,
            self@ <= max_span_nanos(),
    {
        let s = self.secs as nat;
        let n = self.nanos as nat;
        assert((s * 1_000_000_000 + n) / 1_000_000_000 == s) by (nonlinear_arith)
            requires n < 1_000_000_000;
        assert((s * 1_000_000_000 + n) % 1_000_000_000 == n) by (nonlinear_arith)
            requires n < 1_000_000_000;
        assert(s * 1_000_000_000 <= u64::MAX as nat * 1_000_000_000) by (nonlinear_arith)
            requires s <= u64::MAX;
    }

    /// `secs` seconds plus `nanos` nanoseconds, carrying whole seconds out of `nanos`.
    pub fn new(secs: u64, nanos: u32) -> (r: TimeSpan)
        requires
            secs as nat + nanos as nat / NANOS_PER_SEC as nat <= u64::MAX,
        ensures
            r@ == secs as nat * NANOS_PER_SEC as nat + nanos as nat,
    {
        let extra = (nanos / NANOS_PER_SEC) as u64;
        let rest = nanos % NANOS_PER_SEC;
        let r = TimeSpan { secs: secs + extra, nanos: rest };
        assert(r@ == secs as nat * NANOS_PER_SEC as nat + nanos as nat) by (nonlinear_arith)
            requires
                extra == nanos as nat / 1_000_000_000,
                rest == nanos as nat % 1_000_000_000,
                r@ == (secs + extra) * 1_000_000_000 + rest,
        ;
        r
    }

    /// The time passed since `start`.
    pub fn since(start: &std::time::Instant) -> (r: TimeSpan) {
        let (secs, nanos) = elapsed_parts(start);
        TimeSpan { secs, nanos }
    }

    pub fn zero() -> (r: TimeSpan)
        ensures
            r@ == 0,
    {
        TimeSpan { secs: 0, nanos: 0 }
    }

    pub fn from_secs(secs: u64) -> (r: TimeSpan)
        ensures
            r@ == secs as nat * NANOS_PER_SEC as nat,
    {
        TimeSpan { secs, nanos: 0 }
    }

    pub fn from_millis(millis: u64) -> (r: TimeSpan)
        ensures
            r@ == millis as nat * 1_000_000,
    {
        let secs = millis / 1000;
        let rest = (millis % 1000) as u32;
        let r = TimeSpan { secs, nanos: rest * 1_000_000 };
        assert(r@ == millis as nat * 1_000_000) by (nonlinear_arith)
            requires
                secs == millis as nat / 1000,
                rest == millis as nat % 1000,
                r@ == secs * 1_000_000_000 + rest * 1_000_000,
        ;
        r
    }

    /// The span of `nanos` nanoseconds.
    pub fn from_nanos(nanos: u128) -> (r: TimeSpan)
        requires
            nanos <= max_span_nanos(),
        ensures
            r@ == nanos,
    {
        let secs_wide = nanos / (NANOS_PER_SEC as u128);
        let rest = (nanos % (NANOS_PER_SEC as u128)) as u32;
        assert(secs_wide <= u64::MAX) by (nonlinear_arith)
            requires
                nanos <= u64::MAX as nat * 1_000_000_000 + 999_999_999,
                secs_wide == nanos as nat / 1_000_000_000,
        ;
        let r = TimeSpan { secs: secs_wide as u64, nanos: rest };
        assert(r@ == nanos) by (nonlinear_arith)
            requires
                secs_wide == nanos as nat / 1_000_000_000,
                rest == nanos as nat % 1_000_000_000,
                r@ == secs_wide * 1_000_000_000 + rest,
        ;
        r
    }

    /// The whole seconds of the span.
    pub fn as_secs(&self) -> (r: u64)
        ensures
            r == self@ / NANOS_PER_SEC as nat,
    {
        proof {
            use_type_invariant(self);
            self.lemma_parts();
        }
        self.secs
    }

    /// The part of the span below one second, in nanoseconds.
    pub fn subsec_nanos(&self) -> (r: u32)
        ensures
            r == self@ % NANOS_PER_SEC as nat,
    {
        proof {
            use_type_invariant(self);
            self.lemma_parts();
        }
        self.nanos
    }

    /// The part of the span below one second, in whole milliseconds.
    pub fn subsec_millis(&self) -> (r: u32)
        ensures
            r == (self@ % NANOS_PER_SEC as nat) / 1_000_000,
            r < 1000,
    {
        proof {
            use_type_invariant(self);
            self.lemma_parts();
        }
        self.nanos / 1_000_000
    }

    /// The span in nanoseconds.
    pub fn as_nanos(&self) -> (r: u128)
        ensures
            r == self@,
    {
        proof {
            use_type_invariant(self);
            self.lemma_parts();
        }
        self.secs as u128 * (NANOS_PER_SEC as u128) + self.nanos as u128
    }
}

} // verus!
