//! Plain-value forms of the two quantities the configuration carries besides
//! integers: floating-point fractions and time spans.
use vstd::prelude::*;

verus! {

/// Bit pattern of the `f64` value `1.0`.
pub const ONE_BITS: u64 = 0x3ff0_0000_0000_0000;

/// A floating-point fraction, held by the IEEE-754 bit pattern of its `f64` value.
///
/// For an `f64` value `x`, the test `x > 0.0 && x <= 1.0` holds exactly when the bit
/// pattern of `x` is above zero and at most [`ONE_BITS`]: positive values are ordered
/// like their bit patterns, while `0.0` has the pattern zero and negative values,
/// `-0.0`, NaN and infinity all have patterns above that of `1.0`.
#[derive(Clone, Copy, Debug, PartialEq, Eq, Structural)]
pub struct Fraction {
    /// The bit pattern of the value.
    pub bits: u64,
}

/// Whether a fraction with the given bit pattern lies in the interval (0, 1].
pub open spec fn bits_in_unit_interval(bits: u64) -> bool {
    0 < bits && bits <= ONE_BITS
}

impl Fraction {
    /// The fraction whose `f64` value has the given bit pattern.
    pub fn from_bits(bits: u64) -> (f: Fraction)
        ensures
            f.bits == bits,
    {
        Fraction { bits }
    }

    /// The bit pattern of the fraction's `f64` value.
    pub fn to_bits(&self) -> (bits: u64)
        ensures
            bits == self.bits,
    {
        self.bits
    }

    /// The fraction `0.0`.
    pub fn zero() -> (f: Fraction)
        ensures
            f.bits == 0,
    {
        Fraction { bits: 0 }
    }

    /// Whether the value lies in (0, 1].
    pub fn in_unit_interval(&self) -> (b: bool)
        ensures
            b == bits_in_unit_interval(self.bits),
    {
        0 < self.bits && self.bits <= ONE_BITS
    }
}

/// Nanoseconds in one second.
pub const NANOS_PER_SEC: u32 = 1_000_000_000;

/// Nanoseconds in one millisecond.
pub const NANOS_PER_MILLI: u32 = 1_000_000;

/// A span of time, in whole seconds and the nanoseconds beyond them.
///
/// Its model is the total number of nanoseconds it spans.
#[derive(Clone, Copy, Debug)]
pub struct TimeSpan {
    secs: u64,
    nanos: u32,
}

impl View for TimeSpan {
    type V = nat;

    closed spec fn view(&self) -> nat {
        (self.secs * NANOS_PER_SEC + self.nanos) as nat
    }
}

impl TimeSpan {
    #[verifier::type_invariant]
    spec fn nanos_below_one_second(self) -> bool {
        self.nanos < NANOS_PER_SEC
    }

    /// The span of `secs` seconds and `nanos` nanoseconds; the nanoseconds may
    /// exceed one second, and carry into the seconds.
    pub fn new(secs: u64, nanos: u32) -> (t: TimeSpan)
        requires
            secs + nanos / NANOS_PER_SEC <= u64::MAX,
        ensures
            t@ == secs * NANOS_PER_SEC + nanos,
    {
        let extra: u32 = nanos / NANOS_PER_SEC;
        let rest: u32 = nanos % NANOS_PER_SEC;
        let t = TimeSpan { secs: secs + extra as u64, nanos: rest };
        assert(t@ == secs * NANOS_PER_SEC + nanos) by (nonlinear_arith)
            requires
                t.secs == secs + extra,
                t.nanos == rest,
                extra == nanos / 1_000_000_000u32,
                rest == nanos % 1_000_000_000u32,
                t@ == t.secs * 1_000_000_000 + t.nanos,
        ;
        t
    }

    /// The span of `secs` whole seconds.
    pub fn from_secs(secs: u64) -> (t: TimeSpan)
        ensures
            t@ == secs * NANOS_PER_SEC,
    {
        TimeSpan { secs, nanos: 0 }
    }

    /// The span of `millis` milliseconds.
    pub fn from_millis(millis: u64) -> (t: TimeSpan)
        ensures
            t@ == millis * NANOS_PER_MILLI,
    {
        let secs: u64 = millis / 1000;
        let sub: u64 = millis % 1000;
        let nanos: u32 = (sub as u32) * NANOS_PER_MILLI;
        let t = TimeSpan { secs, nanos };
        assert(t@ == millis * NANOS_PER_MILLI) by (nonlinear_arith)
            requires
                secs == millis / 1000,
                sub == millis % 1000,
                nanos == sub * 1_000_000,
                t@ == secs * 1_000_000_000 + nanos,
        ;
        t
    }

    /// The empty span, as a value of the model.
    pub closed spec fn spec_zero() -> TimeSpan {
        TimeSpan { secs: 0, nanos: 0 }
    }

    /// The empty span.
    pub fn zero() -> (t: TimeSpan)
        ensures
            t@ == 0,
    {
        TimeSpan { secs: 0, nanos: 0 }
    }

    /// The whole seconds of the span.
    pub fn as_secs(&self) -> (s: u64)
        ensures
            s == self@ / (NANOS_PER_SEC as nat),
    {
        proof {
            use_type_invariant(self);
            let (s, n) = (self.secs, self.nanos);
            assert((s * 1_000_000_000 + n) / 1_000_000_000 == s) by (nonlinear_arith)
                requires
                    n < 1_000_000_000,
            ;
        }
        self.secs
    }

    /// The nanoseconds of the span beyond its whole seconds.
    pub fn subsec_nanos(&self) -> (n: u32)
        ensures
            n == self@ % (NANOS_PER_SEC as nat),
    {
        proof {
            use_type_invariant(self);
            let (s, n) = (self.secs, self.nanos);
            assert((s * 1_000_000_000 + n) % 1_000_000_000 == n) by (nonlinear_arith)
                requires
                    n < 1_000_000_000,
            ;
        }
        self.nanos
    }

    /// Whether the span is empty.
    pub fn is_zero(&self) -> (b: bool)
        ensures
            b == (self@ == 0),
    {
        self.secs == 0 && self.nanos == 0
    }

    /// The whole milliseconds of the span.
    pub fn as_millis(&self) -> (m: u128)
        ensures
            m == self@ / (NANOS_PER_MILLI as nat),
    {
        proof {
            use_type_invariant(self);
            let (s, n) = (self.secs, self.nanos);
            assert((s * 1_000_000_000 + n) / 1_000_000 == s * 1000 + n / 1_000_000)
                by (nonlinear_arith)
                requires
                    n < 1_000_000_000,
                    s >= 0,
            ;
        }
        (self.secs as u128) * 1000 + ((self.nanos / NANOS_PER_MILLI) as u128)
    }

    /// The span from `other` to this one, or the empty span where `other` is the longer.
    pub fn saturating_sub(&self, other: &TimeSpan) -> (d: TimeSpan)
        ensures
            d@ == if self@ >= other@ {
                (self@ - other@) as nat
            } else {
                0nat
            },
    {
        proof {
            use_type_invariant(self);
            use_type_invariant(other);
        }
        if !self.at_least(other) {
            return TimeSpan::zero();
        }
        let (s1, n1, s2, n2) = (self.secs, self.nanos, other.secs, other.nanos);
        proof {
            assert(s1 >= s2 && (n1 < n2 ==> s1 > s2)) by (nonlinear_arith)
                requires
                    s1 * 1_000_000_000 + n1 >= s2 * 1_000_000_000 + n2,
                    n1 < 1_000_000_000,
                    n2 < 1_000_000_000,
            ;
        }
        let d = if n1 >= n2 {
            TimeSpan { secs: s1 - s2, nanos: n1 - n2 }
        } else {
            TimeSpan { secs: s1 - s2 - 1, nanos: n1 + (NANOS_PER_SEC - n2) }
        };
        assert(d@ == self@ - other@) by (nonlinear_arith)
            requires
                d@ == d.secs * 1_000_000_000 + d.nanos,
                self@ == s1 * 1_000_000_000 + n1,
                other@ == s2 * 1_000_000_000 + n2,
                n1 >= n2 ==> d.secs == s1 - s2 && d.nanos == n1 - n2,
                n1 < n2 ==> d.secs == s1 - s2 - 1 && d.nanos == n1 + 1_000_000_000 - n2,
        ;
        d
    }

    /// Whether this span is at least as long as `other`.
    pub fn at_least(&self, other: &TimeSpan) -> (b: bool)
        ensures
            b == (self@ >= other@),
    {
        proof {
            use_type_invariant(self);
            use_type_invariant(other);
            let (s1, n1, s2, n2) = (self.secs as int, self.nanos as int, other.secs as int, other.nanos as int);
            assert((s1 > s2 ==> s1 * 1_000_000_000 + n1 > s2 * 1_000_000_000 + n2)
                && (s1 < s2 ==> s1 * 1_000_000_000 + n1 < s2 * 1_000_000_000 + n2))
                by (nonlinear_arith)
                requires
                    0 <= n1 < 1_000_000_000,
                    0 <= n2 < 1_000_000_000,
            ;
        }
        self.secs > other.secs || (self.secs == other.secs && self.nanos >= other.nanos)
    }
}

} // verus!
