//! Timestamps and durations measured in nanoseconds.

use vstd::arithmetic::div_mod::{lemma_fundamental_div_mod, lemma_fundamental_div_mod_converse_div};
use vstd::prelude::*;

verus! {

/// Nanoseconds in one second.
pub const NANOSECONDS_PER_SECOND: i64 = 1_000_000_000;

/// Integer division rounded toward zero, as Rust's `/` computes it.
pub open spec fn trunc_div(a: int, b: int) -> int {
    let q: int = vstd::math::abs(a) as int / vstd::math::abs(b) as int;
    if (a < 0) == (b < 0) {
        q
    } else {
        -q
    }
}

/// The remainder that goes with [`trunc_div`], as Rust's `%` computes it.
pub open spec fn trunc_rem(a: int, b: int) -> int {
    a - b * trunc_div(a, b)
}

/// What [`mul_div_i64`] computes: the quotient scaled, plus the scaled
/// remainder divided.
pub open spec fn spec_mul_div(value: int, numerator: int, denominator: int) -> int {
    trunc_div(value, denominator) * numerator + trunc_div(
        trunc_rem(value, denominator) * numerator,
        denominator,
    )
}

proof fn lemma_mul_div_nonneg(v: int, n: int, d: int)
    requires
        v >= 0,
        n >= 0,
        d > 0,
    ensures
        spec_mul_div(v, n, d) == (v * n) / d,
        0 <= trunc_rem(v, d) < d,
        trunc_div(v, d) * d <= v,
{
    lemma_fundamental_div_mod(v, d);
    let q = v / d;
    let r = v % d;
    assert(trunc_div(v, d) == q);
    assert(trunc_rem(v, d) == r) by (nonlinear_arith)
        requires
            v == d * q + r,
            trunc_rem(v, d) == v - d * trunc_div(v, d),
            trunc_div(v, d) == q,
    ;
    assert(r * n >= 0) by (nonlinear_arith)
        requires
            r >= 0,
            n >= 0,
    ;
    lemma_fundamental_div_mod(r * n, d);
    let s = (r * n) / d;
    let t = (r * n) % d;
    assert(trunc_div(r * n, d) == s);
    assert(v * n == (q * n + s) * d + t) by (nonlinear_arith)
        requires
            v == d * q + r,
            r * n == d * s + t,
    ;
    lemma_fundamental_div_mod_converse_div(v * n, d, q * n + s, t);
    assert(q * d <= v) by (nonlinear_arith)
        requires
            v == d * q + r,
            r >= 0,
    ;
}

/// For a non-negative numerator and a positive denominator, the scaled
/// quotient is exactly `value * numerator / denominator`, rounded toward
/// zero.
pub proof fn law_mul_div_exact(v: int, n: int, d: int)
    requires
        n >= 0,
        d > 0,
    ensures
        spec_mul_div(v, n, d) == trunc_div(v * n, d),
{
    if v >= 0 {
        lemma_mul_div_nonneg(v, n, d);
        assert(v * n >= 0) by (nonlinear_arith)
            requires
                v >= 0,
                n >= 0,
        ;
    } else {
        let w = -v;
        lemma_mul_div_nonneg(w, n, d);
        assert(trunc_div(v, d) == -trunc_div(w, d));
        assert(trunc_rem(v, d) == -trunc_rem(w, d)) by (nonlinear_arith)
            requires
                trunc_div(v, d) == -trunc_div(w, d),
                v == -w,
                trunc_rem(v, d) == v - d * trunc_div(v, d),
                trunc_rem(w, d) == w - d * trunc_div(w, d),
        ;
        let r = trunc_rem(w, d);
        assert((-r) * n == -(r * n)) by (nonlinear_arith);
        assert(r * n >= 0) by (nonlinear_arith)
            requires
                r >= 0,
                n >= 0,
        ;
        assert(trunc_div((-r) * n, d) == -trunc_div(r * n, d));
        assert(v * n == -(w * n)) by (nonlinear_arith)
            requires
                w == -v,
        ;
        assert(w * n >= 0) by (nonlinear_arith)
            requires
                w > 0,
                n >= 0,
        ;
        assert(trunc_div(v * n, d) == -trunc_div(w * n, d));
        assert(trunc_div(v, d) * n == -(trunc_div(w, d) * n)) by (nonlinear_arith)
            requires
                trunc_div(v, d) == -trunc_div(w, d),
        ;
    }
}

/// When `numerator * denominator` and the result fit in an `i64`, so does
/// every intermediate value of [`mul_div_i64`].
pub proof fn law_mul_div_no_overflow(v: int, n: int, d: int)
    requires
        n >= 0,
        d > 0,
        n * d <= i64::MAX,
        i64::MIN <= trunc_div(v * n, d) <= i64::MAX,
        i64::MIN <= v <= i64::MAX,
    ensures
        i64::MIN <= trunc_div(v, d) * n <= i64::MAX,
        i64::MIN <= trunc_rem(v, d) * n <= i64::MAX,
        i64::MIN <= spec_mul_div(v, n, d) <= i64::MAX,
{
    law_mul_div_exact(v, n, d);
    let w: int = if v >= 0 {
        v
    } else {
        -v
    };
    lemma_mul_div_nonneg(w, n, d);
    let q = trunc_div(w, d);
    let r = trunc_rem(w, d);
    assert(q >= 0);
    assert(0 <= r * n <= n * d) by (nonlinear_arith)
        requires
            0 <= r < d,
            n >= 0,
    ;
    assert(0 <= q * n <= spec_mul_div(w, n, d)) by (nonlinear_arith)
        requires
            q >= 0,
            n >= 0,
            r * n >= 0,
            spec_mul_div(w, n, d) == q * n + trunc_div(r * n, d),
            trunc_div(r * n, d) >= 0,
    ;
    if v < 0 {
        assert(trunc_div(v, d) == -q);
        assert(trunc_rem(v, d) == -r) by (nonlinear_arith)
            requires
                trunc_div(v, d) == -q,
                v == -w,
                trunc_rem(v, d) == v - d * trunc_div(v, d),
                r == w - d * q,
        ;
        assert(trunc_div(v, d) * n == -(q * n)) by (nonlinear_arith)
            requires
                trunc_div(v, d) == -q,
        ;
        assert(trunc_rem(v, d) * n == -(r * n)) by (nonlinear_arith)
            requires
                trunc_rem(v, d) == -r,
        ;
        law_mul_div_exact(w, n, d);
        assert(v * n == -(w * n)) by (nonlinear_arith)
            requires
                w == -v,
        ;
        assert(w * n >= 0) by (nonlinear_arith)
            requires
                w > 0,
                n >= 0,
        ;
        assert(trunc_div(v * n, d) == -trunc_div(w * n, d));
    }
}

/// Computes `value * numerator / denominator`, rounded toward zero, without
/// forming the product `value * numerator`.
pub fn mul_div_i64(value: i64, numerator: i64, denominator: i64) -> (r: i64)
    requires
        denominator > 0,
        i64::MIN <= trunc_div(value as int, denominator as int) * numerator <= i64::MAX,
        i64::MIN <= trunc_rem(value as int, denominator as int) * numerator <= i64::MAX,
        i64::MIN <= spec_mul_div(value as int, numerator as int, denominator as int) <= i64::MAX,
    ensures
        r == spec_mul_div(value as int, numerator as int, denominator as int),
        numerator >= 0 ==> r == trunc_div(value * numerator, denominator as int),
{
    let q = value / denominator;
    let r = value % denominator;
    proof {
        if numerator >= 0 {
            law_mul_div_exact(value as int, numerator as int, denominator as int);
        }
        assert(q == trunc_div(value as int, denominator as int));
        if value >= 0 {
            assert(r == (value as int) % (denominator as int));
            assert(q == (value as int) / (denominator as int));
            lemma_fundamental_div_mod(value as int, denominator as int);
        } else {
            assert(r == -((-value as int) % (denominator as int)));
            assert(q == -((-value as int) / (denominator as int)));
            lemma_fundamental_div_mod(-value as int, denominator as int);
        }
        assert(r == value - denominator * q) by (nonlinear_arith)
            requires
                value >= 0 ==> r == (value as int) % (denominator as int) && q == (value as int)
                    / (denominator as int),
                value < 0 ==> r == -((-value as int) % (denominator as int)) && q == -((
                -value as int) / (denominator as int)),
                value >= 0 ==> value == denominator * ((value as int) / (denominator as int)) + (
                value as int) % (denominator as int),
                value < 0 ==> -value == denominator * ((-value as int) / (denominator as int)) + (
                -value as int) % (denominator as int),
        ;
        assert(r == trunc_rem(value as int, denominator as int));
    }
    let rn = r * numerator;
    let t = rn / denominator;
    proof {
        assert(t == trunc_div(rn as int, denominator as int));
    }
    q * numerator + t
}


/// Whether `ticks` of a counter running at `frequency` ticks per second can
/// be converted to nanoseconds without overflow.
pub open spec fn qpc_convertible(ticks: i64, frequency: i64) -> bool {
    &&& frequency > 0
    &&& frequency * NANOSECONDS_PER_SECOND <= i64::MAX
    &&& i64::MIN <= trunc_div(ticks * NANOSECONDS_PER_SECOND, frequency as int) <= i64::MAX
}

/// Converts a reading of a performance counter running at `frequency` ticks
/// per second into nanoseconds, rounding toward zero.
pub fn qpc_to_nanoseconds(ticks: i64, frequency: i64) -> (r: i64)
    requires
        qpc_convertible(ticks, frequency),
    ensures
        r == trunc_div(ticks * NANOSECONDS_PER_SECOND, frequency as int),
{
    proof {
        law_mul_div_no_overflow(ticks as int, NANOSECONDS_PER_SECOND as int, frequency as int);
    }
    mul_div_i64(ticks, NANOSECONDS_PER_SECOND, frequency)
}

/// A point in time or a duration, in nanoseconds.
#[derive(Clone, Copy, Debug, Default, PartialEq, Eq, PartialOrd, Ord, Structural)]
pub struct Nanoseconds(pub i64);

impl Nanoseconds {
    /// The time of a performance counter reading.
    pub fn from_qpc_time(ticks: i64, frequency: i64) -> (r: Self)
        requires
            qpc_convertible(ticks, frequency),
        ensures
            r.0 == trunc_div(ticks * NANOSECONDS_PER_SECOND, frequency as int),
    {
        Nanoseconds(qpc_to_nanoseconds(ticks, frequency))
    }

    /// The sum of two times.
    pub fn add(self, rhs: Self) -> (r: Self)
        requires
            i64::MIN <= self.0 + rhs.0 <= i64::MAX,
        ensures
            r.0 == self.0 + rhs.0,
    {
        Nanoseconds(self.0 + rhs.0)
    }

    /// Adds `rhs` to this time.
    pub fn add_assign(&mut self, rhs: Self)
        requires
            i64::MIN <= old(self).0 + rhs.0 <= i64::MAX,
        ensures
            final(self).0 == old(self).0 + rhs.0,
    {
        self.0 = self.0 + rhs.0;
    }

    /// The difference of two times.
    pub fn sub(self, rhs: Self) -> (r: Self)
        requires
            i64::MIN <= self.0 - rhs.0 <= i64::MAX,
        ensures
            r.0 == self.0 - rhs.0,
    {
        Nanoseconds(self.0 - rhs.0)
    }

    /// Subtracts `rhs` from this time.
    pub fn sub_assign(&mut self, rhs: Self)
        requires
            i64::MIN <= old(self).0 - rhs.0 <= i64::MAX,
        ensures
            final(self).0 == old(self).0 - rhs.0,
    {
        self.0 = self.0 - rhs.0;
    }
}

/// The time at which a frame is presented.
#[derive(Clone, Copy, Debug, Default, PartialEq, Eq, PartialOrd, Ord, Structural)]
pub struct PresentTime(pub Nanoseconds);

/// The time between two presented frames.
#[derive(Clone, Copy, Debug, Default, PartialEq, Eq, PartialOrd, Ord, Structural)]
pub struct PresentPeriod(pub Nanoseconds);

impl PresentTime {
    /// The presentation time of a performance counter reading.
    pub fn from_qpc_time(ticks: i64, frequency: i64) -> (r: Self)
        requires
            qpc_convertible(ticks, frequency),
        ensures
            r.0.0 == trunc_div(ticks * NANOSECONDS_PER_SECOND, frequency as int),
    {
        PresentTime(Nanoseconds::from_qpc_time(ticks, frequency))
    }

    /// The time one period after this one.
    pub fn add(self, rhs: PresentPeriod) -> (r: Self)
        requires
            i64::MIN <= self.0.0 + rhs.0.0 <= i64::MAX,
        ensures
            r.0.0 == self.0.0 + rhs.0.0,
    {
        PresentTime(self.0.add(rhs.0))
    }

    /// Moves this time one period later.
    pub fn add_assign(&mut self, rhs: PresentPeriod)
        requires
            i64::MIN <= old(self).0.0 + rhs.0.0 <= i64::MAX,
        ensures
            final(self).0.0 == old(self).0.0 + rhs.0.0,
    {
        self.0.add_assign(rhs.0);
    }

    /// The period between two times.
    pub fn sub(self, rhs: PresentTime) -> (r: PresentPeriod)
        requires
            i64::MIN <= self.0.0 - rhs.0.0 <= i64::MAX,
        ensures
            r.0.0 == self.0.0 - rhs.0.0,
    {
        PresentPeriod(self.0.sub(rhs.0))
    }
}

/// The first time that is not before `now` and lies a whole number of
/// frame times after `prev`; `prev` itself when it is not before `now`.
pub open spec fn spec_next_present(prev: int, now: int, frame_time: int) -> int {
    if prev >= now {
        prev
    } else {
        prev + frame_time * ((now - prev + frame_time - 1) / frame_time)
    }
}

/// The presentation time of the next frame: the previous presentation time,
/// moved on by whole frame times until it is no longer before `now`.
pub fn next_present_time(prev: PresentTime, now: PresentTime, frame_time: PresentPeriod) -> (r:
    PresentTime)
    requires
        frame_time.0.0 > 0 || prev.0.0 >= now.0.0,
        now.0.0 + frame_time.0.0 <= i64::MAX,
    ensures
        r.0.0 == spec_next_present(prev.0.0 as int, now.0.0 as int, frame_time.0.0 as int),
{
    let mut time = prev;
    let ghost p: int = prev.0.0 as int;
    let ghost n: int = now.0.0 as int;
    let ghost f: int = frame_time.0.0 as int;
    let ghost mut k: int = 0;
    proof {
        assert(f * 0 == 0) by (nonlinear_arith);
    }
    while time.0.0 < now.0.0
        invariant
            p == prev.0.0,
            n == now.0.0,
            f == frame_time.0.0,
            f > 0 || p >= n,
            n + f <= i64::MAX,
            k >= 0,
            k > 0 ==> f > 0,
            time.0.0 == p + f * k,
            k > 0 ==> time.0.0 - f < n,
        decreases n + f - time.0.0,
    {
        proof {
            if k == 0 {
                assert(f * k == 0) by (nonlinear_arith)
                    requires
                        k == 0,
                ;
            }
            assert(f > 0);
            assert(f * k >= 0) by (nonlinear_arith)
                requires
                    f > 0,
                    k >= 0,
            ;
            assert(f * k + f == f * (k + 1)) by (nonlinear_arith);
        }
        time.add_assign(frame_time);
        proof {
            k = k + 1;
        }
    }
    proof {
        if k > 0 {
            let d = n - p;
            let x = d + f - 1;
            assert(p < n) by {
                if p >= n {
                    assert(f * (k - 1) >= 0) by (nonlinear_arith)
                        requires
                            f > 0,
                            k >= 1,
                    ;
                    assert(f * k == f * (k - 1) + f) by (nonlinear_arith);
                }
            }
            assert(f * k - f < d) by (nonlinear_arith)
                requires
                    time.0.0 == p + f * k,
                    time.0.0 - f < n,
                    d == n - p,
            ;
            assert(d <= f * k) by (nonlinear_arith)
                requires
                    time.0.0 == p + f * k,
                    time.0.0 >= n,
                    d == n - p,
            ;
            let r = x - k * f;
            assert(0 <= r < f) by (nonlinear_arith)
                requires
                    r == x - k * f,
                    x == d + f - 1,
                    f * k - f < d,
                    d <= f * k,
            ;
            lemma_fundamental_div_mod_converse_div(x, f, k, r);
        }
    }
    time
}

} // verus!
