//! Exact frame rates and presentation times.

use vstd::prelude::*;

use num_rational::Ratio;

use super::error::Error;

verus! {

/// The frame rate of a job, in frames per second, as the pair of integers
/// that the host supplied: `numer / denom`.  The pair is kept as it came.
#[derive(Debug, Clone, Copy, PartialEq, Eq, Structural)]
pub struct FrameRate {
    pub numer: i32,
    pub denom: i32,
}

/// A presentation time in seconds, as the fraction `numer / denom` in lowest
/// terms with a positive denominator.
#[derive(Debug, Clone, Copy, PartialEq, Eq, Structural)]
pub struct Timestamp {
    pub numer: i64,
    pub denom: i64,
}

/// Whether `d` divides `n`.
pub open spec fn divides(d: int, n: int) -> bool {
    n % d == 0
}

/// Whether `numer / denom` is a fraction in lowest terms: the denominator is
/// positive, and no integer above one divides both.
pub open spec fn lowest_terms(numer: int, denom: int) -> bool {
    &&& denom > 0
    &&& forall|d: int| d > 1 && #[trigger] divides(d, numer) ==> !divides(d, denom)
}

/// Whether `numer / denom` is the quotient of the fractions `a.0 / a.1` and
/// `b.0 / b.1`, in lowest terms.
pub open spec fn is_quotient(numer: int, denom: int, a: (int, int), b: (int, int)) -> bool {
    &&& lowest_terms(numer, denom)
    &&& numer * (a.1 * b.0) == (a.0 * b.1) * denom
}

/// Divides two ratios of `num_rational`, made of the given numerators and
/// denominators, and takes the numerator and the denominator of the result.
///
/// Trusted: the division gives the quotient as a ratio in lowest terms with a
/// positive denominator.  It panics when the divisor is zero or a
/// denominator of the result would be; the `requires` leaves that out.  The
/// ratios are made of `i64` from operands in the range of `i32`, so that no
/// product inside the division can overflow.
#[verifier::external_body]
fn ratio_div(a: (i32, i32), b: (i32, i32)) -> (q: (i64, i64))
    requires
        a.1 != 0,
        b.0 != 0,
    ensures
        is_quotient(q.0 as int, q.1 as int, (a.0 as int, a.1 as int), (b.0 as int, b.1 as int)),
{
    let q = Ratio::new_raw(i64::from(a.0), i64::from(a.1))
        / Ratio::new_raw(i64::from(b.0), i64::from(b.1));
    (*q.numer(), *q.denom())
}

impl Timestamp {
    /// Whether this is the time at which `frames` frames have been shown at
    /// the rate `rate`: the fraction `frames / rate`, in lowest terms.
    pub open spec fn is_time_of(self, frames: int, rate: FrameRate) -> bool {
        &&& lowest_terms(self.numer as int, self.denom as int)
        &&& self.numer * rate.numer == frames * rate.denom * self.denom
    }
}

/// The time at which `frames` frames have been shown at the rate `rate`.
pub fn frame_time(frames: i32, rate: &FrameRate) -> (r: Result<Timestamp, Error>)
    ensures
        rate.numer != 0 ==> r is Ok,
        rate.numer == 0 ==> r == Err::<Timestamp, Error>(Error::ZeroFrameRate),
        r matches Ok(time) ==> time.is_time_of(frames as int, *rate),
{
    if rate.numer == 0 {
        return Err(Error::ZeroFrameRate);
    }
    let q = ratio_div((frames, 1), (rate.numer, rate.denom));
    Ok(Timestamp { numer: q.0, denom: q.1 })
}

/// At a positive frame rate a later frame has a later time.
pub proof fn lemma_frame_times_increase(
    earlier: Timestamp,
    later: Timestamp,
    i: int,
    j: int,
    rate: FrameRate,
)
    requires
        rate.numer > 0,
        rate.denom > 0,
        i < j,
        earlier.is_time_of(i, rate),
        later.is_time_of(j, rate),
    ensures
        earlier.numer * later.denom < later.numer * earlier.denom,
{
    let a = earlier.numer as int;
    let b = earlier.denom as int;
    let c = later.numer as int;
    let d = later.denom as int;
    let r = rate.numer as int;
    let s = rate.denom as int;
    assert(a * d < c * b) by (nonlinear_arith)
        requires
            a * r == i * s * b,
            c * r == j * s * d,
            i < j,
            r > 0,
            s > 0,
            b > 0,
            d > 0,
    {
        assert((a * d) * r == (i * s) * (b * d));
        assert((c * b) * r == (j * s) * (b * d));
        assert(b * d > 0);
        assert((i * s) * (b * d) < (j * s) * (b * d));
    }
}

/// Two fractions of one value are multiples of one fraction: the result is
/// `(g, h, n, d)` with `a / b` being `g * n / g * d` and `c / d` being
/// `h * n / h * d`.
proof fn lemma_common_fraction(a: int, b: int, c: int, d: int) -> (r: (int, int, int, int))
    requires
        b > 0,
        d > 0,
        a * d == c * b,
    ensures
        r.0 >= 1,
        r.1 >= 1,
        a == r.0 * r.2,
        b == r.0 * r.3,
        c == r.1 * r.2,
        d == r.1 * r.3,
    decreases b + d,
{
    if b == d {
        assert(a == c) by (nonlinear_arith)
            requires
                a * d == c * b,
                b == d,
                b > 0,
        ;
        (1, 1, a, b)
    } else if b < d {
        assert(a * (d - b) == (c - a) * b) by (nonlinear_arith)
            requires
                a * d == c * b,
        ;
        let (g, h, n, m) = lemma_common_fraction(a, b, c - a, d - b);
        assert(c == (g + h) * n && d == (g + h) * m) by (nonlinear_arith)
            requires
                a == g * n,
                b == g * m,
                c - a == h * n,
                d - b == h * m,
        ;
        (g, g + h, n, m)
    } else {
        assert((a - c) * d == c * (b - d)) by (nonlinear_arith)
            requires
                a * d == c * b,
        ;
        let (g, h, n, m) = lemma_common_fraction(a - c, b - d, c, d);
        assert(a == (g + h) * n && b == (g + h) * m) by (nonlinear_arith)
            requires
                a - c == g * n,
                b - d == g * m,
                c == h * n,
                d == h * m,
        ;
        (g + h, h, n, m)
    }
}

/// A fraction in lowest terms that is a multiple of another is that other.
proof fn lemma_lowest_terms_factor(numer: int, denom: int, g: int, n: int, d: int)
    requires
        lowest_terms(numer, denom),
        g >= 1,
        numer == g * n,
        denom == g * d,
    ensures
        g == 1,
{
    if g > 1 {
        assert(divides(g, numer)) by (nonlinear_arith)
            requires
                numer == g * n,
                g > 1,
        ;
        assert(divides(g, denom)) by (nonlinear_arith)
            requires
                denom == g * d,
                g > 1,
        ;
    }
}

/// A value has one fraction in lowest terms: two such fractions of one value
/// have the same numerator and the same denominator.
pub proof fn lemma_lowest_terms_unique(a: int, b: int, c: int, d: int)
    requires
        lowest_terms(a, b),
        lowest_terms(c, d),
        a * d == c * b,
    ensures
        a == c,
        b == d,
{
    let (g, h, n, m) = lemma_common_fraction(a, b, c, d);
    lemma_lowest_terms_factor(a, b, g, n, m);
    lemma_lowest_terms_factor(c, d, h, n, m);
    assert(a == n && c == n && b == m && d == m) by (nonlinear_arith)
        requires
            g == 1,
            h == 1,
            a == g * n,
            b == g * m,
            c == h * n,
            d == h * m,
    ;
}

/// A frame has one time: at a rate that is not zero, two times of one frame
/// are the same.
pub proof fn lemma_frame_time_unique(one: Timestamp, other: Timestamp, frames: int, rate: FrameRate)
    requires
        rate.numer != 0,
        one.is_time_of(frames, rate),
        other.is_time_of(frames, rate),
    ensures
        one == other,
{
    let a = one.numer as int;
    let b = one.denom as int;
    let c = other.numer as int;
    let d = other.denom as int;
    let r = rate.numer as int;
    let s = rate.denom as int;
    assert(a * d == c * b) by (nonlinear_arith)
        requires
            a * r == frames * s * b,
            c * r == frames * s * d,
            r != 0,
    {
        assert((a * d) * r == (frames * s) * (b * d));
        assert((c * b) * r == (frames * s) * (b * d));
    }
    lemma_lowest_terms_unique(a, b, c, d);
}

} // verus!
