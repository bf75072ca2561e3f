use vstd::prelude::*;
use crate::ratio::Ratio;

verus! {

/// Severity band of a flakiness score, for presentation.
#[derive(Clone, Copy, PartialEq, Eq, Structural, Debug)]
pub enum Severity {
    /// Score below 10.
    Healthy,
    /// Score in [10, 30).
    Mild,
    /// Score in [30, 60).
    Moderate,
    /// Score of 60 or more.
    Severe,
}

/// Denominator of the flakiness score of an endpoint window with `total`
/// probes over `nq` queries. The score is a weighted blend of the failure
/// rate `failures / max(total, 1)` and the latency severity
/// `min(sum_p99 / nq, 1_000_000) / 1_000_000`, so its exact common
/// denominator is `max(total, 1) * nq * 1_000_000`.
pub open spec fn spec_score_den(total: int, nq: int) -> int {
    vstd::math::max(total, 1) * nq * 1_000_000
}

/// Numerator of the flakiness score: `(0.7 * failure_rate
/// + 0.3 * latency_severity) * 100`, clamped to 100, brought over the
/// common denominator `spec_score_den(total, nq)`.
pub open spec fn spec_score_num(failures: int, total: int, sum_p99: int, nq: int) -> int {
    let t = vstd::math::max(total, 1);
    let m = vstd::math::min(sum_p99, nq * 1_000_000);
    vstd::math::min(70 * failures * nq * 1_000_000 + 30 * m * t, 100 * spec_score_den(total, nq))
}

/// The clamp in the score never bites: the raw weighted blend is already at
/// most 100, because both the failure rate and the latency severity are at
/// most 1.
pub proof fn lemma_score_not_clamped(failures: int, total: int, sum_p99: int, nq: int)
    requires
        0 <= failures <= total,
        0 <= sum_p99,
        nq >= 1,
    ensures
        spec_score_num(failures, total, sum_p99, nq) == 70 * failures * nq * 1_000_000 + 30
            * vstd::math::min(sum_p99, nq * 1_000_000) * vstd::math::max(total, 1),
{
    let t = vstd::math::max(total, 1);
    let m = vstd::math::min(sum_p99, nq * 1_000_000);
    assert(70 * failures * nq * 1_000_000 <= 70 * t * nq * 1_000_000) by (nonlinear_arith)
        requires
            0 <= failures <= t,
            nq >= 1,
    ;
    assert(30 * m * t <= 30 * (nq * 1_000_000) * t) by (nonlinear_arith)
        requires
            m <= nq * 1_000_000,
            t >= 1,
    ;
    assert(spec_score_den(total, nq) == t * nq * 1_000_000);
    assert(100 * (t * nq * 1_000_000) == 70 * t * nq * 1_000_000 + 30 * (nq * 1_000_000) * t)
        by (nonlinear_arith);
}

/// The flakiness score always lies in [0, 100].
pub proof fn lemma_score_bounds(failures: int, total: int, sum_p99: int, nq: int)
    requires
        0 <= failures <= total,
        0 <= sum_p99,
        nq >= 1,
    ensures
        spec_score_den(total, nq) > 0,
        0 <= spec_score_num(failures, total, sum_p99, nq) <= 100 * spec_score_den(total, nq),
{
    let t = vstd::math::max(total, 1);
    let m = vstd::math::min(sum_p99, nq * 1_000_000);
    assert(t * nq * 1_000_000 > 0) by (nonlinear_arith)
        requires
            t >= 1,
            nq >= 1,
    ;
    assert(70 * failures * nq * 1_000_000 >= 0) by (nonlinear_arith)
        requires
            failures >= 0,
            nq >= 1,
    ;
    assert(30 * m * t >= 0) by (nonlinear_arith)
        requires
            m >= 0,
            t >= 1,
    ;
}

/// Holding the latency terms fixed, more failures out of the same probe
/// total never lower the flakiness score. The two scores share the same
/// denominator `spec_score_den(total, nq)`, so comparing numerators compares
/// the scores.
pub proof fn lemma_score_monotone_in_failures(
    f1: int,
    f2: int,
    total: int,
    sum_p99: int,
    nq: int,
)
    requires
        0 <= f1 <= f2 <= total,
        0 <= sum_p99,
        nq >= 1,
    ensures
        spec_score_num(f1, total, sum_p99, nq) <= spec_score_num(f2, total, sum_p99, nq),
{
    assert(70 * f1 * nq * 1_000_000 <= 70 * f2 * nq * 1_000_000) by (nonlinear_arith)
        requires
            0 <= f1 <= f2,
            nq >= 1,
    ;
}

/// Holding the failure count and total fixed, a larger summed p99 latency
/// never lowers the flakiness score (same denominator on both sides).
pub proof fn lemma_score_monotone_in_latency(failures: int, total: int, s1: int, s2: int, nq: int)
    requires
        0 <= failures <= total,
        0 <= s1 <= s2,
        nq >= 1,
    ensures
        spec_score_num(failures, total, s1, nq) <= spec_score_num(failures, total, s2, nq),
{
    let t = vstd::math::max(total, 1);
    let m1 = vstd::math::min(s1, nq * 1_000_000);
    let m2 = vstd::math::min(s2, nq * 1_000_000);
    assert(30 * m1 * t <= 30 * m2 * t) by (nonlinear_arith)
        requires
            m1 <= m2,
            t >= 1,
    ;
}

/// Holding the latency terms fixed, a higher failure rate never lowers the
/// flakiness score, even across windows with different probe totals. The
/// rate premise and the score conclusion are both rational comparisons by
/// cross-multiplication: `f1 / t1 <= f2 / t2` implies
/// `score(f1, t1) <= score(f2, t2)`.
pub proof fn lemma_score_monotone_in_failure_rate(
    f1: int,
    t1: int,
    f2: int,
    t2: int,
    sum_p99: int,
    nq: int,
)
    requires
        0 <= f1 <= t1,
        0 <= f2 <= t2,
        t1 >= 1,
        t2 >= 1,
        nq >= 1,
        0 <= sum_p99,
        f1 * t2 <= f2 * t1,
    ensures
        spec_score_num(f1, t1, sum_p99, nq) * spec_score_den(t2, nq) <= spec_score_num(
            f2,
            t2,
            sum_p99,
            nq,
        ) * spec_score_den(t1, nq),
{
    let k = nq * 1_000_000;
    let m = vstd::math::min(sum_p99, k);
    lemma_score_not_clamped(f1, t1, sum_p99, nq);
    lemma_score_not_clamped(f2, t2, sum_p99, nq);
    assert(spec_score_num(f1, t1, sum_p99, nq) == 70 * f1 * k + 30 * m * t1) by (nonlinear_arith)
        requires
            spec_score_num(f1, t1, sum_p99, nq) == 70 * f1 * nq * 1_000_000 + 30 * m * t1,
            k == nq * 1_000_000,
    ;
    assert(spec_score_num(f2, t2, sum_p99, nq) == 70 * f2 * k + 30 * m * t2) by (nonlinear_arith)
        requires
            spec_score_num(f2, t2, sum_p99, nq) == 70 * f2 * nq * 1_000_000 + 30 * m * t2,
            k == nq * 1_000_000,
    ;
    assert(spec_score_den(t1, nq) == t1 * k) by (nonlinear_arith)
        requires
            spec_score_den(t1, nq) == t1 * nq * 1_000_000,
            k == nq * 1_000_000,
    ;
    assert(spec_score_den(t2, nq) == t2 * k) by (nonlinear_arith)
        requires
            spec_score_den(t2, nq) == t2 * nq * 1_000_000,
            k == nq * 1_000_000,
    ;
    assert((70 * f1 * k + 30 * m * t1) * (t2 * k) <= (70 * f2 * k + 30 * m * t2) * (t1
        * k)) by (nonlinear_arith)
        requires
            f1 * t2 <= f2 * t1,
            k >= 1,
            m >= 0,
            t1 >= 1,
            t2 >= 1,
    ;
}

/// Once the average p99 latency has reached the saturation point (one
/// second), raising it further leaves the flakiness score unchanged.
pub proof fn lemma_score_latency_saturates(failures: int, total: int, s1: int, s2: int, nq: int)
    requires
        0 <= failures <= total,
        nq >= 1,
        s1 >= nq * 1_000_000,
        s2 >= nq * 1_000_000,
    ensures
        spec_score_num(failures, total, s1, nq) == spec_score_num(failures, total, s2, nq),
{
}

/// Computes the flakiness score of an endpoint window as an exact rational:
/// `failures` failed probes out of `total`, and p99 latencies (microseconds)
/// summing to `sum_p99_us` over `query_count` queries. The bound on
/// `query_count` keeps the fixed-scale arithmetic inside 128 bits.
pub fn flakiness_score(failures: u64, total: u64, sum_p99_us: u128, query_count: u64) -> (s: Ratio)
    requires
        failures <= total,
        query_count >= 1,
        query_count * 100_000_000 <= u64::MAX,
    ensures
        s.num == spec_score_num(failures as int, total as int, sum_p99_us as int,
            query_count as int),
        s.den == spec_score_den(total as int, query_count as int),
        s.wf(),
        s.num <= 100 * s.den,
        100 * s.den <= u128::MAX,
{
    let t: u64 = if total == 0 {
        1
    } else {
        total
    };
    let nq: u128 = query_count as u128;
    let cap: u128 = nq * 1_000_000;
    proof {
        assert((t as u128) * nq * 1_000_000 * 100 <= u128::MAX) by (nonlinear_arith)
            requires
                t <= u64::MAX,
                nq * 100_000_000 <= u64::MAX,
        ;
        assert((failures as u128) * nq * 1_000_000 * 70 <= u128::MAX) by (nonlinear_arith)
            requires
                failures <= u64::MAX,
                nq * 100_000_000 <= u64::MAX,
        ;
    }
    let den: u128 = (t as u128) * nq * 1_000_000;
    let m: u128 = if sum_p99_us < cap {
        sum_p99_us
    } else {
        cap
    };
    proof {
        assert(m * (t as u128) * 30 <= u128::MAX) by (nonlinear_arith)
            requires
                m <= nq * 1_000_000,
                nq * 100_000_000 <= u64::MAX,
                t <= u64::MAX,
        ;
        lemma_score_not_clamped(failures as int, total as int, sum_p99_us as int, nq as int);
        lemma_score_bounds(failures as int, total as int, sum_p99_us as int, nq as int);
    }
    let num_raw: u128 = 70 * (failures as u128) * nq * 1_000_000 + 30 * m * (t as u128);
    let hundred_den: u128 = 100 * den;
    let num: u128 = if num_raw < hundred_den {
        num_raw
    } else {
        hundred_den
    };
    Ratio { num, den }
}

/// The severity band of a flakiness score.
pub open spec fn spec_severity(score: Ratio) -> Severity {
    if score.num < 10 * score.den {
        Severity::Healthy
    } else if score.num < 30 * score.den {
        Severity::Mild
    } else if score.num < 60 * score.den {
        Severity::Moderate
    } else {
        Severity::Severe
    }
}

/// Places a flakiness score in its severity band: below 10 is healthy,
/// below 30 mild, below 60 moderate, anything above that severe.
pub fn severity_of_score(score: &Ratio) -> (s: Severity)
    requires
        score.wf(),
        score.num <= 100 * score.den,
        100 * score.den <= u128::MAX,
    ensures
        s == spec_severity(*score),
{
    if score.num < 10 * score.den {
        Severity::Healthy
    } else if score.num < 30 * score.den {
        Severity::Mild
    } else if score.num < 60 * score.den {
        Severity::Moderate
    } else {
        Severity::Severe
    }
}

} // verus!
