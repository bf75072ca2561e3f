use vstd::prelude::*;
use crate::metrics::MetricsAccumulator;
use crate::ratio::{Ratio, rate_of, spec_rate};
use crate::recorder::{spec_percentile, sum_of};
use crate::score::{flakiness_score, spec_score_den, spec_score_num};

verus! {

/// The frozen statistics of one query's test window. Latency statistics are
/// microsecond-resolution integers; they are all 0 when no probe succeeded.
#[derive(Clone, PartialEq, Eq, Debug)]
pub struct QueryResult {
    pub query: String,
    pub success_count: u64,
    pub failure_count: u64,
    pub total_requests: u64,
    pub failure_rate: Ratio,
    pub p50_latency_us: u64,
    pub p95_latency_us: u64,
    pub p99_latency_us: u64,
    pub avg_latency_us: u64,
    pub min_latency_us: u64,
    pub max_latency_us: u64,
}

/// The frozen report of one endpoint: summed counts, overall rates, the
/// flakiness score, and the per-query results in configuration order.
#[derive(Clone, PartialEq, Eq, Debug)]
pub struct EndpointReport {
    pub endpoint: String,
    pub overall_success_rate: Ratio,
    pub overall_failure_rate: Ratio,
    pub flakiness_score: Ratio,
    pub total_requests: u64,
    pub test_duration_secs: u64,
    pub queries: Vec<QueryResult>,
}

/// A query result is internally consistent: its total is the sum of its
/// counts and its failure rate is exactly `failures / total`.
pub open spec fn qr_wf(r: QueryResult) -> bool {
    &&& r.total_requests == r.success_count + r.failure_count
    &&& r.failure_rate == spec_rate(r.failure_count, r.total_requests)
}

/// What aggregating one query's accumulator must produce: the counts are
/// carried over, the failure rate is exact, and the six latency statistics
/// are the exact percentiles, mean, minimum and maximum of the recorded
/// samples — or all 0 when no probe succeeded.
pub open spec fn query_result_matches(r: QueryResult, q: Seq<char>, acc: MetricsAccumulator) -> bool {
    &&& r.query@ == q
    &&& r.success_count == acc.success_count
    &&& r.failure_count == acc.failure_count
    &&& r.total_requests == acc.success_count + acc.failure_count
    &&& r.failure_rate == spec_rate(acc.failure_count, (acc.success_count
        + acc.failure_count) as u64)
    &&& if acc.success_count == 0 {
        r.p50_latency_us == 0 && r.p95_latency_us == 0 && r.p99_latency_us == 0
            && r.avg_latency_us == 0 && r.min_latency_us == 0 && r.max_latency_us == 0
    } else {
        &&& r.p50_latency_us == spec_percentile(acc.latencies@, 50)
        &&& r.p95_latency_us == spec_percentile(acc.latencies@, 95)
        &&& r.p99_latency_us == spec_percentile(acc.latencies@, 99)
        &&& r.avg_latency_us == sum_of(acc.latencies@) / (acc.latencies@.len() as int)
        &&& r.min_latency_us == acc.latencies@.first()
        &&& r.max_latency_us == acc.latencies@.last()
    }
}

/// Reduces one query's finished accumulator to its immutable result.
pub fn aggregate_query(query: &str, acc: &MetricsAccumulator) -> (r: QueryResult)
    requires
        acc.wf(),
    ensures
        query_result_matches(r, query@, *acc),
        qr_wf(r),
        r.failure_rate.wf(),
        r.failure_rate.num <= r.failure_rate.den,
        r.failure_rate.num == 0 <==> r.failure_count == 0,
        acc.success_count == 0 ==> r.p50_latency_us == 0 && r.p95_latency_us == 0
            && r.p99_latency_us == 0 && r.avg_latency_us == 0 && r.min_latency_us == 0
            && r.max_latency_us == 0,
{
    let success = acc.success_count;
    let failure = acc.failure_count;
    let total = success + failure;
    let failure_rate = rate_of(failure, total);
    proof {
        crate::ratio::lemma_rate_bounds(failure, total);
    }
    if success > 0 {
        QueryResult {
            query: query.to_owned(),
            success_count: success,
            failure_count: failure,
            total_requests: total,
            failure_rate,
            p50_latency_us: acc.latencies.value_at_percentile(50),
            p95_latency_us: acc.latencies.value_at_percentile(95),
            p99_latency_us: acc.latencies.value_at_percentile(99),
            avg_latency_us: acc.latencies.mean(),
            min_latency_us: acc.latencies.min(),
            max_latency_us: acc.latencies.max(),
        }
    } else {
        QueryResult {
            query: query.to_owned(),
            success_count: success,
            failure_count: failure,
            total_requests: total,
            failure_rate,
            p50_latency_us: 0,
            p95_latency_us: 0,
            p99_latency_us: 0,
            avg_latency_us: 0,
            min_latency_us: 0,
            max_latency_us: 0,
        }
    }
}

/// Aggregation is a pure function of the frozen accumulator: two results
/// produced from the same accumulator and query name agree in every field.
pub proof fn lemma_aggregation_idempotent(
    r1: QueryResult,
    r2: QueryResult,
    q: Seq<char>,
    acc: MetricsAccumulator,
)
    requires
        query_result_matches(r1, q, acc),
        query_result_matches(r2, q, acc),
    ensures
        r1.query@ == r2.query@,
        r1.success_count == r2.success_count,
        r1.failure_count == r2.failure_count,
        r1.total_requests == r2.total_requests,
        r1.failure_rate == r2.failure_rate,
        r1.p50_latency_us == r2.p50_latency_us,
        r1.p95_latency_us == r2.p95_latency_us,
        r1.p99_latency_us == r2.p99_latency_us,
        r1.avg_latency_us == r2.avg_latency_us,
        r1.min_latency_us == r2.min_latency_us,
        r1.max_latency_us == r2.max_latency_us,
{
}

/// The summed success counts of a sequence of query results.
pub open spec fn sum_success(qs: Seq<QueryResult>) -> int
    decreases qs.len(),
{
    if qs.len() == 0 {
        0
    } else {
        sum_success(qs.drop_last()) + qs.last().success_count
    }
}

/// The summed failure counts of a sequence of query results.
pub open spec fn sum_failure(qs: Seq<QueryResult>) -> int
    decreases qs.len(),
{
    if qs.len() == 0 {
        0
    } else {
        sum_failure(qs.drop_last()) + qs.last().failure_count
    }
}

/// The summed p99 latencies (microseconds) of a sequence of query results.
pub open spec fn sum_p99(qs: Seq<QueryResult>) -> int
    decreases qs.len(),
{
    if qs.len() == 0 {
        0
    } else {
        sum_p99(qs.drop_last()) + qs.last().p99_latency_us
    }
}

/// A prefix of the summed success counts is between 0 and the full sum.
pub proof fn lemma_sum_success_prefix(qs: Seq<QueryResult>, i: int)
    requires
        0 <= i <= qs.len(),
    ensures
        0 <= sum_success(qs.take(i)) <= sum_success(qs),
    decreases qs.len(),
{
    if i == qs.len() {
        assert(qs.take(i) =~= qs);
        if qs.len() > 0 {
            lemma_sum_success_prefix(qs.drop_last(), i - 1);
        }
    } else {
        assert(qs.take(i) =~= qs.drop_last().take(i));
        lemma_sum_success_prefix(qs.drop_last(), i);
    }
}

/// A prefix of the summed failure counts is between 0 and the full sum.
pub proof fn lemma_sum_failure_prefix(qs: Seq<QueryResult>, i: int)
    requires
        0 <= i <= qs.len(),
    ensures
        0 <= sum_failure(qs.take(i)) <= sum_failure(qs),
    decreases qs.len(),
{
    if i == qs.len() {
        assert(qs.take(i) =~= qs);
        if qs.len() > 0 {
            lemma_sum_failure_prefix(qs.drop_last(), i - 1);
        }
    } else {
        assert(qs.take(i) =~= qs.drop_last().take(i));
        lemma_sum_failure_prefix(qs.drop_last(), i);
    }
}

/// Reduces the per-query results of one endpoint's window to its report:
/// counts are summed, the overall rates are exact, and the flakiness score
/// is the exact weighted blend of failure rate and latency severity. The
/// bound on the number of queries keeps the score arithmetic inside 128
/// bits.
pub fn aggregate_endpoint(endpoint: &str, duration_secs: u64, queries: Vec<QueryResult>) -> (r:
    EndpointReport)
    requires
        queries@.len() >= 1,
        forall|i: int| 0 <= i < queries@.len() ==> qr_wf(#[trigger] queries@[i]),
        sum_success(queries@) + sum_failure(queries@) <= u64::MAX,
        queries@.len() * 100_000_000 <= u64::MAX,
    ensures
        r.endpoint@ == endpoint@,
        r.test_duration_secs == duration_secs,
        r.queries@ == queries@,
        r.total_requests == sum_success(queries@) + sum_failure(queries@),
        r.overall_failure_rate == spec_rate(sum_failure(queries@) as u64, r.total_requests),
        r.overall_success_rate.den == r.overall_failure_rate.den,
        r.overall_success_rate.num == r.overall_failure_rate.den - r.overall_failure_rate.num,
        r.flakiness_score.num == spec_score_num(
            sum_failure(queries@),
            sum_success(queries@) + sum_failure(queries@),
            sum_p99(queries@),
            queries@.len() as int,
        ),
        r.flakiness_score.den == spec_score_den(
            sum_success(queries@) + sum_failure(queries@),
            queries@.len() as int,
        ),
        r.overall_failure_rate.wf(),
        r.overall_failure_rate.num <= r.overall_failure_rate.den,
        r.overall_success_rate.wf(),
        r.flakiness_score.wf(),
        r.flakiness_score.num <= 100 * r.flakiness_score.den,
        100 * r.flakiness_score.den <= u128::MAX,
{
    let n = queries.len();
    let mut total_success: u64 = 0;
    let mut total_failure: u64 = 0;
    let mut p99_sum: u128 = 0;
    let mut i: usize = 0;
    while i < n
        invariant
            i <= n,
            n == queries@.len(),
            forall|k: int| 0 <= k < queries@.len() ==> qr_wf(#[trigger] queries@[k]),
            sum_success(queries@) + sum_failure(queries@) <= u64::MAX,
            total_success == sum_success(queries@.take(i as int)),
            total_failure == sum_failure(queries@.take(i as int)),
            p99_sum == sum_p99(queries@.take(i as int)),
            p99_sum <= i * u64::MAX,
        decreases n - i,
    {
        proof {
            assert(queries@.take(i + 1).drop_last() =~= queries@.take(i as int));
            assert(queries@.take(i + 1).last() == queries@[i as int]);
            lemma_sum_success_prefix(queries@, i + 1);
            lemma_sum_failure_prefix(queries@, i + 1);
            lemma_sum_success_prefix(queries@, i as int);
            lemma_sum_failure_prefix(queries@, i as int);
            assert((i + 1) * u64::MAX == i * u64::MAX + u64::MAX) by (nonlinear_arith);
        }
        total_success = total_success + queries[i].success_count;
        total_failure = total_failure + queries[i].failure_count;
        p99_sum = p99_sum + queries[i].p99_latency_us as u128;
        i += 1;
    }
    proof {
        assert(queries@.take(n as int) =~= queries@);
    }
    let total = total_success + total_failure;
    let overall_failure_rate = rate_of(total_failure, total);
    proof {
        crate::ratio::lemma_rate_bounds(total_failure, total);
    }
    let overall_success_rate = Ratio {
        num: overall_failure_rate.den - overall_failure_rate.num,
        den: overall_failure_rate.den,
    };
    let score = flakiness_score(total_failure, total, p99_sum, n as u64);
    EndpointReport {
        endpoint: endpoint.to_owned(),
        overall_success_rate,
        overall_failure_rate,
        flakiness_score: score,
        total_requests: total,
        test_duration_secs: duration_secs,
        queries,
    }
}

} // verus!
