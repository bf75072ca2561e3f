use flake_detector::aggregate::{aggregate_endpoint, aggregate_query};
use flake_detector::config::{Config, ConfigError, validate_config};
use flake_detector::metrics::{FailureReason, MetricsAccumulator, ProbeOutcome};
use flake_detector::probe::{build_probe_url, classify_status, transport_failure, worker_should_continue};
use flake_detector::ratio::{Ratio, rate_of};
use flake_detector::recorder::LatencyRecorder;
use flake_detector::score::{Severity, flakiness_score, severity_of_score};

fn acc_with(successes: &[u64], failures: u64) -> MetricsAccumulator {
    let mut acc = MetricsAccumulator::new();
    for &lat in successes {
        acc.record_success(lat);
    }
    for _ in 0..failures {
        acc.record_failure();
    }
    acc
}

#[test]
fn accumulator_counts_add_up() {
    let mut acc = MetricsAccumulator::new();
    assert_eq!(acc.total(), 0);
    acc.record_success(50_000);
    acc.record_success(70_000);
    acc.record_failure();
    assert_eq!(acc.success_count, 2);
    assert_eq!(acc.failure_count, 1);
    assert_eq!(acc.total(), 3);
}

#[test]
fn record_outcome_dispatches() {
    let mut acc = MetricsAccumulator::new();
    acc.record_outcome(&ProbeOutcome::Success { latency_us: 1234 });
    acc.record_outcome(&ProbeOutcome::Failure {
        reason: FailureReason::HttpStatus(503),
    });
    acc.record_outcome(&ProbeOutcome::Failure {
        reason: FailureReason::Transport(String::from("timed out")),
    });
    assert_eq!(acc.success_count, 1);
    assert_eq!(acc.failure_count, 2);
    assert_eq!(acc.total(), 3);
}

#[test]
fn recorder_exact_statistics() {
    let mut rec = LatencyRecorder::new();
    for v in [30u64, 10, 50, 20, 90, 40, 70, 60, 100, 80] {
        rec.record(v);
    }
    assert_eq!(rec.count(), 10);
    assert_eq!(rec.min(), 10);
    assert_eq!(rec.max(), 100);
    assert_eq!(rec.mean(), 55);
    assert_eq!(rec.value_at_percentile(50), 50);
    assert_eq!(rec.value_at_percentile(95), 100);
    assert_eq!(rec.value_at_percentile(99), 100);
    assert_eq!(rec.value_at_percentile(0), 10);
    assert_eq!(rec.value_at_percentile(100), 100);
}

#[test]
fn recorder_mean_rounds_down() {
    let mut rec = LatencyRecorder::new();
    rec.record(1);
    rec.record(2);
    assert_eq!(rec.mean(), 1);
}

#[test]
fn rate_exact_values() {
    let zero = rate_of(0, 5);
    assert_eq!(zero.num, 0);
    assert_eq!(zero.den, 5);
    let all = rate_of(5, 5);
    assert_eq!(all.num, all.den);
    let none = rate_of(0, 0);
    assert_eq!(none.num, 0);
    assert_eq!(none.den, 1);
    let half = rate_of(3, 6);
    assert_eq!(half.num, 3);
    assert_eq!(half.den, 6);
}

#[test]
fn no_success_means_zero_latency_stats() {
    let acc = acc_with(&[], 3);
    let r = aggregate_query("status", &acc);
    assert_eq!(r.success_count, 0);
    assert_eq!(r.failure_count, 3);
    assert_eq!(r.total_requests, 3);
    assert_eq!(r.failure_rate.num, r.failure_rate.den);
    assert_eq!(r.p50_latency_us, 0);
    assert_eq!(r.p95_latency_us, 0);
    assert_eq!(r.p99_latency_us, 0);
    assert_eq!(r.avg_latency_us, 0);
    assert_eq!(r.min_latency_us, 0);
    assert_eq!(r.max_latency_us, 0);
}

#[test]
fn steady_success_window() {
    // A worker probing a healthy endpoint: every probe succeeds in 50 ms.
    let acc = acc_with(&[50_000, 50_000, 50_000, 50_000, 50_000, 50_000], 0);
    let r = aggregate_query("health", &acc);
    assert_eq!(r.query, "health");
    assert_eq!(r.success_count, 6);
    assert_eq!(r.failure_count, 0);
    assert_eq!(r.failure_rate.num, 0);
    assert_eq!(r.p50_latency_us, 50_000);
    assert_eq!(r.avg_latency_us, 50_000);
    assert_eq!(r.min_latency_us, 50_000);
    assert_eq!(r.max_latency_us, 50_000);
}

#[test]
fn aggregation_is_idempotent() {
    let acc = acc_with(&[10_000, 20_000, 30_000], 2);
    let r1 = aggregate_query("genesis", &acc);
    let r2 = aggregate_query("genesis", &acc);
    assert_eq!(r1, r2);
}

#[test]
fn all_failures_scores_seventy() {
    let acc = acc_with(&[], 7);
    let q = aggregate_query("status", &acc);
    let report = aggregate_endpoint("http://node", 60, vec![q]);
    assert_eq!(report.total_requests, 7);
    assert_eq!(report.overall_failure_rate.num, report.overall_failure_rate.den);
    assert_eq!(report.overall_success_rate.num, 0);
    // failure rate 1, latency severity 0: score is exactly 70
    assert_eq!(report.flakiness_score.num, 70 * report.flakiness_score.den);
    assert_eq!(severity_of_score(&report.flakiness_score), Severity::Severe);
}

#[test]
fn slow_success_saturates_latency_severity() {
    // Every probe succeeds, but in 2000 ms: severity saturates at 1.
    let acc = acc_with(&[2_000_000, 2_000_000, 2_000_000], 0);
    let q = aggregate_query("status", &acc);
    assert_eq!(q.p99_latency_us, 2_000_000);
    let report = aggregate_endpoint("http://node", 60, vec![q]);
    assert_eq!(report.overall_failure_rate.num, 0);
    // failure rate 0, latency severity 1: score is exactly 30
    assert_eq!(report.flakiness_score.num, 30 * report.flakiness_score.den);
    assert_eq!(severity_of_score(&report.flakiness_score), Severity::Moderate);
}

#[test]
fn fast_success_is_healthy() {
    let acc = acc_with(&[50_000, 50_000, 50_000, 50_000, 50_000, 50_000], 0);
    let q = aggregate_query("health", &acc);
    let report = aggregate_endpoint("http://node", 1, vec![q]);
    // score = 0.3 * (50 ms / 1000 ms) * 100 = 1.5
    assert_eq!(report.flakiness_score.num * 2, 3 * report.flakiness_score.den);
    assert_eq!(severity_of_score(&report.flakiness_score), Severity::Healthy);
}

#[test]
fn report_carries_window_metadata() {
    let q1 = aggregate_query("health", &acc_with(&[1_000], 1));
    let q2 = aggregate_query("status", &acc_with(&[3_000], 0));
    let report = aggregate_endpoint("http://node:26657", 60, vec![q1, q2]);
    assert_eq!(report.endpoint, "http://node:26657");
    assert_eq!(report.test_duration_secs, 60);
    assert_eq!(report.queries.len(), 2);
    assert_eq!(report.queries[0].query, "health");
    assert_eq!(report.queries[1].query, "status");
    assert_eq!(report.total_requests, 3);
    // 1 failure out of 3 probes
    assert_eq!(report.overall_failure_rate.num, 1);
    assert_eq!(report.overall_failure_rate.den, 3);
    assert_eq!(report.overall_success_rate.num, 2);
}

#[test]
fn score_is_clamped_to_hundred_at_worst() {
    let s = flakiness_score(u64::MAX, u64::MAX, u128::MAX, 1);
    assert!(s.num <= 100 * s.den);
    assert_eq!(s.num, 100 * s.den);
}

#[test]
fn more_failures_never_lower_the_score() {
    let mild = aggregate_endpoint(
        "http://node",
        60,
        vec![aggregate_query("health", &acc_with(&[100_000, 100_000, 100_000], 1))],
    );
    let bad = aggregate_endpoint(
        "http://node",
        60,
        vec![aggregate_query("health", &acc_with(&[100_000, 100_000], 2))],
    );
    // same latency picture, higher failure rate: compare the two rationals
    assert!(mild.flakiness_score.num * bad.flakiness_score.den
        <= bad.flakiness_score.num * mild.flakiness_score.den);
}

#[test]
fn severity_band_boundaries() {
    assert_eq!(severity_of_score(&Ratio { num: 9, den: 1 }), Severity::Healthy);
    assert_eq!(severity_of_score(&Ratio { num: 10, den: 1 }), Severity::Mild);
    assert_eq!(severity_of_score(&Ratio { num: 29, den: 1 }), Severity::Mild);
    assert_eq!(severity_of_score(&Ratio { num: 30, den: 1 }), Severity::Moderate);
    assert_eq!(severity_of_score(&Ratio { num: 59, den: 1 }), Severity::Moderate);
    assert_eq!(severity_of_score(&Ratio { num: 60, den: 1 }), Severity::Severe);
    assert_eq!(severity_of_score(&Ratio { num: 100, den: 1 }), Severity::Severe);
    assert_eq!(severity_of_score(&Ratio { num: 19, den: 2 }), Severity::Healthy);
}

#[test]
fn probe_url_joins_with_single_slash() {
    assert_eq!(build_probe_url("http://node:26657", "health"), "http://node:26657/health");
    assert_eq!(build_probe_url("http://node:26657/", "health"), "http://node:26657/health");
    assert_eq!(build_probe_url("http://node:26657///", "status"), "http://node:26657/status");
    assert_eq!(build_probe_url("", "status"), "/status");
}

#[test]
fn classify_two_hundreds_as_success() {
    assert_eq!(
        classify_status(200, 42),
        ProbeOutcome::Success { latency_us: 42 }
    );
    assert_eq!(
        classify_status(299, 7),
        ProbeOutcome::Success { latency_us: 7 }
    );
    assert_eq!(
        classify_status(300, 7),
        ProbeOutcome::Failure {
            reason: FailureReason::HttpStatus(300)
        }
    );
    assert_eq!(
        classify_status(404, 7),
        ProbeOutcome::Failure {
            reason: FailureReason::HttpStatus(404)
        }
    );
    assert_eq!(
        classify_status(199, 7),
        ProbeOutcome::Failure {
            reason: FailureReason::HttpStatus(199)
        }
    );
}

#[test]
fn transport_errors_are_failures() {
    let o = transport_failure(String::from("connection refused"));
    assert_eq!(
        o,
        ProbeOutcome::Failure {
            reason: FailureReason::Transport(String::from("connection refused"))
        }
    );
}

#[test]
fn worker_stops_at_deadline() {
    assert!(worker_should_continue(0, 1));
    assert!(worker_should_continue(999, 1000));
    assert!(!worker_should_continue(1000, 1000));
    assert!(!worker_should_continue(1001, 1000));
}

fn good_config() -> Config {
    Config {
        endpoints: vec![String::from("http://a"), String::from("http://b")],
        queries: vec![String::from("health")],
        duration_secs: 60,
        concurrency: 10,
        timeout_secs: 5,
    }
}

#[test]
fn valid_config_is_accepted() {
    assert_eq!(validate_config(&good_config()), Ok(()));
}

#[test]
fn zero_queries_is_rejected() {
    let mut c = good_config();
    c.queries = vec![];
    assert_eq!(validate_config(&c), Err(ConfigError::NoQueries));
}

#[test]
fn config_errors_are_specific() {
    let mut c = good_config();
    c.endpoints = vec![];
    assert_eq!(validate_config(&c), Err(ConfigError::NoEndpoints));

    let mut c = good_config();
    c.endpoints = vec![String::from("http://a"), String::new()];
    assert_eq!(validate_config(&c), Err(ConfigError::EmptyEndpoint));

    let mut c = good_config();
    c.queries = vec![String::new()];
    assert_eq!(validate_config(&c), Err(ConfigError::EmptyQuery));

    let mut c = good_config();
    c.duration_secs = 0;
    assert_eq!(validate_config(&c), Err(ConfigError::ZeroDuration));

    let mut c = good_config();
    c.concurrency = 0;
    assert_eq!(validate_config(&c), Err(ConfigError::ZeroConcurrency));

    let mut c = good_config();
    c.timeout_secs = 0;
    assert_eq!(validate_config(&c), Err(ConfigError::ZeroTimeout));
}
