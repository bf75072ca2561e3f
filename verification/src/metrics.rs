use vstd::prelude::*;
use crate::recorder::LatencyRecorder;

verus! {

/// Why a probe failed.
#[derive(Clone, PartialEq, Eq, Debug)]
pub enum FailureReason {
    /// The endpoint answered, but with a status outside the 2xx range.
    HttpStatus(u16),
    /// The request itself failed (timeout, refused connection, name
    /// resolution, ...); carries the transport error's description.
    Transport(String),
}

/// The outcome of a single probe against one endpoint and query.
#[derive(Clone, PartialEq, Eq, Debug)]
pub enum ProbeOutcome {
    /// The endpoint answered 2xx; carries the measured wall-clock latency in
    /// microseconds.
    Success { latency_us: u64 },
    /// The probe failed; carries the reason.
    Failure { reason: FailureReason },
}

/// The mutable state collected during one query's test window: a success
/// counter, a failure counter, and the latency samples of the successful
/// probes.
pub struct MetricsAccumulator {
    pub success_count: u64,
    pub failure_count: u64,
    pub latencies: LatencyRecorder,
}

impl MetricsAccumulator {
    /// Every probe recorded so far.
    pub open spec fn spec_total(self) -> int {
        self.success_count + self.failure_count
    }

    /// Well-formed: each successful probe contributed exactly one latency
    /// sample, and the probe total fits the counter width.
    pub open spec fn wf(self) -> bool {
        &&& self.latencies.wf()
        &&& self.latencies@.len() == self.success_count
        &&& self.spec_total() <= u64::MAX
    }

    /// A fresh accumulator with no probes recorded.
    pub fn new() -> (r: Self)
        ensures
            r.wf(),
            r.success_count == 0,
            r.failure_count == 0,
            r.latencies@ == Seq::<u64>::empty(),
    {
        MetricsAccumulator { success_count: 0, failure_count: 0, latencies: LatencyRecorder::new() }
    }

    /// How many probes were recorded so far.
    pub fn total(&self) -> (t: u64)
        requires
            self.wf(),
        ensures
            t == self.spec_total(),
    {
        self.success_count + self.failure_count
    }

    /// Records one successful probe: the success counter rises by one and
    /// the latency sample is kept; nothing else changes.
    pub fn record_success(&mut self, latency_us: u64)
        requires
            old(self).wf(),
            old(self).spec_total() < u64::MAX,
        ensures
            final(self).wf(),
            final(self).success_count == old(self).success_count + 1,
            final(self).failure_count == old(self).failure_count,
            final(self).spec_total() == old(self).spec_total() + 1,
            final(self).latencies@.to_multiset() == old(self).latencies@.to_multiset().insert(
                latency_us,
            ),
    {
        self.success_count = self.success_count + 1;
        self.latencies.record(latency_us);
    }

    /// Records one failed probe: the failure counter rises by one; nothing
    /// else changes.
    pub fn record_failure(&mut self)
        requires
            old(self).wf(),
            old(self).spec_total() < u64::MAX,
        ensures
            final(self).wf(),
            final(self).success_count == old(self).success_count,
            final(self).failure_count == old(self).failure_count + 1,
            final(self).spec_total() == old(self).spec_total() + 1,
            final(self).latencies@ == old(self).latencies@,
    {
        self.failure_count = self.failure_count + 1;
    }

    /// Records one probe outcome: a success adds its latency sample, a
    /// failure only counts. Either way the probe total rises by exactly one.
    pub fn record_outcome(&mut self, outcome: &ProbeOutcome)
        requires
            old(self).wf(),
            old(self).spec_total() < u64::MAX,
        ensures
            final(self).wf(),
            final(self).spec_total() == old(self).spec_total() + 1,
            outcome matches ProbeOutcome::Success { latency_us } ==> {
                &&& final(self).success_count == old(self).success_count + 1
                &&& final(self).failure_count == old(self).failure_count
                &&& final(self).latencies@.to_multiset() == old(
                    self).latencies@.to_multiset().insert(*latency_us)
            },
            outcome matches ProbeOutcome::Failure { .. } ==> {
                &&& final(self).success_count == old(self).success_count
                &&& final(self).failure_count == old(self).failure_count + 1
                &&& final(self).latencies@ == old(self).latencies@
            },
    {
        match outcome {
            ProbeOutcome::Success { latency_us } => self.record_success(*latency_us),
            ProbeOutcome::Failure { .. } => self.record_failure(),
        }
    }
}

} // verus!
