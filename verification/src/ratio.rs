use vstd::prelude::*;

verus! {

/// An exact non-negative rational number, kept as a numerator and a positive
/// denominator. Rates and scores are kept in this form so that every
/// statistic the library reports is exact; rendering as a decimal is left to
/// the caller.
#[derive(Clone, Copy, PartialEq, Eq, Structural, Debug)]
pub struct Ratio {
    pub num: u128,
    pub den: u128,
}

impl Ratio {
    /// Well-formed: the denominator is positive.
    pub open spec fn wf(self) -> bool {
        self.den > 0
    }
}

/// The failure rate of a probe window: `failures / total`, taken to be 0
/// when no probes were recorded at all.
pub open spec fn spec_rate(failures: u64, total: u64) -> Ratio {
    if total == 0 {
        Ratio { num: 0, den: 1 }
    } else {
        Ratio { num: failures as u128, den: total as u128 }
    }
}

/// Builds the failure rate of a window with `failures` failed probes out of
/// `total` probes.
pub fn rate_of(failures: u64, total: u64) -> (r: Ratio)
    requires
        failures <= total,
    ensures
        r == spec_rate(failures, total),
        r.wf(),
{
    if total == 0 {
        Ratio { num: 0, den: 1 }
    } else {
        Ratio { num: failures as u128, den: total as u128 }
    }
}

/// A failure rate lies in [0, 1]; it is 0 exactly when no probe failed, and
/// 1 exactly when at least one probe ran and every probe failed.
pub proof fn lemma_rate_bounds(failures: u64, total: u64)
    requires
        failures <= total,
    ensures
        spec_rate(failures, total).wf(),
        spec_rate(failures, total).num <= spec_rate(failures, total).den,
        (spec_rate(failures, total).num == 0) <==> (failures == 0),
        (spec_rate(failures, total).num == spec_rate(failures, total).den) <==> (total > 0
            && failures == total),
{
}

} // verus!
