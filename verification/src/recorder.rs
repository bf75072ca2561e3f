use vstd::prelude::*;

verus! {

/// The sum of a sequence of latency samples, as an unbounded integer.
pub open spec fn sum_of(s: Seq<u64>) -> int
    decreases s.len(),
{
    if s.len() == 0 {
        0
    } else {
        sum_of(s.drop_last()) + s.last()
    }
}

/// The samples stand in ascending order.
pub open spec fn sorted(s: Seq<u64>) -> bool {
    forall|i: int, j: int| 0 <= i <= j < s.len() ==> s[i] <= s[j]
}

/// The index (counting from one) of the sample that answers a percentile
/// query at `p` percent over `n` samples: the smallest rank that covers at
/// least `p` percent of the samples, and at least one sample.
pub open spec fn spec_rank(n: int, p: int) -> int {
    let r = (n * p + 99) / 100;
    if r < 1 {
        1
    } else {
        r
    }
}

/// The value at the `p`-th percentile of a sorted, non-empty sample
/// sequence.
pub open spec fn spec_percentile(s: Seq<u64>, p: int) -> u64 {
    s[spec_rank(s.len() as int, p) - 1]
}

/// The sum of any sample sequence is bounded by its length times the
/// largest representable sample.
pub proof fn lemma_sum_of_bound(s: Seq<u64>)
    ensures
        0 <= sum_of(s) <= s.len() * u64::MAX,
    decreases s.len(),
{
    if s.len() == 0 {
    } else {
        lemma_sum_of_bound(s.drop_last());
        assert(s.len() * u64::MAX == (s.len() - 1) * u64::MAX + u64::MAX) by (nonlinear_arith);
    }
}

/// Records microsecond-resolution latency samples and answers count, mean,
/// minimum, maximum and percentile queries over them, all of them exact.
/// The samples are held in ascending order so that a percentile query is a
/// single lookup.
pub struct LatencyRecorder {
    samples: Vec<u64>,
}

impl View for LatencyRecorder {
    type V = Seq<u64>;

    closed spec fn view(&self) -> Seq<u64> {
        self.samples@
    }
}

impl LatencyRecorder {
    /// Well-formed: the stored samples are sorted.
    pub open spec fn wf(self) -> bool {
        sorted(self@)
    }

    /// An empty recorder.
    pub fn new() -> (r: Self)
        ensures
            r.wf(),
            r@ == Seq::<u64>::empty(),
    {
        LatencyRecorder { samples: Vec::new() }
    }

    /// The number of samples recorded so far.
    pub fn count(&self) -> (n: usize)
        ensures
            n == self@.len(),
    {
        self.samples.len()
    }

    /// Records one sample. Every earlier sample is kept, and the samples
    /// stay sorted.
    pub fn record(&mut self, v: u64)
        requires
            old(self).wf(),
        ensures
            final(self).wf(),
            final(self)@.len() == old(self)@.len() + 1,
            final(self)@.to_multiset() == old(self)@.to_multiset().insert(v),
    {
        let ghost orig = self.samples@;
        let mut i: usize = 0;
        while i < self.samples.len() && self.samples[i] <= v
            invariant
                i <= self.samples.len(),
                self.samples@ == orig,
                forall|k: int| 0 <= k < i ==> orig[k] <= v,
            decreases self.samples.len() - i,
        {
            i += 1;
        }
        self.samples.insert(i, v);
        proof {
            orig.insert_ensures(i as int, v);
            vstd::seq_lib::to_multiset_insert(orig, i as int, v);
            assert forall|p: int, q: int| 0 <= p <= q < self.samples@.len() implies self.samples@[p]
                <= self.samples@[q] by {
                let s = self.samples@;
                if q < i {
                    assert(s[p] == orig[p] && s[q] == orig[q]);
                } else if p > i {
                    assert(s[p] == orig[p - 1] && s[q] == orig[q - 1]);
                } else if p < i && q == i {
                    assert(s[p] == orig[p] && s[q] == v);
                } else if p == i && q > i {
                    assert(s[p] == v && s[q] == orig[q - 1]);
                    assert(i < orig.len() ==> orig[i as int] > v);
                    assert(orig[q - 1] >= if i < orig.len() {
                        orig[i as int]
                    } else {
                        orig[q - 1]
                    });
                } else if p < i && q > i {
                    assert(s[p] == orig[p] && s[q] == orig[q - 1]);
                }
            }
        }
    }

    /// The smallest recorded sample.
    pub fn min(&self) -> (r: u64)
        requires
            self.wf(),
            self@.len() > 0,
        ensures
            r == self@.first(),
            forall|k: int| 0 <= k < self@.len() ==> r <= self@[k],
    {
        self.samples[0]
    }

    /// The largest recorded sample.
    pub fn max(&self) -> (r: u64)
        requires
            self.wf(),
            self@.len() > 0,
        ensures
            r == self@.last(),
            forall|k: int| 0 <= k < self@.len() ==> r >= self@[k],
    {
        self.samples[self.samples.len() - 1]
    }

    /// The arithmetic mean of the samples, rounded down.
    pub fn mean(&self) -> (m: u64)
        requires
            self.wf(),
            self@.len() > 0,
        ensures
            m == sum_of(self@) / (self@.len() as int),
    {
        let n = self.samples.len();
        let mut sum: u128 = 0;
        let mut i: usize = 0;
        proof {
            lemma_sum_of_bound(self@);
        }
        while i < n
            invariant
                i <= n,
                n == self@.len(),
                self.wf(),
                sum == sum_of(self@.take(i as int)),
                sum <= i * u64::MAX,
            decreases n - i,
        {
            proof {
                assert(self@.take(i + 1).drop_last() =~= self@.take(i as int));
                assert(self@.take(i + 1).last() == self@[i as int]);
                assert((i + 1) * u64::MAX == i * u64::MAX + u64::MAX) by (nonlinear_arith);
            }
            sum = sum + self.samples[i] as u128;
            i += 1;
        }
        proof {
            assert(self@.take(n as int) =~= self@);
            assert(sum / (n as u128) <= u64::MAX as u128) by (nonlinear_arith)
                requires
                    sum <= n * u64::MAX,
                    n > 0,
            ;
        }
        (sum / (n as u128)) as u64
    }

    /// The value at the `p`-th percentile (`0 <= p <= 100`) of the recorded
    /// samples.
    pub fn value_at_percentile(&self, p: u64) -> (r: u64)
        requires
            self.wf(),
            self@.len() > 0,
            p <= 100,
        ensures
            r == spec_percentile(self@, p as int),
    {
        let n = self.samples.len();
        proof {
            assert((n as u128) * (p as u128) <= (usize::MAX as u128) * 100) by (nonlinear_arith)
                requires
                    n <= usize::MAX,
                    p <= 100,
            ;
        }
        let prod: u128 = (n as u128) * (p as u128);
        let mut rank: u128 = (prod + 99) / 100;
        if rank < 1 {
            rank = 1;
        }
        proof {
            assert((n as int * p as int + 99) / 100 <= n as int) by (nonlinear_arith)
                requires
                    p <= 100,
                    n >= 0,
            ;
        }
        let idx: usize = (rank - 1) as usize;
        self.samples[idx]
    }
}

} // verus!
