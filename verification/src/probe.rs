use vstd::prelude::*;
use crate::metrics::{FailureReason, ProbeOutcome};

verus! {

/// The endpoint base with every trailing '/' removed.
pub open spec fn spec_trim_trailing_slashes(s: Seq<char>) -> Seq<char>
    decreases s.len(),
{
    if s.len() > 0 && s.last() == '/' {
        spec_trim_trailing_slashes(s.drop_last())
    } else {
        s
    }
}

/// The target of one probe: the endpoint base without its trailing slashes,
/// one '/' separator, and the query name.
pub open spec fn spec_probe_url(endpoint: Seq<char>, query: Seq<char>) -> Seq<char> {
    spec_trim_trailing_slashes(endpoint) + seq!['/'] + query
}

/// Builds the URL a probe targets for the given endpoint base and query
/// name.
pub fn build_probe_url(endpoint: &str, query: &str) -> (r: String)
    ensures
        r@ == spec_probe_url(endpoint@, query@),
{
    let mut end: usize = endpoint.unicode_len();
    proof {
        assert(endpoint@.take(end as int) =~= endpoint@);
    }
    while end > 0 && endpoint.get_char(end - 1) == '/'
        invariant
            end <= endpoint@.len(),
            spec_trim_trailing_slashes(endpoint@) == spec_trim_trailing_slashes(
                endpoint@.take(end as int),
            ),
        decreases end,
    {
        proof {
            assert(endpoint@.take(end as int).last() == endpoint@[end - 1]);
            assert(endpoint@.take(end as int).drop_last() =~= endpoint@.take(end - 1));
        }
        end = end - 1;
    }
    proof {
        if end > 0 {
            assert(endpoint@.take(end as int).last() == endpoint@[end - 1]);
        }
        assert(spec_trim_trailing_slashes(endpoint@.take(end as int)) == endpoint@.take(
            end as int,
        ));
    }
    let base = endpoint.substring_char(0, end);
    let mut url = base.to_owned();
    url.append("/");
    url.append(query);
    proof {
        reveal_strlit("/");
        assert(("/")@ =~= seq!['/']);
        assert(url@ =~= spec_probe_url(endpoint@, query@));
    }
    url
}

/// Classifies one completed HTTP exchange: any 2xx status is a success
/// carrying the measured latency; every other status is a failure tagged
/// with the status code.
pub fn classify_status(status: u16, latency_us: u64) -> (o: ProbeOutcome)
    ensures
        200 <= status < 300 ==> o == (ProbeOutcome::Success { latency_us }),
        !(200 <= status < 300) ==> o == (ProbeOutcome::Failure {
            reason: FailureReason::HttpStatus(status),
        }),
{
    if 200 <= status && status < 300 {
        ProbeOutcome::Success { latency_us }
    } else {
        ProbeOutcome::Failure { reason: FailureReason::HttpStatus(status) }
    }
}

/// The outcome of a probe whose transport failed before any status code
/// arrived (timeout, refused connection, name resolution, ...).
pub fn transport_failure(description: String) -> (o: ProbeOutcome)
    ensures
        o == (ProbeOutcome::Failure { reason: FailureReason::Transport(description) }),
{
    ProbeOutcome::Failure { reason: FailureReason::Transport(description) }
}

/// One worker's loop decision: a worker keeps probing exactly until it has
/// observed that the deadline has passed.
pub fn worker_should_continue(now_us: u64, deadline_us: u64) -> (b: bool)
    ensures
        b == (now_us < deadline_us),
{
    now_us < deadline_us
}

} // verus!
