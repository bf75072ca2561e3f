use vstd::prelude::*;

verus! {

/// The resolved configuration of one run, immutable once testing starts.
#[derive(Clone, PartialEq, Eq, Debug)]
pub struct Config {
    /// Endpoint base URLs, each non-empty.
    pub endpoints: Vec<String>,
    /// Query names, each non-empty, appended to the endpoint path.
    pub queries: Vec<String>,
    /// Test window per query, in seconds.
    pub duration_secs: u64,
    /// Concurrent workers per query.
    pub concurrency: u64,
    /// Per-request timeout, in seconds.
    pub timeout_secs: u64,
}

/// Why a configuration was rejected.
#[derive(Clone, Copy, PartialEq, Eq, Structural, Debug)]
pub enum ConfigError {
    /// No endpoint was configured.
    NoEndpoints,
    /// An endpoint URL is the empty string.
    EmptyEndpoint,
    /// No query was configured; the endpoint-level latency average would be
    /// undefined.
    NoQueries,
    /// A query name is the empty string.
    EmptyQuery,
    /// The test duration is zero.
    ZeroDuration,
    /// The worker count is zero.
    ZeroConcurrency,
    /// The request timeout is zero.
    ZeroTimeout,
}

/// A configuration the engine accepts: at least one endpoint and one query,
/// no empty name, and positive duration, concurrency and timeout.
pub open spec fn config_valid(c: Config) -> bool {
    &&& c.endpoints@.len() > 0
    &&& forall|i: int| 0 <= i < c.endpoints@.len() ==> (#[trigger] c.endpoints@[i])@.len() > 0
    &&& c.queries@.len() > 0
    &&& forall|i: int| 0 <= i < c.queries@.len() ==> (#[trigger] c.queries@[i])@.len() > 0
    &&& c.duration_secs > 0
    &&& c.concurrency > 0
    &&& c.timeout_secs > 0
}

/// Checks a configuration before any testing starts, and names the first
/// constraint it breaks: endpoints before queries before the numeric
/// parameters.
pub fn validate_config(c: &Config) -> (r: Result<(), ConfigError>)
    ensures
        r is Ok <==> config_valid(*c),
        (r == Result::<(), ConfigError>::Err(ConfigError::NoEndpoints)) <==> c.endpoints@.len()
            == 0,
        (r == Result::<(), ConfigError>::Err(ConfigError::EmptyEndpoint)) <==> (c.endpoints@.len()
            > 0 && exists|i: int|
            0 <= i < c.endpoints@.len() && (#[trigger] c.endpoints@[i])@.len() == 0),
        (r == Result::<(), ConfigError>::Err(ConfigError::NoQueries)) <==> (c.endpoints@.len() > 0
            && (forall|i: int| 0 <= i < c.endpoints@.len() ==> (#[trigger] c.endpoints@[i])@.len()
            > 0) && c.queries@.len() == 0),
        (r == Result::<(), ConfigError>::Err(ConfigError::EmptyQuery)) <==> (c.endpoints@.len() > 0
            && (forall|i: int| 0 <= i < c.endpoints@.len() ==> (#[trigger] c.endpoints@[i])@.len()
            > 0) && c.queries@.len() > 0 && exists|i: int|
            0 <= i < c.queries@.len() && (#[trigger] c.queries@[i])@.len() == 0),
{
    if c.endpoints.len() == 0 {
        return Err(ConfigError::NoEndpoints);
    }
    let mut i: usize = 0;
    while i < c.endpoints.len()
        invariant
            i <= c.endpoints@.len(),
            forall|k: int| 0 <= k < i ==> (#[trigger] c.endpoints@[k])@.len() > 0,
        decreases c.endpoints@.len() - i,
    {
        if c.endpoints[i].as_str().is_empty() {
            return Err(ConfigError::EmptyEndpoint);
        }
        i += 1;
    }
    if c.queries.len() == 0 {
        return Err(ConfigError::NoQueries);
    }
    let mut j: usize = 0;
    while j < c.queries.len()
        invariant
            j <= c.queries@.len(),
            c.endpoints@.len() > 0,
            forall|k: int| 0 <= k < c.endpoints@.len() ==> (#[trigger] c.endpoints@[k])@.len() > 0,
            c.queries@.len() > 0,
            forall|k: int| 0 <= k < j ==> (#[trigger] c.queries@[k])@.len() > 0,
        decreases c.queries@.len() - j,
    {
        if c.queries[j].as_str().is_empty() {
            return Err(ConfigError::EmptyQuery);
        }
        j += 1;
    }
    if c.duration_secs == 0 {
        return Err(ConfigError::ZeroDuration);
    }
    if c.concurrency == 0 {
        return Err(ConfigError::ZeroConcurrency);
    }
    if c.timeout_secs == 0 {
        return Err(ConfigError::ZeroTimeout);
    }
    Ok(())
}

} // verus!
