use crate::address::IpAddress;
use crate::config::PingerConfig;
use crate::metric::ResolveFailureKind;
use std::sync::Arc;
use vstd::prelude::*;

verus! {

/// A name-resolution capability that probes can share: it turns a name into
/// an ordered list of addresses, without retrying.
pub trait Resolve {

}

/// Receives the timing of each resolution.
pub trait TimeReporter {
    /// One resolution of `name` took `time_us` microseconds and failed with an
    /// error of kind `error`, if any.
    fn report_time(&self, name: String, time_us: u64, error: Option<ResolveFailureKind>);
}

/// A resolver that reports how long each resolution took and whether it
/// failed, and otherwise behaves exactly as the resolver it wraps.
pub struct TimedResolver<R, T> where R: Resolve, T: TimeReporter {
    resolver: R,
    reporter: Arc<T>,
}

impl<R: Resolve, T: TimeReporter> Resolve for TimedResolver<R, T> {

}

impl<R: Resolve, T: TimeReporter> TimedResolver<R, T> {
    pub fn new(resolver: R, reporter: Arc<T>) -> (r: Self)
        ensures
            r.inner() == resolver,
            r.reporter_spec() == reporter,
    {
        TimedResolver { resolver, reporter }
    }

    pub closed spec fn inner(&self) -> R {
        self.resolver
    }

    pub closed spec fn reporter_spec(&self) -> Arc<T> {
        self.reporter
    }

    /// The wrapped resolver, which performs every resolution.
    pub fn resolver(&self) -> (r: &R)
        ensures
            *r == self.inner(),
    {
        &self.resolver
    }

    /// Reports a finished resolution of `name` once, with the time it took
    /// and [`report_of`] the result, then hands the result back unchanged:
    /// callers cannot tell a timed resolver from the one it wraps.
    pub fn complete<A, E>(&self, name: String, time_us: u64, result: Result<A, E>, failure: ResolveFailureKind) -> (r:
        Result<A, E>)
        ensures
            r == result,
    {
        let error = report_of(&result, failure);
        self.reporter.report_time(name, time_us, error);
        result
    }
}

/// The error class a resolution reports: none for a success, `failure` (the
/// class of the delegate's error) for a failure.
pub fn report_of<A, E>(result: &Result<A, E>, failure: ResolveFailureKind) -> (k: Option<ResolveFailureKind>)
    ensures
        k == (if result is Ok {
            None
        } else {
            Some(failure)
        }),
{
    match result {
        Ok(_) => None,
        Err(_) => Some(failure),
    }
}

/// The address a probe connects to: the first one resolution returned.
pub fn first_address(addrs: &Vec<IpAddress>) -> (r: Option<IpAddress>)
    ensures
        addrs@.len() == 0 ==> r is None,
        addrs@.len() > 0 ==> r == Some(addrs@[0]),
{
    if addrs.len() == 0 {
        None
    } else {
        Some(addrs[0])
    }
}

/// How the shared resolver is set up.
#[derive(Copy, Clone, Debug, PartialEq, Eq, Structural)]
pub struct ResolverSettings {
    /// Cached answers; none when resolutions are timed, so that each timing
    /// reflects a real lookup rather than a cache hit.
    pub cache_size: usize,
    pub num_concurrent_reqs: usize,
    pub timeout_millis: u64,
    /// Whether the resolver is wrapped in a [`TimedResolver`].
    pub timed: bool,
}

/// The resolver settings a configuration asks for.
pub fn resolver_settings(config: &PingerConfig) -> (r: ResolverSettings)
    ensures
        r.cache_size == (if config.measure_dns_stats { 0usize } else { 10usize }),
        r.num_concurrent_reqs == 10,
        r.timeout_millis == config.dns_timeout_millis,
        r.timed == config.measure_dns_stats,
{
    ResolverSettings {
        cache_size: if config.measure_dns_stats { 0 } else { 10 },
        num_concurrent_reqs: 10,
        timeout_millis: config.dns_timeout_millis,
        timed: config.measure_dns_stats,
    }
}

} // verus!
