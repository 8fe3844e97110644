use vstd::prelude::*;
use std::time::{Duration, Instant};

verus! {

/// The measurements of one pipeline run.
#[derive(Debug, Clone, Copy, PartialEq, Eq, Structural)]
pub struct PipelineMetrics {
    pub total_latency_ms: u64,
    pub xtts_latency_ms: u64,
    pub audio_duration_ms: u64,
    pub cache_hit: bool,
}

/// Running totals of the pipeline's runs.
#[derive(Debug, Clone, Copy, PartialEq, Eq, Structural)]
pub struct MetricsCollector {
    pub total_requests: u64,
    pub total_latency_ms: u64,
    pub xtts_total_ms: u64,
    pub cache_hits: u64,
    pub errors: u64,
}

/// All totals zero.
pub open spec fn zero_metrics() -> MetricsCollector {
    MetricsCollector { total_requests: 0, total_latency_ms: 0, xtts_total_ms: 0, cache_hits: 0, errors: 0 }
}

/// The totals after one more run.
pub open spec fn with_request(c: MetricsCollector, m: PipelineMetrics) -> MetricsCollector {
    MetricsCollector {
        total_requests: (c.total_requests + 1) as u64,
        total_latency_ms: (c.total_latency_ms + m.total_latency_ms) as u64,
        xtts_total_ms: (c.xtts_total_ms + m.xtts_latency_ms) as u64,
        cache_hits: if m.cache_hit { (c.cache_hits + 1) as u64 } else { c.cache_hits },
        errors: c.errors,
    }
}

/// One more run fits in the totals.
pub open spec fn request_fits(c: MetricsCollector, m: PipelineMetrics) -> bool {
    &&& c.total_requests < u64::MAX
    &&& c.total_latency_ms + m.total_latency_ms <= u64::MAX
    &&& c.xtts_total_ms + m.xtts_latency_ms <= u64::MAX
    &&& m.cache_hit ==> c.cache_hits < u64::MAX
}

impl MetricsCollector {
    /// All totals zero.
    pub fn new() -> (c: Self)
        ensures
            c == zero_metrics(),
    {
        MetricsCollector { total_requests: 0, total_latency_ms: 0, xtts_total_ms: 0, cache_hits: 0, errors: 0 }
    }

    /// Adds one run.
    pub fn record_request(&mut self, metrics: PipelineMetrics)
        requires
            request_fits(*old(self), metrics),
        ensures
            *final(self) == with_request(*old(self), metrics),
    {
        self.total_requests = self.total_requests + 1;
        self.total_latency_ms = self.total_latency_ms + metrics.total_latency_ms;
        self.xtts_total_ms = self.xtts_total_ms + metrics.xtts_latency_ms;
        if metrics.cache_hit {
            self.cache_hits = self.cache_hits + 1;
        }
    }

    /// Adds one failed run.
    pub fn record_error(&mut self)
        requires
            old(self).errors < u64::MAX,
        ensures
            *final(self) == (MetricsCollector { errors: (old(self).errors + 1) as u64, ..*old(self) }),
    {
        self.errors = self.errors + 1;
    }

    /// Sets every total back to zero.
    pub fn reset(&mut self)
        ensures
            *final(self) == zero_metrics(),
    {
        *self = Self::new();
    }
}

impl Default for MetricsCollector {
    fn default() -> (c: Self)
        ensures
            c == zero_metrics(),
    {
        Self::new()
    }
}

/// Recording runs counts each one once, and the cache hits never exceed
/// the runs.
pub proof fn law_requests_counted(c: MetricsCollector, m: PipelineMetrics)
    requires
        request_fits(c, m),
        c.cache_hits <= c.total_requests,
    ensures
        with_request(c, m).total_requests == c.total_requests + 1,
        with_request(c, m).cache_hits <= with_request(c, m).total_requests,
        with_request(c, m).errors == c.errors,
{
}

/// Calls `Instant::now`: the clock's reading, of which nothing is stated.
#[verifier::external_body]
fn instant_now() -> Instant {
    Instant::now()
}

/// Calls `Instant::elapsed`: time since the reading, of which nothing is
/// stated.
#[verifier::external_body]
fn instant_elapsed(start: &Instant) -> Duration {
    start.elapsed()
}

/// Calls `Duration::as_millis` and keeps the low 64 bits: whole
/// milliseconds, which fit unless the duration exceeds half a billion years.
#[verifier::external_body]
fn duration_millis(d: &Duration) -> u64 {
    d.as_millis() as u64
}

/// Measures how long a pipeline stage takes.
pub struct LatencyTimer {
    start: Instant,
}

impl LatencyTimer {
    /// Starts measuring now.
    pub fn start() -> Self {
        LatencyTimer { start: instant_now() }
    }

    /// Milliseconds since the start.
    pub fn elapsed_ms(&self) -> u64 {
        let d = instant_elapsed(&self.start);
        duration_millis(&d)
    }

    /// Time since the start.
    pub fn elapsed(&self) -> Duration {
        instant_elapsed(&self.start)
    }
}

#[verifier::external_type_specification]
#[verifier::external_body]
pub struct ExInstant(std::time::Instant);

} // verus!
