//! The Prometheus side of the server's metrics.
use vstd::prelude::*;

verus! {

/// The endpoint that serves the metrics in the Prometheus text format.
pub struct PrometheusEndpoint;

/// Records the start time and build information of the server.
pub struct MetricsService;

} // verus!
