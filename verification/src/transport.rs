//! Resolution of the configured transport into the exporter that a metrics
//! pipeline can be built on.

use vstd::prelude::*;
use vstd::std_specs::convert::FromSpecImpl;
use crate::config::{Config, GrpcExporter, HttpExporter, Transport, TransportView};

verus! {

/// What the configured transport resolves to for metrics: the gRPC exporter,
/// or nothing. Metrics are not exported over HTTP, so an HTTP exporter
/// resolves to nothing; that absence is how the lack of support is told.
#[derive(Debug)]
pub struct MetricExporterBuilder {
    /// The gRPC exporter, where the transport is gRPC.
    pub exporter: Option<GrpcExporter>,
}

impl View for MetricExporterBuilder {
    /// The endpoint of the gRPC exporter, if there is one.
    type V = Option<Seq<char>>;

    open spec fn view(&self) -> Option<Seq<char>> {
        match self.exporter {
            Some(grpc) => Some(grpc.endpoint@),
            None => None,
        }
    }
}

/// The endpoint of the exporter that `transport` resolves to: that of a gRPC
/// transport, and none for an HTTP transport.
pub open spec fn resolved(transport: TransportView) -> Option<Seq<char>> {
    match transport {
        TransportView::Grpc { endpoint } => Some(endpoint),
        TransportView::Http { endpoint } => None,
    }
}

impl From<GrpcExporter> for MetricExporterBuilder {
    fn from(exporter: GrpcExporter) -> (r: Self) {
        MetricExporterBuilder { exporter: Some(exporter) }
    }
}

impl FromSpecImpl<GrpcExporter> for MetricExporterBuilder {
    open spec fn obeys_from_spec() -> bool {
        true
    }

    open spec fn from_spec(exporter: GrpcExporter) -> Self {
        MetricExporterBuilder { exporter: Some(exporter) }
    }
}

impl From<HttpExporter> for MetricExporterBuilder {
    fn from(_exporter: HttpExporter) -> (r: Self) {
        MetricExporterBuilder { exporter: None }
    }
}

impl FromSpecImpl<HttpExporter> for MetricExporterBuilder {
    open spec fn obeys_from_spec() -> bool {
        true
    }

    open spec fn from_spec(_exporter: HttpExporter) -> Self {
        MetricExporterBuilder { exporter: None }
    }
}

impl Config {
    /// Resolves the configured transport. This never fails: a transport
    /// without support resolves to nothing, and the caller decides what that
    /// means.
    pub fn exporter(&self) -> (r: MetricExporterBuilder)
        ensures
            r.exporter == match self.transport {
                Transport::Grpc(grpc) => Some(grpc),
                Transport::Http(_) => None::<GrpcExporter>,
            },
            r@ == resolved(self.transport@),
    {
        match &self.transport {
            Transport::Grpc(grpc) => MetricExporterBuilder::from(grpc.clone()),
            Transport::Http(http) => MetricExporterBuilder::from(http.clone()),
        }
    }
}

} // verus!
