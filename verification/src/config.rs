//! What is configured: the transport and the temporality of the export, and
//! the settings that every metrics exporter shares.

use vstd::prelude::*;
use crate::resources::ResourceMap;
use crate::temporality::Temporality;

verus! {

/// The settings of an export over gRPC.
#[derive(Debug)]
pub struct GrpcExporter {
    /// Where the collector listens.
    pub endpoint: String,
}

/// The settings of an export over HTTP.
#[derive(Debug)]
pub struct HttpExporter {
    /// Where the collector listens.
    pub endpoint: String,
}

impl Clone for GrpcExporter {
    fn clone(&self) -> (r: Self)
        ensures
            r == *self,
    {
        GrpcExporter { endpoint: self.endpoint.clone() }
    }
}

impl Clone for HttpExporter {
    fn clone(&self) -> (r: Self)
        ensures
            r == *self,
    {
        HttpExporter { endpoint: self.endpoint.clone() }
    }
}

/// The transport that the configuration selects, with its settings.
#[derive(Debug)]
pub enum Transport {
    Grpc(GrpcExporter),
    Http(HttpExporter),
}

/// A [`Transport`] as a mathematical value.
pub enum TransportView {
    Grpc { endpoint: Seq<char> },
    Http { endpoint: Seq<char> },
}

impl View for Transport {
    type V = TransportView;

    open spec fn view(&self) -> TransportView {
        match self {
            Transport::Grpc(grpc) => TransportView::Grpc { endpoint: grpc.endpoint@ },
            Transport::Http(http) => TransportView::Http { endpoint: http.endpoint@ },
        }
    }
}

/// The configuration of the export.
#[derive(Debug)]
pub struct Config {
    /// The selected transport.
    pub transport: Transport,
    /// Whether cumulative values or differences are reported.
    pub temporality: Temporality,
}

/// A [`Config`] as a mathematical value.
pub struct ConfigView {
    pub transport: TransportView,
    pub temporality: Temporality,
}

impl View for Config {
    type V = ConfigView;

    open spec fn view(&self) -> ConfigView {
        ConfigView { transport: self.transport@, temporality: self.temporality }
    }
}

/// The settings that all metrics exporters share.
#[derive(Debug)]
pub struct MetricsCommon {
    /// The bucket boundaries of histograms, in order, each as the 64 bits of
    /// its IEEE 754 double. They are taken as they are: neither sorted nor
    /// checked for duplicates.
    pub buckets: Vec<u64>,
    /// The resource attributes.
    pub resources: ResourceMap,
}

/// A [`MetricsCommon`] as a mathematical value.
pub struct MetricsCommonView {
    pub buckets: Seq<u64>,
    pub resources: Map<Seq<char>, Seq<char>>,
}

impl View for MetricsCommon {
    type V = MetricsCommonView;

    open spec fn view(&self) -> MetricsCommonView {
        MetricsCommonView { buckets: self.buckets@, resources: self.resources@ }
    }
}

} // verus!
