//! Assembly of the export pipeline and its attachment to the metrics builder.
//!
//! Construction of a pipeline starts a recurring export task on the running
//! asynchronous runtime, which code here cannot do. So the work is in two
//! steps with the construction between them. [`Config::apply`] decides
//! whether a pipeline is to be built and says from what;
//! [`PendingPipeline::finish`] takes what construction returned and attaches
//! the exporter, or reports the failure. Either the whole pipeline is
//! attached or the builder is handed back as it came.

use vstd::prelude::*;
use opentelemetry::sdk::metrics::MeterProvider;
use opentelemetry::sdk::Resource;
use opentelemetry::metrics::MetricsError;
use crate::aggregation::{selector_with, AggregationSelectorView, CustomAggregationSelector};
use crate::config::{Config, ConfigView, GrpcExporter, MetricsCommon, MetricsCommonView};
use crate::error::{occurs_in, unsupported_transport_text, ExportError};
use crate::sdk::resource_attributes;
use crate::temporality::{selector_for, CustomTemporalitySelector};
use crate::transport::resolved;

verus! {

/// What a pipeline is built from.
#[derive(Debug)]
pub struct PipelinePlan {
    /// The aggregation policy.
    pub aggregation: CustomAggregationSelector,
    /// The temporality policy.
    pub temporality: CustomTemporalitySelector,
    /// The exporter that sends the metrics.
    pub exporter: GrpcExporter,
    /// The attributes of the emitting process.
    pub resource: Resource,
}

/// A [`PipelinePlan`] as a mathematical value.
pub struct PipelineView {
    pub aggregation: AggregationSelectorView,
    pub temporality: CustomTemporalitySelector,
    pub endpoint: Seq<char>,
    pub resource: Map<Seq<char>, Seq<char>>,
}

impl View for PipelinePlan {
    type V = PipelineView;

    open spec fn view(&self) -> PipelineView {
        PipelineView {
            aggregation: self.aggregation@,
            temporality: self.temporality,
            endpoint: self.exporter.endpoint@,
            resource: resource_attributes(self.resource),
        }
    }
}

/// The pipeline that a configuration asks for, if it asks for one: over the
/// resolved transport, with the configured buckets in their order and the
/// smallest and largest measurement recorded, with the configured
/// temporality, and with every configured resource attribute and no other.
pub open spec fn planned(config: ConfigView, metrics: MetricsCommonView) -> Option<PipelineView> {
    match resolved(config.transport) {
        Some(endpoint) => Some(
            PipelineView {
                aggregation: selector_with(metrics.buckets, true),
                temporality: selector_for(config.temporality),
                endpoint,
                resource: metrics.resources,
            },
        ),
        None => None,
    }
}

/// An exporter that pushes metrics: the handle of the built pipeline, with
/// what the pipeline was built from.
#[derive(Debug)]
pub struct PushExporter {
    /// What the pipeline was built from.
    pub plan: PipelinePlan,
    /// The handle of the built pipeline.
    pub provider: MeterProvider,
}

/// A [`PushExporter`] as a mathematical value.
pub struct PushExporterView {
    pub plan: PipelineView,
    pub provider: MeterProvider,
}

impl View for PushExporter {
    type V = PushExporterView;

    open spec fn view(&self) -> PushExporterView {
        PushExporterView { plan: self.plan@, provider: self.provider }
    }
}

/// Collects the exporters of the metrics that are being configured.
#[derive(Debug)]
pub struct MetricsBuilder {
    /// The attached exporters, in the order of their attachment.
    pub exporters: Vec<PushExporter>,
}

impl View for MetricsBuilder {
    type V = Seq<PushExporterView>;

    open spec fn view(&self) -> Seq<PushExporterView> {
        self.exporters@.map_values(|exporter: PushExporter| exporter@)
    }
}

impl Default for MetricsBuilder {
    fn default() -> (r: Self)
        ensures
            r@ == Seq::<PushExporterView>::empty(),
    {
        MetricsBuilder::new()
    }
}

impl MetricsBuilder {
    /// The builder without exporters.
    pub fn new() -> (r: Self)
        ensures
            r@ == Seq::<PushExporterView>::empty(),
    {
        MetricsBuilder { exporters: Vec::new() }
    }

    /// Attaches `exporter` after those that are attached already.
    pub fn with_push_exporter(self, exporter: PushExporter) -> (r: Self)
        ensures
            r@ == self@.push(exporter@),
    {
        let mut exporters = self.exporters;
        exporters.push(exporter);
        MetricsBuilder { exporters }
    }
}

/// A configuration that was not applied: the builder as it was handed in,
/// and the reason.
#[derive(Debug)]
pub struct Rejected {
    /// The builder, with nothing attached to it.
    pub builder: MetricsBuilder,
    /// Why nothing was attached.
    pub error: ExportError,
}

/// A configuration whose pipeline is yet to be built.
#[derive(Debug)]
pub struct PendingPipeline {
    /// The builder that the exporter will be attached to.
    pub builder: MetricsBuilder,
    /// What the pipeline is to be built from.
    pub plan: PipelinePlan,
}

impl PipelinePlan {
    /// The plan for `exporter` under `config`, with the buckets of
    /// `metrics_config` and with `resource` for its resource attributes.
    pub fn assemble(
        config: &Config,
        metrics_config: &MetricsCommon,
        exporter: GrpcExporter,
        resource: Resource,
    ) -> (plan: Self)
        ensures
            plan@ == (PipelineView {
                aggregation: selector_with(metrics_config.buckets@, true),
                temporality: selector_for(config.temporality),
                endpoint: exporter.endpoint@,
                resource: resource_attributes(resource),
            }),
            plan.exporter == exporter,
            plan.resource == resource,
    {
        PipelinePlan {
            aggregation: CustomAggregationSelector::new(metrics_config.buckets.clone(), true),
            temporality: CustomTemporalitySelector::from(config.temporality),
            exporter,
            resource,
        }
    }
}

impl Config {
    /// Decides what this configuration means for `builder`.
    ///
    /// Where the transport resolves to an exporter, the result is the pending
    /// pipeline: the builder, untouched so far, and the plan to build from.
    /// Where it resolves to none, the configuration is rejected: the builder
    /// comes back as it was, with [`ExportError::UnsupportedTransport`].
    pub fn apply(&self, builder: MetricsBuilder, metrics_config: &MetricsCommon) -> (r: Result<
        PendingPipeline,
        Rejected,
    >)
        ensures
            match planned(self@, metrics_config@) {
                Some(plan) => r matches Ok(pending) && pending.builder == builder && pending.plan@
                    == plan,
                None => r matches Err(rejected) && rejected.builder == builder && rejected.error
                    == ExportError::UnsupportedTransport,
            },
    {
        let exporter = self.exporter();
        match exporter.exporter {
            Some(exporter) => {
                let resource = metrics_config.resources.to_resource();
                let plan = PipelinePlan::assemble(self, metrics_config, exporter, resource);
                Ok(PendingPipeline { builder, plan })
            },
            None => Err(Rejected { builder, error: ExportError::UnsupportedTransport }),
        }
    }
}

/// What comes of a pending pipeline over `builder` with `plan` once
/// construction has returned `built`: the builder with the new exporter
/// attached last, or the error of construction.
pub open spec fn finished(
    builder: Seq<PushExporterView>,
    plan: PipelineView,
    built: Result<MeterProvider, MetricsError>,
) -> Result<Seq<PushExporterView>, ExportError> {
    match built {
        Ok(provider) => Ok(builder.push(PushExporterView { plan, provider })),
        Err(error) => Err(ExportError::Pipeline(error)),
    }
}

impl PendingPipeline {
    /// Takes what construction of the pipeline returned.
    ///
    /// A built pipeline is attached to the builder, after the exporters that
    /// were attached before. A failure rejects the configuration: the builder
    /// comes back as it was, with the error of construction unchanged.
    pub fn finish(self, built: Result<MeterProvider, MetricsError>) -> (r: Result<
        MetricsBuilder,
        Rejected,
    >)
        ensures
            match finished(self.builder@, self.plan@, built) {
                Ok(exporters) => r matches Ok(builder) && builder@ == exporters,
                Err(error) => r matches Err(rejected) && rejected.builder == self.builder
                    && rejected.error == error,
            },
    {
        match built {
            Ok(provider) => {
                let exporter = PushExporter { plan: self.plan, provider };
                Ok(self.builder.with_push_exporter(exporter))
            },
            Err(error) => Err(Rejected { builder: self.builder, error: ExportError::Pipeline(error) }),
        }
    }
}

/// What comes of applying `config` with `metrics` to `builder`, both steps
/// taken together, where construction of the pipeline, if it is asked for,
/// returns `built`.
pub open spec fn applied(
    config: ConfigView,
    metrics: MetricsCommonView,
    builder: Seq<PushExporterView>,
    built: Result<MeterProvider, MetricsError>,
) -> Result<Seq<PushExporterView>, ExportError> {
    match planned(config, metrics) {
        Some(plan) => finished(builder, plan, built),
        None => Err(ExportError::UnsupportedTransport),
    }
}

/// A configuration over gRPC whose pipeline was built is applied with
/// success: the builder has the exporters that it had and, after them, one
/// more, which holds the built pipeline and the plan for that configuration.
pub proof fn lemma_grpc_is_attached(
    config: ConfigView,
    metrics: MetricsCommonView,
    builder: Seq<PushExporterView>,
    provider: MeterProvider,
)
    requires
        config.transport is Grpc,
    ensures
        planned(config, metrics) is Some,
        applied(config, metrics, builder, Ok(provider)) == Ok::<Seq<PushExporterView>, ExportError>(
            builder.push(PushExporterView { plan: planned(config, metrics)->0, provider }),
        ),
{
}

/// A configuration over HTTP is rejected, whatever construction would have
/// returned, and the text of the error says that HTTP lacks support.
pub proof fn lemma_http_is_rejected(
    config: ConfigView,
    metrics: MetricsCommonView,
    builder: Seq<PushExporterView>,
    built: Result<MeterProvider, MetricsError>,
)
    requires
        config.transport is Http,
    ensures
        planned(config, metrics) is None,
        applied(config, metrics, builder, built) == Err::<Seq<PushExporterView>, ExportError>(
            ExportError::UnsupportedTransport,
        ),
        occurs_in("does not support http"@, unsupported_transport_text()),
{
    crate::error::lemma_unsupported_text_names_http();
}

/// Applying a configuration attaches one exporter after those that the
/// builder had, or fails: it never takes an exporter away, reorders the
/// exporters or attaches more than one.
pub proof fn lemma_attaches_all_or_nothing(
    config: ConfigView,
    metrics: MetricsCommonView,
    builder: Seq<PushExporterView>,
    built: Result<MeterProvider, MetricsError>,
)
    ensures
        match applied(config, metrics, builder, built) {
            Ok(after) => after.len() == builder.len() + 1 && after.drop_last() == builder,
            Err(error) => (error == ExportError::UnsupportedTransport) == (config.transport is Http),
        },
{
    match applied(config, metrics, builder, built) {
        Ok(after) => {
            assert(after.drop_last() =~= builder);
        },
        Err(error) => {},
    }
}

/// The planned pipeline has every configured resource attribute once, with
/// its configured value, and has no attribute that was not configured.
pub proof fn lemma_plan_keeps_resources(
    config: ConfigView,
    metrics: MetricsCommonView,
    key: Seq<char>,
    value: Seq<char>,
)
    requires
        config.transport is Grpc,
        metrics.resources.contains_pair(key, value),
    ensures
        planned(config, metrics) matches Some(plan) && plan.resource.contains_pair(key, value)
            && plan.resource.dom() == metrics.resources.dom() && forall|other: Seq<char>|
            plan.resource.contains_pair(key, other) ==> other == value,
{
}

} // verus!
