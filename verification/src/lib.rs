//! Configuration of a push-based OTLP metrics export pipeline.
//!
//! A [`config::Config`] names a transport and a temporality; a
//! [`config::MetricsCommon`] holds histogram bucket boundaries and resource
//! attributes. [`transport`] resolves the transport, [`aggregation`] and
//! [`temporality`] make the two policies of the pipeline, and [`resources`]
//! makes its resource. [`pipeline`] puts them together: it decides whether a
//! pipeline is to be built and from what, and attaches what was built to a
//! [`pipeline::MetricsBuilder`]. [`sdk`] holds what is taken on trust from
//! the OpenTelemetry SDK.
//!
//! Metrics are exported over gRPC only. A configuration that asks for HTTP is
//! accepted as a value and rejected when it is applied.

pub mod aggregation;
pub mod config;
pub mod error;
pub mod instrument;
pub mod pipeline;
pub mod resources;
pub mod sdk;
pub mod temporality;
pub mod transport;
