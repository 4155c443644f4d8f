//! What the library takes on trust from the OpenTelemetry SDK: the types
//! that it carries, and the one call that it makes. Nothing here is proved;
//! each item says what it claims of the SDK.

use vstd::prelude::*;
use opentelemetry::metrics::MetricsError;
use opentelemetry::sdk::metrics::MeterProvider;
use opentelemetry::sdk::Resource;
use opentelemetry::KeyValue;
use crate::resources::{attributes_of, distinct_keys, pair_views};

verus! {

/// `opentelemetry::sdk::Resource`, the attributes of the entity that produces
/// telemetry. Its inside is not open to proof: what one holds is spoken of
/// through [`resource_attributes`].
#[verifier::external_type_specification]
#[verifier::external_body]
pub struct ExResource(Resource);

/// `opentelemetry::sdk::metrics::MeterProvider`, the handle of a built
/// pipeline. It is carried through unread.
#[verifier::external_type_specification]
#[verifier::external_body]
pub struct ExMeterProvider(MeterProvider);

/// `opentelemetry::metrics::MetricsError`, the error of the metrics API. It is
/// carried through unread, so that a failure of pipeline construction reaches
/// the caller as construction reported it.
#[verifier::external_type_specification]
#[verifier::external_body]
pub struct ExMetricsError(MetricsError);

/// What a resource holds: each of its attribute keys, with the text of the
/// value that the resource has for it.
pub uninterp spec fn resource_attributes(resource: Resource) -> Map<Seq<char>, Seq<char>>;

/// The resource that `opentelemetry::sdk::Resource::new` makes of the pairs,
/// each handed to it as the `opentelemetry::KeyValue` that `KeyValue::new`
/// makes of a copy of its two strings. `Resource::new` starts from a resource
/// without attributes and enters the pairs one after the other, each under
/// its key with its string as the value. No key occurs twice here, so the
/// result holds every pair, and nothing besides.
#[verifier::external_body]
pub(crate) fn resource_from_pairs(pairs: &Vec<(String, String)>) -> (resource: Resource)
    requires
        distinct_keys(pair_views(pairs@)),
    ensures
        resource_attributes(resource) == attributes_of(pair_views(pairs@)),
{
    Resource::new(pairs.iter().map(|pair| KeyValue::new(pair.0.clone(), pair.1.clone())))
}

} // verus!
