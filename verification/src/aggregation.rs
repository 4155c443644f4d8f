//! Selection of the aggregation from the configured histogram buckets.
//!
//! A bucket boundary is a double-precision number. It is held here as the 64
//! bits of its IEEE 754 encoding, so that a boundary is carried and compared
//! exactly and none is rounded, reordered or dropped on the way.

use vstd::prelude::*;
use crate::instrument::InstrumentKind;

verus! {

/// How recorded measurements are summarized.
#[derive(Debug)]
pub enum Aggregation {
    /// The arithmetic sum of the measurements.
    Sum,
    /// The last measurement made.
    LastValue,
    /// A histogram with explicit bucket boundaries.
    ExplicitBucketHistogram {
        /// The upper bounds of the buckets, each as the bits of its double.
        boundaries: Vec<u64>,
        /// Whether the smallest and the largest measurement are recorded.
        record_min_max: bool,
    },
}

/// An [`Aggregation`] as a mathematical value.
pub enum AggregationView {
    Sum,
    LastValue,
    ExplicitBucketHistogram { boundaries: Seq<u64>, record_min_max: bool },
}

impl View for Aggregation {
    type V = AggregationView;

    open spec fn view(&self) -> AggregationView {
        match self {
            Aggregation::Sum => AggregationView::Sum,
            Aggregation::LastValue => AggregationView::LastValue,
            Aggregation::ExplicitBucketHistogram { boundaries, record_min_max } => {
                AggregationView::ExplicitBucketHistogram {
                    boundaries: boundaries@,
                    record_min_max: *record_min_max,
                }
            },
        }
    }
}

/// The aggregation policy of a pipeline: histograms get explicit buckets with
/// the policy's boundaries, the counters are summed, and of a gauge the last
/// value is kept.
#[derive(Debug)]
pub struct CustomAggregationSelector {
    /// The bucket boundaries for histograms, in the order in which they were
    /// supplied, each as the bits of its double.
    pub boundaries: Vec<u64>,
    /// Whether histograms record the smallest and the largest measurement.
    pub record_min_max: bool,
}

/// A [`CustomAggregationSelector`] as a mathematical value.
pub struct AggregationSelectorView {
    pub boundaries: Seq<u64>,
    pub record_min_max: bool,
}

impl AggregationSelectorView {
    /// The aggregation that the policy selects for `kind`.
    pub open spec fn aggregation(self, kind: InstrumentKind) -> AggregationView {
        match kind {
            InstrumentKind::Counter
            | InstrumentKind::UpDownCounter
            | InstrumentKind::ObservableCounter
            | InstrumentKind::ObservableUpDownCounter => AggregationView::Sum,
            InstrumentKind::ObservableGauge => AggregationView::LastValue,
            InstrumentKind::Histogram => AggregationView::ExplicitBucketHistogram {
                boundaries: self.boundaries,
                record_min_max: self.record_min_max,
            },
        }
    }
}

impl View for CustomAggregationSelector {
    type V = AggregationSelectorView;

    open spec fn view(&self) -> AggregationSelectorView {
        AggregationSelectorView { boundaries: self.boundaries@, record_min_max: self.record_min_max }
    }
}

/// The policy that is made of `boundaries` and `record_min_max`: it holds the
/// boundaries as they are.
pub open spec fn selector_with(boundaries: Seq<u64>, record_min_max: bool) -> AggregationSelectorView {
    AggregationSelectorView { boundaries, record_min_max }
}

impl Clone for CustomAggregationSelector {
    fn clone(&self) -> (r: Self)
        ensures
            r@ == self@,
    {
        CustomAggregationSelector {
            boundaries: self.boundaries.clone(),
            record_min_max: self.record_min_max,
        }
    }
}

impl CustomAggregationSelector {
    /// The policy with the given bucket boundaries, kept exactly as supplied:
    /// nothing is sorted, merged or checked.
    pub fn new(boundaries: Vec<u64>, record_min_max: bool) -> (r: Self)
        ensures
            r@ == selector_with(boundaries@, record_min_max),
    {
        CustomAggregationSelector { boundaries, record_min_max }
    }

    /// Selects the aggregation for instruments of `kind`.
    pub fn aggregation(&self, kind: InstrumentKind) -> (r: Aggregation)
        ensures
            r@ == self@.aggregation(kind),
    {
        match kind {
            InstrumentKind::Counter
            | InstrumentKind::UpDownCounter
            | InstrumentKind::ObservableCounter
            | InstrumentKind::ObservableUpDownCounter => Aggregation::Sum,
            InstrumentKind::ObservableGauge => Aggregation::LastValue,
            InstrumentKind::Histogram => Aggregation::ExplicitBucketHistogram {
                boundaries: self.boundaries.clone(),
                record_min_max: self.record_min_max,
            },
        }
    }
}

/// A policy made from a sequence of boundaries refers to exactly those
/// boundaries, as many as were supplied and in the order supplied, both in
/// itself and in the aggregation that it selects for histograms.
pub proof fn lemma_selector_keeps_boundaries(boundaries: Seq<u64>, record_min_max: bool)
    ensures
        ({
            let selector = selector_with(boundaries, record_min_max);
            &&& selector.boundaries.len() == boundaries.len()
            &&& forall|i: int|
                0 <= i < boundaries.len() ==> selector.boundaries[i] == boundaries[i]
            &&& selector.aggregation(InstrumentKind::Histogram)
                == (AggregationView::ExplicitBucketHistogram { boundaries, record_min_max })
        }),
{
}

} // verus!
