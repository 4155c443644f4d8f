use otlp_metrics::aggregation::{Aggregation, CustomAggregationSelector};
use otlp_metrics::instrument::InstrumentKind;
use otlp_metrics::temporality::{CustomTemporalitySelector, Temporality};

const KINDS: [InstrumentKind; 6] = [
    InstrumentKind::Counter,
    InstrumentKind::UpDownCounter,
    InstrumentKind::Histogram,
    InstrumentKind::ObservableCounter,
    InstrumentKind::ObservableUpDownCounter,
    InstrumentKind::ObservableGauge,
];

fn bits(values: &[f64]) -> Vec<u64> {
    values.iter().map(|value| value.to_bits()).collect()
}

#[test]
fn boundaries_are_kept_in_number_and_order() {
    let supplied = [0.1, 0.5, 1.0, 2.5, 5.0];
    let selector = CustomAggregationSelector::new(bits(&supplied), true);
    assert_eq!(selector.boundaries.len(), supplied.len());
    for (kept, given) in selector.boundaries.iter().zip(supplied.iter()) {
        assert_eq!(f64::from_bits(*kept), *given);
    }
    assert!(selector.record_min_max);
}

#[test]
fn boundaries_are_not_sorted_or_deduplicated() {
    let supplied = bits(&[5.0, 1.0, 1.0, -3.0, 0.0, -0.0, f64::INFINITY]);
    let selector = CustomAggregationSelector::new(supplied.clone(), false);
    assert_eq!(selector.boundaries, supplied);
    assert!(!selector.record_min_max);
}

#[test]
fn a_boundary_keeps_all_its_bits() {
    let supplied = vec![f64::NAN.to_bits(), 0x7ff8_0000_0000_0001, u64::MAX, 0, 1];
    let selector = CustomAggregationSelector::new(supplied.clone(), true);
    assert_eq!(selector.boundaries, supplied);
    match selector.aggregation(InstrumentKind::Histogram) {
        Aggregation::ExplicitBucketHistogram { boundaries, .. } => assert_eq!(boundaries, supplied),
        other => panic!("unexpected aggregation: {:?}", other),
    }
}

#[test]
fn no_boundaries_give_a_histogram_without_boundaries() {
    let selector = CustomAggregationSelector::new(Vec::new(), true);
    match selector.aggregation(InstrumentKind::Histogram) {
        Aggregation::ExplicitBucketHistogram { boundaries, record_min_max } => {
            assert!(boundaries.is_empty());
            assert!(record_min_max);
        }
        other => panic!("unexpected aggregation: {:?}", other),
    }
}

#[test]
fn histograms_get_the_boundaries_of_the_selector() {
    let supplied = bits(&[0.1, 0.5, 1.0]);
    for flag in [true, false] {
        let selector = CustomAggregationSelector::new(supplied.clone(), flag);
        match selector.aggregation(InstrumentKind::Histogram) {
            Aggregation::ExplicitBucketHistogram { boundaries, record_min_max } => {
                assert_eq!(boundaries, supplied);
                assert_eq!(record_min_max, flag);
            }
            other => panic!("unexpected aggregation: {:?}", other),
        }
    }
}

#[test]
fn counters_are_summed_and_gauges_keep_the_last_value() {
    let selector = CustomAggregationSelector::new(bits(&[1.0]), true);
    for kind in [
        InstrumentKind::Counter,
        InstrumentKind::UpDownCounter,
        InstrumentKind::ObservableCounter,
        InstrumentKind::ObservableUpDownCounter,
    ] {
        assert!(matches!(selector.aggregation(kind), Aggregation::Sum));
    }
    assert!(matches!(selector.aggregation(InstrumentKind::ObservableGauge), Aggregation::LastValue));
}

#[test]
fn a_copy_of_a_selector_selects_the_same() {
    let selector = CustomAggregationSelector::new(bits(&[3.0, 1.0]), true);
    let copy = selector.clone();
    assert_eq!(copy.boundaries, selector.boundaries);
    assert_eq!(copy.record_min_max, selector.record_min_max);
}

#[test]
fn temporality_selector_answers_with_the_configured_choice() {
    for choice in [Temporality::Cumulative, Temporality::Delta] {
        let selector = CustomTemporalitySelector::from(choice);
        assert_eq!(selector, CustomTemporalitySelector(choice));
        for kind in KINDS {
            assert_eq!(selector.temporality(kind), choice);
        }
    }
}

#[test]
fn temporality_selector_is_deterministic() {
    for choice in [Temporality::Cumulative, Temporality::Delta] {
        let first = CustomTemporalitySelector::from(choice);
        let second = CustomTemporalitySelector::from(choice);
        assert_eq!(first, second);
        for kind in KINDS {
            assert_eq!(first.temporality(kind), second.temporality(kind));
        }
    }
}

#[test]
fn cumulative_and_delta_are_told_apart() {
    let cumulative = CustomTemporalitySelector::from(Temporality::Cumulative);
    let delta = CustomTemporalitySelector::from(Temporality::Delta);
    assert_ne!(cumulative, delta);
    assert_ne!(
        cumulative.temporality(InstrumentKind::Counter),
        delta.temporality(InstrumentKind::Counter)
    );
}

#[test]
fn the_default_temporality_is_cumulative() {
    assert_eq!(Temporality::default(), Temporality::Cumulative);
}
