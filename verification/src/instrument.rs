//! The kinds of instrument that the selectors of a metrics pipeline tell apart.

use vstd::prelude::*;

verus! {

/// What an instrument records, and whether it does so synchronously or when
/// it is observed.
#[derive(Clone, Copy, Debug, PartialEq, Eq, Structural)]
pub enum InstrumentKind {
    /// Increasing values, recorded synchronously.
    Counter,
    /// Increasing and decreasing values, recorded synchronously.
    UpDownCounter,
    /// A distribution of values, recorded synchronously.
    Histogram,
    /// Increasing values, recorded in a callback.
    ObservableCounter,
    /// Increasing and decreasing values, recorded in a callback.
    ObservableUpDownCounter,
    /// Current values, recorded in a callback.
    ObservableGauge,
}

} // verus!
