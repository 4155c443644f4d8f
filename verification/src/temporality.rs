//! Selection of the aggregation temporality from the configured choice.

use vstd::prelude::*;
use vstd::std_specs::convert::FromSpecImpl;
use crate::instrument::InstrumentKind;

verus! {

/// Whether reported values are cumulative since the start of the process or
/// the difference since the previous export.
#[derive(Clone, Copy, Debug, PartialEq, Eq, Structural)]
pub enum Temporality {
    /// Each export reports everything measured since the start.
    Cumulative,
    /// Each export reports what was measured since the export before it.
    Delta,
}

impl Default for Temporality {
    fn default() -> (r: Self)
        ensures
            r == Temporality::Cumulative,
    {
        Temporality::Cumulative
    }
}

/// The temporality policy of a pipeline: it answers with the configured
/// temporality for every kind of instrument.
#[derive(Clone, Copy, Debug, PartialEq, Eq, Structural)]
pub struct CustomTemporalitySelector(pub Temporality);

impl CustomTemporalitySelector {
    /// The temporality that the policy selects for `kind`.
    pub open spec fn spec_temporality(self, kind: InstrumentKind) -> Temporality {
        self.0
    }

    /// Selects the temporality for instruments of `kind`.
    #[verifier::when_used_as_spec(spec_temporality)]
    pub fn temporality(self, kind: InstrumentKind) -> (r: Temporality)
        ensures
            r == self.spec_temporality(kind),
    {
        self.0
    }
}

/// The policy that stands for the configured `choice`.
pub open spec fn selector_for(choice: Temporality) -> CustomTemporalitySelector {
    CustomTemporalitySelector(choice)
}

impl From<Temporality> for CustomTemporalitySelector {
    fn from(value: Temporality) -> (r: Self) {
        CustomTemporalitySelector(value)
    }
}

impl FromSpecImpl<Temporality> for CustomTemporalitySelector {
    open spec fn obeys_from_spec() -> bool {
        true
    }

    open spec fn from_spec(value: Temporality) -> Self {
        selector_for(value)
    }
}

/// Two selectors made from the same choice are the same policy: they are
/// equal, and they select the same temporality for every kind of instrument.
pub proof fn lemma_temporality_selector_deterministic(a: Temporality, b: Temporality)
    requires
        a == b,
    ensures
        selector_for(a) == selector_for(b),
        forall|kind: InstrumentKind|
            selector_for(a).spec_temporality(kind) == selector_for(b).spec_temporality(kind),
{
}

} // verus!
