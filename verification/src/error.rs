//! Why a configuration was not applied.

use vstd::prelude::*;
use vstd::string::to_string_from_display_ensures;
use opentelemetry::metrics::MetricsError;

verus! {

/// The failures of applying a configuration.
#[derive(Debug)]
pub enum ExportError {
    /// The configured transport is one over which metrics are not exported.
    UnsupportedTransport,
    /// Construction of the pipeline failed, with the error that it reported.
    Pipeline(MetricsError),
}

/// The text that tells a user that the transport is not supported.
pub open spec fn unsupported_transport_text() -> Seq<char> {
    "otlp metric export does not support http yet"@
}

/// `needle` occurs in `text` as a run of consecutive characters.
pub open spec fn occurs_in(needle: Seq<char>, text: Seq<char>) -> bool {
    exists|at: int|
        0 <= at && at + needle.len() <= text.len() && #[trigger] text.subrange(
            at,
            at + needle.len(),
        ) == needle
}

impl ExportError {
    /// The text of the error, as it is shown to a user.
    pub fn message(&self) -> (text: String)
        ensures
            match self {
                ExportError::UnsupportedTransport => text@ == unsupported_transport_text(),
                ExportError::Pipeline(error) => to_string_from_display_ensures::<MetricsError>(
                    error,
                    text,
                ),
            },
    {
        match self {
            ExportError::UnsupportedTransport => {
                "otlp metric export does not support http yet".to_string()
            },
            ExportError::Pipeline(error) => error.to_string(),
        }
    }
}

/// The text for an unsupported transport says that HTTP is what lacks support.
pub proof fn lemma_unsupported_text_names_http()
    ensures
        occurs_in("does not support http"@, unsupported_transport_text()),
{
    reveal_strlit("does not support http");
    reveal_strlit("otlp metric export does not support http yet");
    let needle = "does not support http"@;
    let text = unsupported_transport_text();
    assert(needle.len() == 21);
    assert(text.len() == 44);
    let at: int = 19;
    assert(text.subrange(at, at + needle.len()) =~= needle);
}

} // verus!
