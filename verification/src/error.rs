//! Error taxonomy of the render bridge.

use vstd::prelude::*;
use crate::elements::FactoryKind;

verus! {

/// Failure modes of the bridge, split by when they arise.
///
/// Construction-time failures (`BackendUnavailable`, `MissingNativeElement`)
/// are surfaced once; the caller falls back to the raw-copy bridge or aborts
/// playback setup.  Per-frame failures (`UnsupportedFormat`,
/// `MalformedSample`) are returned to the caller of frame extraction and
/// leave pipeline state untouched.
#[derive(Clone, Copy, Debug, PartialEq, Eq, Structural)]
pub enum RenderError {
    /// Required native elements or context wrapping failed while the bridge
    /// was constructed; permanent, the caller must select the fallback.
    BackendUnavailable,
    /// The named conversion or upload element could not be instantiated while
    /// the sink was built; no partial sink is left installed.
    MissingNativeElement(FactoryKind),
    /// The sink was already built once on this bridge instance; existing
    /// state is unchanged.
    AlreadyConfigured,
    /// The sample's pixel layout is ineligible for the active extraction
    /// path.
    UnsupportedFormat,
    /// The sample lacks usable capability or payload data.
    MalformedSample,
}

} // verus!
