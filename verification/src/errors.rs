//! The failure taxonomy of the initialization chain.  Every failure is fatal
//! to the caller: the chain never retries, and the top-level handler is
//! expected to log the description and stop.

use vstd::prelude::*;

verus! {

/// One error for each way the bootstrap chain can fail.  Each step of the
/// chain reports exactly one of these, and no step leaves a partially
/// constructed object behind when it does.
#[derive(Clone, Copy, Debug, PartialEq, Eq, Structural)]
pub enum RenderError {
    /// A requested instance layer or extension is not offered by the host.
    InitializationError,
    /// Adapter enumeration returned no hardware at all.
    EnumerationError,
    /// No queue family of the chosen adapter covers the required capabilities.
    CapabilityError,
    /// The device request names a layer or extension the adapter lacks, or
    /// breaks the one-queue-at-full-priority policy.
    DeviceCreationError,
    /// The window system cannot present from the chosen adapter and family.
    PresentationUnsupportedError,
    /// A created surface turned out not to be usable with the chosen family.
    SurfaceIncompatibleError,
}

impl RenderError {
    /// The descriptive message the top-level handler logs before stopping.
    pub fn describe(&self) -> (r: &'static str)
        ensures
            *self is InitializationError ==> r@ == "a requested instance layer or extension is unavailable"@,
            *self is EnumerationError ==> r@ == "no graphics adapters were enumerated"@,
            *self is CapabilityError ==> r@ == "no queue family offers the required capabilities"@,
            *self is DeviceCreationError ==> r@ == "the logical device request was rejected"@,
            *self is PresentationUnsupportedError ==> r@ == "the window system cannot present from the chosen queue family"@,
            *self is SurfaceIncompatibleError ==> r@ == "the created surface is not usable with the chosen queue family"@,
    {
        match self {
            RenderError::InitializationError => "a requested instance layer or extension is unavailable",
            RenderError::EnumerationError => "no graphics adapters were enumerated",
            RenderError::CapabilityError => "no queue family offers the required capabilities",
            RenderError::DeviceCreationError => "the logical device request was rejected",
            RenderError::PresentationUnsupportedError => "the window system cannot present from the chosen queue family",
            RenderError::SurfaceIncompatibleError => "the created surface is not usable with the chosen queue family",
        }
    }
}

} // verus!
