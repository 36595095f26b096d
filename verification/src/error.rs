use vstd::prelude::*;

verus! {

/// A physical device failed one of the suitability criteria.  The payload
/// names the missing capability.
#[derive(Clone, Copy, Debug)]
pub struct SuitabilityError(pub &'static str);

impl SuitabilityError {
    /// The description of the missing capability.
    pub fn message(&self) -> (r: &'static str)
        ensures
            r@ == self.0@,
    {
        self.0
    }
}

/// The fatal conditions the renderer can report.  Transient presentation
/// conditions (a surface that is out of date or suboptimal) are not errors:
/// they are recovered locally by rebuilding the swapchain.
#[derive(Clone, Copy, Debug, PartialEq, Eq, Structural)]
pub enum RenderError {
    /// No physical device passed every suitability criterion.
    NoSuitableDevice,
    /// The diagnostics layer was requested but the driver does not offer it.
    ValidationLayerUnavailable,
    /// No memory type satisfies the requested property and usage combination.
    NoSuitableMemoryType,
    /// None of the candidate formats supports the requested features.
    NoSupportedFormat,
    /// An image layout transition outside the supported set was requested.
    UnsupportedLayoutTransition,
    /// The texture file could not be decoded into pixels.
    TextureDecodeFailed,
    /// The swapchain resources do not have one view and one framebuffer per image.
    MismatchedSwapchainResources,
}

} // verus!
