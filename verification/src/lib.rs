pub mod buffer;
pub mod device;
pub mod error;
pub mod frame;
pub mod handles;
pub mod instance;
pub mod image;
pub mod pipeline;
pub mod swapchain;
pub mod uniform;

use vstd::prelude::*;

verus! {

/// Number of frame slots that may be in flight at once.
pub const MAX_FRAMES_IN_FLIGHT: usize = 2;


} // verus!
