use vstd::prelude::*;

use crate::device::QueueFamilyIndices;
use crate::error::RenderError;

verus! {

/// Surface format code preferred for the presentable images
/// (`VK_FORMAT_B8G8R8A8_SRGB`).
pub const FORMAT_B8G8R8A8_SRGB: u32 = 50;

/// Color space code preferred for the presentable images
/// (`VK_COLOR_SPACE_SRGB_NONLINEAR_KHR`).
pub const COLOR_SPACE_SRGB_NONLINEAR: u32 = 0;

/// Present mode code for low-latency triple buffering
/// (`VK_PRESENT_MODE_MAILBOX_KHR`).
pub const PRESENT_MODE_MAILBOX: u32 = 1;

/// Present mode code for guaranteed vsync (`VK_PRESENT_MODE_FIFO_KHR`).
pub const PRESENT_MODE_FIFO: u32 = 2;

/// A surface format paired with its color space, as the surface reports them.
#[derive(Clone, Copy, Debug, PartialEq, Eq, Structural)]
pub struct SurfaceFormat {
    pub format: u32,
    pub color_space: u32,
}

/// A width and height in pixels.
#[derive(Clone, Copy, Debug, PartialEq, Eq, Structural)]
pub struct Extent2d {
    pub width: u32,
    pub height: u32,
}

/// What the surface reports about the swapchains it can back.
#[derive(Clone, Copy, Debug, PartialEq, Eq, Structural)]
pub struct SurfaceCapabilities {
    pub min_image_count: u32,
    /// Zero means the surface puts no upper bound on the image count.
    pub max_image_count: u32,
    /// Width `u32::MAX` is the sentinel for an extent the surface leaves to
    /// the window.
    pub current_extent: Extent2d,
    pub min_image_extent: Extent2d,
    pub max_image_extent: Extent2d,
}

/// Everything the surface reports that swapchain planning reads: its
/// capabilities, the formats it offers and the present modes it offers.
#[derive(Clone, Debug)]
pub struct SwapchainSupport {
    pub capabilities: SurfaceCapabilities,
    pub formats: Vec<SurfaceFormat>,
    pub present_modes: Vec<u32>,
}

/// How the presentable images are shared between the graphics queue and the
/// present queue.
#[derive(Clone, Copy, Debug, PartialEq, Eq, Structural)]
pub enum SharingMode {
    Exclusive,
    Concurrent,
}

/// The preferred (format, color space) pair.
pub open spec fn is_preferred_format(f: SurfaceFormat) -> bool {
    f.format == FORMAT_B8G8R8A8_SRGB && f.color_space == COLOR_SPACE_SRGB_NONLINEAR
}

/// `r` is the first preferred format of `formats`, or the first format
/// offered when none is preferred.
pub open spec fn is_chosen_format(formats: Seq<SurfaceFormat>, r: SurfaceFormat) -> bool {
    if exists|i: int| 0 <= i < formats.len() && is_preferred_format(formats[i]) {
        exists|i: int|
            {
                &&& 0 <= i < formats.len()
                &&& is_preferred_format(formats[i])
                &&& r == formats[i]
                &&& forall|j: int| 0 <= j < i ==> !is_preferred_format(formats[j])
            }
    } else {
        formats.len() > 0 && r == formats[0]
    }
}

/// The present mode selection rule: low-latency triple buffering when the
/// surface offers it, else the guaranteed vsync mode.
pub open spec fn spec_present_mode(modes: Seq<u32>) -> u32 {
    if modes.contains(PRESENT_MODE_MAILBOX) {
        PRESENT_MODE_MAILBOX
    } else {
        PRESENT_MODE_FIFO
    }
}

/// `x` clamped into `[lo, hi]`.
pub open spec fn clamp_u32(x: u32, lo: u32, hi: u32) -> u32 {
    if x < lo {
        lo
    } else if x > hi {
        hi
    } else {
        x
    }
}

/// The extent selection rule: the surface's current extent when it is
/// concrete, else the window size clamped into the surface's bounds.
pub open spec fn spec_extent(cap: SurfaceCapabilities, window: Extent2d) -> Extent2d {
    if cap.current_extent.width != u32::MAX {
        cap.current_extent
    } else {
        Extent2d {
            width: clamp_u32(window.width, cap.min_image_extent.width, cap.max_image_extent.width),
            height: clamp_u32(
                window.height,
                cap.min_image_extent.height,
                cap.max_image_extent.height,
            ),
        }
    }
}

/// The image count selection rule: one more than the minimum, capped at the
/// maximum unless the maximum is zero (unbounded).
pub open spec fn spec_image_count(min_image_count: int, max_image_count: int) -> int {
    if max_image_count != 0 && min_image_count + 1 > max_image_count {
        max_image_count
    } else {
        min_image_count + 1
    }
}

/// The sharing mode rule: concurrent across the two queue families only when
/// they differ.
pub open spec fn spec_sharing_mode(indices: QueueFamilyIndices) -> SharingMode {
    if indices.graphics != indices.present {
        SharingMode::Concurrent
    } else {
        SharingMode::Exclusive
    }
}

/// The queue families named in the swapchain: both when they differ, none
/// when the one family owns the images exclusively.
pub open spec fn spec_share_list(indices: QueueFamilyIndices) -> Seq<u32> {
    if indices.graphics != indices.present {
        seq![indices.graphics, indices.present]
    } else {
        Seq::<u32>::empty()
    }
}

/// Select the surface format: the preferred (format, color space) pair when
/// the surface offers it, else the first format offered.
pub fn get_swapchain_surface_format(formats: &Vec<SurfaceFormat>) -> (r: SurfaceFormat)
    requires
        formats@.len() > 0,
    ensures
        is_chosen_format(formats@, r),
{
    let mut k: usize = 0;
    while k < formats.len()
        invariant
            k <= formats@.len(),
            formats@.len() > 0,
            forall|j: int| 0 <= j < k ==> !is_preferred_format(formats@[j]),
        decreases formats@.len() - k,
    {
        if formats[k].format == FORMAT_B8G8R8A8_SRGB && formats[k].color_space
            == COLOR_SPACE_SRGB_NONLINEAR {
            proof {
                assert(is_preferred_format(formats@[k as int]));
            }
            return formats[k];
        }
        k += 1;
    }
    formats[0]
}

/// Select the present mode: low-latency triple buffering when offered, else
/// guaranteed vsync.
pub fn get_swapchain_present_mode(present_modes: &Vec<u32>) -> (r: u32)
    ensures
        r == spec_present_mode(present_modes@),
{
    let mut k: usize = 0;
    while k < present_modes.len()
        invariant
            k <= present_modes@.len(),
            forall|j: int| 0 <= j < k ==> present_modes@[j] != PRESENT_MODE_MAILBOX,
        decreases present_modes@.len() - k,
    {
        if present_modes[k] == PRESENT_MODE_MAILBOX {
            proof {
                assert(present_modes@.contains(PRESENT_MODE_MAILBOX)) by {
                    assert(present_modes@[k as int] == PRESENT_MODE_MAILBOX);
                }
            }
            return PRESENT_MODE_MAILBOX;
        }
        k += 1;
    }
    proof {
        assert(!present_modes@.contains(PRESENT_MODE_MAILBOX));
    }
    PRESENT_MODE_FIFO
}

/// Select the swapchain extent: the surface's reported extent unless it is
/// the undefined sentinel, in which case the window's pixel size is clamped
/// into the surface's bounds.
pub fn get_swapchain_extent(window: Extent2d, cap: &SurfaceCapabilities) -> (r: Extent2d)
    requires
        cap.min_image_extent.width <= cap.max_image_extent.width,
        cap.min_image_extent.height <= cap.max_image_extent.height,
    ensures
        r == spec_extent(*cap, window),
{
    if cap.current_extent.width != u32::MAX {
        cap.current_extent
    } else {
        Extent2d {
            width: clamp_dim(
                window.width,
                cap.min_image_extent.width,
                cap.max_image_extent.width,
            ),
            height: clamp_dim(
                window.height,
                cap.min_image_extent.height,
                cap.max_image_extent.height,
            ),
        }
    }
}

/// Clamp one extent dimension into the surface's bounds.
pub fn clamp_dim(x: u32, lo: u32, hi: u32) -> (r: u32)
    requires
        lo <= hi,
    ensures
        r == clamp_u32(x, lo, hi),
{
    if x < lo {
        lo
    } else if x > hi {
        hi
    } else {
        x
    }
}

/// Select how many images to request: one more than the surface's minimum,
/// capped at its maximum when the maximum is not zero (zero meaning
/// unbounded).
pub fn swapchain_image_count(cap: &SurfaceCapabilities) -> (r: u32)
    requires
        cap.min_image_count < u32::MAX,
    ensures
        r == spec_image_count(cap.min_image_count as int, cap.max_image_count as int),
{
    let count: u32 = cap.min_image_count + 1;
    if cap.max_image_count != 0 && count > cap.max_image_count {
        cap.max_image_count
    } else {
        count
    }
}

/// Select the sharing mode and the queue families named in the swapchain:
/// concurrent across graphics and present only when the families differ, else
/// exclusive with no family named.
pub fn sharing_plan(indices: QueueFamilyIndices) -> (r: (SharingMode, Vec<u32>))
    ensures
        r.0 == spec_sharing_mode(indices),
        r.1@ =~= spec_share_list(indices),
{
    if indices.graphics != indices.present {
        let mut families: Vec<u32> = Vec::new();
        families.push(indices.graphics);
        families.push(indices.present);
        (SharingMode::Concurrent, families)
    } else {
        (SharingMode::Exclusive, Vec::new())
    }
}

/// Every decision a swapchain is created from.
#[derive(Clone, Debug)]
pub struct SwapchainPlan {
    pub surface_format: SurfaceFormat,
    pub present_mode: u32,
    pub extent: Extent2d,
    pub image_count: u32,
    pub sharing_mode: SharingMode,
    pub queue_family_indices: Vec<u32>,
}

/// Plan a swapchain against what the surface reports, the window's pixel
/// size, and the chosen queue families.  Every field of the plan is pinned by
/// the selection rules above.
pub fn plan_swapchain(
    support: &SwapchainSupport,
    window: Extent2d,
    indices: QueueFamilyIndices,
) -> (r: SwapchainPlan)
    requires
        support.formats@.len() > 0,
        support.capabilities.min_image_extent.width <= support.capabilities.max_image_extent.width,
        support.capabilities.min_image_extent.height
            <= support.capabilities.max_image_extent.height,
        support.capabilities.min_image_count < u32::MAX,
    ensures
        is_chosen_format(support.formats@, r.surface_format),
        r.present_mode == spec_present_mode(support.present_modes@),
        r.extent == spec_extent(support.capabilities, window),
        r.image_count == spec_image_count(
            support.capabilities.min_image_count as int,
            support.capabilities.max_image_count as int,
        ),
        r.sharing_mode == spec_sharing_mode(indices),
        r.queue_family_indices@ =~= spec_share_list(indices),
{
    let surface_format = get_swapchain_surface_format(&support.formats);
    let present_mode = get_swapchain_present_mode(&support.present_modes);
    let extent = get_swapchain_extent(window, &support.capabilities);
    let image_count = swapchain_image_count(&support.capabilities);
    let (sharing_mode, queue_family_indices) = sharing_plan(indices);
    SwapchainPlan {
        surface_format,
        present_mode,
        extent,
        image_count,
        sharing_mode,
        queue_family_indices,
    }
}

/// The swapchain-dependent resources, one view and one framebuffer per
/// presentable image.  The handles themselves are owned and used by the
/// unverified graphics layer; this state carries their identities and the
/// invariant that the three lists stay in step.
#[derive(Clone, Debug)]
pub struct SwapchainState {
    pub format: u32,
    pub extent: Extent2d,
    pub images: Vec<u64>,
    pub image_views: Vec<u64>,
    pub framebuffers: Vec<u64>,
}

impl SwapchainState {
    /// One image view and one framebuffer per presentable image.
    pub open spec fn wf(self) -> bool {
        self.image_views@.len() == self.images@.len() && self.framebuffers@.len()
            == self.images@.len()
    }

    /// Assemble the swapchain state, refusing resource lists that do not have
    /// one view and one framebuffer per image.
    pub fn assemble(
        format: u32,
        extent: Extent2d,
        images: Vec<u64>,
        image_views: Vec<u64>,
        framebuffers: Vec<u64>,
    ) -> (r: Result<SwapchainState, RenderError>)
        ensures
            (images@.len() == image_views@.len() && images@.len() == framebuffers@.len()) <==> r
                is Ok,
            r matches Ok(s) ==> s.wf() && s.format == format && s.extent == extent && s.images@
                =~= images@ && s.image_views@ =~= image_views@ && s.framebuffers@
                =~= framebuffers@,
            r matches Err(e) ==> e == RenderError::MismatchedSwapchainResources,
    {
        if images.len() == image_views.len() && images.len() == framebuffers.len() {
            Ok(SwapchainState { format, extent, images, image_views, framebuffers })
        } else {
            Err(RenderError::MismatchedSwapchainResources)
        }
    }

    /// How many presentable images the swapchain holds.
    pub fn image_count(&self) -> (r: usize)
        ensures
            r == self.images@.len(),
    {
        self.images.len()
    }
}

} // verus!
