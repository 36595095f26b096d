use vstd::prelude::*;

use crate::error::RenderError;
use crate::error::SuitabilityError;
use crate::swapchain::SwapchainSupport;

verus! {

/// Depth format candidate `VK_FORMAT_D32_SFLOAT`.
pub const FORMAT_D32_SFLOAT: u32 = 126;

/// Depth format candidate `VK_FORMAT_D32_SFLOAT_S8_UINT`.
pub const FORMAT_D32_SFLOAT_S8_UINT: u32 = 130;

/// Depth format candidate `VK_FORMAT_D24_UNORM_S8_UINT`.
pub const FORMAT_D24_UNORM_S8_UINT: u32 = 129;

/// Format feature bit `VK_FORMAT_FEATURE_DEPTH_STENCIL_ATTACHMENT_BIT`.
pub const FEATURE_DEPTH_STENCIL_ATTACHMENT: u32 = 0x200;

/// What one queue family offers: graphics operations, and presentation to the
/// surface the renderer draws to.
#[derive(Clone, Copy, Debug, PartialEq, Eq, Structural)]
pub struct QueueFamily {
    pub supports_graphics: bool,
    pub supports_present: bool,
}

/// The queue families the renderer drives: one for graphics operations and
/// one for presentation.  The two may coincide.
#[derive(Clone, Copy, Debug, PartialEq, Eq, Structural)]
pub struct QueueFamilyIndices {
    pub graphics: u32,
    pub present: u32,
}

/// The tiling a format is used with.
#[derive(Clone, Copy, Debug, PartialEq, Eq, Structural)]
pub enum ImageTiling {
    Linear,
    Optimal,
}

/// The feature bits a format offers under each tiling.
#[derive(Clone, Copy, Debug, PartialEq, Eq, Structural)]
pub struct FormatProperties {
    pub linear_tiling_features: u32,
    pub optimal_tiling_features: u32,
}

/// Everything device selection reads about one physical device: its queue
/// families, the device extension names it offers, what its surface reports,
/// and whether it samples anisotropically.
#[derive(Clone, Debug)]
pub struct DeviceProfile {
    pub queue_families: Vec<QueueFamily>,
    pub extensions: Vec<String>,
    pub support: SwapchainSupport,
    pub sampler_anisotropy: bool,
}

/// Some family of `fams` supports graphics operations.
pub open spec fn has_graphics(fams: Seq<QueueFamily>) -> bool {
    exists|i: int| 0 <= i < fams.len() && fams[i].supports_graphics
}

/// Some family of `fams` supports presentation.
pub open spec fn has_present(fams: Seq<QueueFamily>) -> bool {
    exists|i: int| 0 <= i < fams.len() && fams[i].supports_present
}

/// `g` is the first family of `fams` that supports graphics operations.
pub open spec fn is_first_graphics(fams: Seq<QueueFamily>, g: int) -> bool {
    &&& 0 <= g < fams.len()
    &&& fams[g].supports_graphics
    &&& forall|j: int| 0 <= j < g ==> !fams[j].supports_graphics
}

/// `p` is the first family of `fams` that supports presentation.
pub open spec fn is_first_present(fams: Seq<QueueFamily>, p: int) -> bool {
    &&& 0 <= p < fams.len()
    &&& fams[p].supports_present
    &&& forall|j: int| 0 <= j < p ==> !fams[j].supports_present
}

/// `names` holds a string equal to `name`.
pub open spec fn contains_str(names: Seq<String>, name: Seq<char>) -> bool {
    exists|i: int| 0 <= i < names.len() && names[i]@ == name
}

/// The one device extension the renderer requires: swapchain presentation.
pub open spec fn spec_swapchain_extension() -> Seq<char> {
    "VK_KHR_swapchain"@
}

/// The name of the swapchain device extension.
pub fn swapchain_extension_name() -> (r: String)
    ensures
        r@ == spec_swapchain_extension(),
{
    "VK_KHR_swapchain".to_owned()
}

/// A device is suitable when it has a graphics family and a present family,
/// offers the required extensions, reports at least one surface format and
/// one present mode, and samples anisotropically.
pub open spec fn device_suitable(p: DeviceProfile) -> bool {
    &&& has_graphics(p.queue_families@)
    &&& has_present(p.queue_families@)
    &&& contains_str(p.extensions@, spec_swapchain_extension())
    &&& p.support.formats@.len() > 0
    &&& p.support.present_modes@.len() > 0
    &&& p.sampler_anisotropy
}

impl QueueFamilyIndices {
    /// Select the queue families: the first family supporting graphics
    /// operations and the first supporting presentation.  Fails exactly when
    /// either is missing.
    pub fn get(families: &Vec<QueueFamily>) -> (r: Result<QueueFamilyIndices, SuitabilityError>)
        requires
            families@.len() <= u32::MAX,
        ensures
            r is Ok <==> has_graphics(families@) && has_present(families@),
            r matches Ok(q) ==> is_first_graphics(families@, q.graphics as int) && is_first_present(
                families@,
                q.present as int,
            ),
            r matches Err(e) ==> e.0@ == "Missing required queue families."@,
    {
        let graphics = first_graphics_family(families);
        let present = first_present_family(families);
        if let (Some(graphics), Some(present)) = (graphics, present) {
            Ok(QueueFamilyIndices { graphics, present })
        } else {
            Err(SuitabilityError("Missing required queue families."))
        }
    }
}

/// Index of the first queue family that supports graphics operations.
fn first_graphics_family(families: &Vec<QueueFamily>) -> (r: Option<u32>)
    requires
        families@.len() <= u32::MAX,
    ensures
        r is Some <==> has_graphics(families@),
        r matches Some(g) ==> is_first_graphics(families@, g as int),
{
    let mut k: usize = 0;
    while k < families.len()
        invariant
            k <= families@.len(),
            families@.len() <= u32::MAX,
            forall|j: int| 0 <= j < k ==> !families@[j].supports_graphics,
        decreases families@.len() - k,
    {
        if families[k].supports_graphics {
            return Some(k as u32);
        }
        k += 1;
    }
    None
}

/// Index of the first queue family that supports presentation.
fn first_present_family(families: &Vec<QueueFamily>) -> (r: Option<u32>)
    requires
        families@.len() <= u32::MAX,
    ensures
        r is Some <==> has_present(families@),
        r matches Some(p) ==> is_first_present(families@, p as int),
{
    let mut k: usize = 0;
    while k < families.len()
        invariant
            k <= families@.len(),
            families@.len() <= u32::MAX,
            forall|j: int| 0 <= j < k ==> !families@[j].supports_present,
        decreases families@.len() - k,
    {
        if families[k].supports_present {
            return Some(k as u32);
        }
        k += 1;
    }
    None
}

/// Whether `names` holds a string equal to `name`.
pub fn contains_name(names: &Vec<String>, name: &String) -> (r: bool)
    ensures
        r == contains_str(names@, name@),
{
    let mut k: usize = 0;
    while k < names.len()
        invariant
            k <= names@.len(),
            forall|j: int| 0 <= j < k ==> names@[j]@ != name@,
        decreases names@.len() - k,
    {
        if names[k] == *name {
            proof {
                assert(contains_str(names@, name@)) by {
                    assert(names@[k as int]@ == name@);
                }
            }
            return true;
        }
        k += 1;
    }
    false
}

/// Check that the device offers every required extension (here, swapchain
/// presentation).  Fails exactly when one is missing.
pub fn check_physical_device_extensions(extensions: &Vec<String>) -> (r: Result<
    (),
    SuitabilityError,
>)
    ensures
        r is Ok <==> contains_str(extensions@, spec_swapchain_extension()),
        r matches Err(e) ==> e.0@ == "Missing required device extensions."@,
{
    let required = swapchain_extension_name();
    if contains_name(extensions, &required) {
        Ok(())
    } else {
        Err(SuitabilityError("Missing required device extensions."))
    }
}

/// Check one physical device against every suitability criterion, in the
/// order the criteria are stated: queue families, extensions, swapchain
/// support, anisotropic sampling.  Succeeds exactly when the device is
/// suitable; the error names the first criterion that failed.
pub fn check_physical_device(profile: &DeviceProfile) -> (r: Result<(), SuitabilityError>)
    requires
        profile.queue_families@.len() <= u32::MAX,
    ensures
        r is Ok <==> device_suitable(*profile),
        r matches Err(e) ==> !device_suitable(*profile),
        !(has_graphics(profile.queue_families@) && has_present(profile.queue_families@)) ==> (
        r matches Err(e) && e.0@ == "Missing required queue families."@),
        has_graphics(profile.queue_families@) && has_present(profile.queue_families@)
            && !contains_str(profile.extensions@, spec_swapchain_extension()) ==> (
        r matches Err(e) && e.0@ == "Missing required device extensions."@),
        has_graphics(profile.queue_families@) && has_present(profile.queue_families@)
            && contains_str(profile.extensions@, spec_swapchain_extension()) && !(
        profile.support.formats@.len() > 0 && profile.support.present_modes@.len() > 0) ==> (
        r matches Err(e) && e.0@ == "Insufficient swapchain support."@),
        has_graphics(profile.queue_families@) && has_present(profile.queue_families@)
            && contains_str(profile.extensions@, spec_swapchain_extension())
            && profile.support.formats@.len() > 0 && profile.support.present_modes@.len() > 0
            && !profile.sampler_anisotropy ==> (r matches Err(e) && e.0@
            == "No sampler anisotropy."@),
{
    if let Err(e) = QueueFamilyIndices::get(&profile.queue_families) {
        return Err(e);
    }
    if let Err(e) = check_physical_device_extensions(&profile.extensions) {
        return Err(e);
    }
    if profile.support.formats.len() == 0 || profile.support.present_modes.len() == 0 {
        return Err(SuitabilityError("Insufficient swapchain support."));
    }
    if !profile.sampler_anisotropy {
        return Err(SuitabilityError("No sampler anisotropy."));
    }
    Ok(())
}

/// Pick the first suitable physical device, by the order the instance
/// enumerated them.  Fails exactly when none is suitable; devices failing a
/// criterion are skipped, not errors.
pub fn pick_physical_device(profiles: &Vec<DeviceProfile>) -> (r: Result<usize, RenderError>)
    requires
        forall|i: int| 0 <= i < profiles@.len() ==> profiles@[i].queue_families@.len() <= u32::MAX,
    ensures
        r is Ok <==> exists|i: int| 0 <= i < profiles@.len() && device_suitable(profiles@[i]),
        r matches Ok(i) ==> i < profiles@.len() && device_suitable(profiles@[i as int]) && forall|
            j: int,
        | 0 <= j < i ==> !device_suitable(profiles@[j]),
        r matches Err(e) ==> e == RenderError::NoSuitableDevice,
{
    let mut k: usize = 0;
    while k < profiles.len()
        invariant
            k <= profiles@.len(),
            forall|i: int| 0 <= i < profiles@.len() ==> profiles@[i].queue_families@.len()
                <= u32::MAX,
            forall|j: int| 0 <= j < k ==> !device_suitable(profiles@[j]),
        decreases profiles@.len() - k,
    {
        if check_physical_device(&profiles[k]).is_ok() {
            proof {
                assert(device_suitable(profiles@[k as int]));
            }
            return Ok(k);
        }
        k += 1;
    }
    Err(RenderError::NoSuitableDevice)
}

/// The queue families a logical device requests queues from: the graphics and
/// present families, deduplicated, so that a unified family yields one
/// request, not two.
pub fn unique_queue_indices(indices: QueueFamilyIndices) -> (r: Vec<u32>)
    ensures
        indices.graphics == indices.present ==> r@ =~= seq![indices.graphics],
        indices.graphics != indices.present ==> r@ =~= seq![indices.graphics, indices.present],
{
    let mut unique: Vec<u32> = Vec::new();
    unique.push(indices.graphics);
    if indices.present != indices.graphics {
        unique.push(indices.present);
    }
    unique
}

/// Whether memory type `i` is allowed by the resource's requirements and has
/// every requested property.
pub open spec fn memory_type_suitable(
    memory_type_bits: u32,
    property_flags: u32,
    properties: u32,
    i: u32,
) -> bool {
    memory_type_bits & (1u32 << i) != 0 && property_flags & properties == properties
}

/// Find the first memory type that the requirements allow and that has every
/// requested property.  Fails exactly when no type qualifies: resource
/// exhaustion, fatal at the point of the offending allocation.
pub fn get_memory_type_index(
    memory_type_bits: u32,
    memory_types: &Vec<u32>,
    properties: u32,
) -> (r: Result<u32, RenderError>)
    requires
        memory_types@.len() <= 32,
    ensures
        r is Ok <==> exists|i: int|
            0 <= i < memory_types@.len() && memory_type_suitable(
                memory_type_bits,
                memory_types@[i],
                properties,
                i as u32,
            ),
        r matches Ok(i) ==> i < memory_types@.len() && memory_type_suitable(
            memory_type_bits,
            memory_types@[i as int],
            properties,
            i,
        ) && forall|j: int|
            0 <= j < i ==> !memory_type_suitable(
                memory_type_bits,
                memory_types@[j],
                properties,
                j as u32,
            ),
        r matches Err(e) ==> e == RenderError::NoSuitableMemoryType,
{
    let mut k: usize = 0;
    while k < memory_types.len()
        invariant
            k <= memory_types@.len(),
            memory_types@.len() <= 32,
            forall|j: int|
                0 <= j < k ==> !memory_type_suitable(
                    memory_type_bits,
                    memory_types@[j],
                    properties,
                    j as u32,
                ),
        decreases memory_types@.len() - k,
    {
        let allowed = memory_type_bits & (1u32 << (k as u32)) != 0;
        if allowed && memory_types[k] & properties == properties {
            proof {
                assert(memory_type_suitable(
                    memory_type_bits,
                    memory_types@[k as int],
                    properties,
                    k as u32,
                ));
            }
            return Ok(k as u32);
        }
        k += 1;
    }
    Err(RenderError::NoSuitableMemoryType)
}

/// The feature bits `p` offers under tiling `t`.
pub open spec fn tiling_features(p: FormatProperties, t: ImageTiling) -> u32 {
    match t {
        ImageTiling::Linear => p.linear_tiling_features,
        ImageTiling::Optimal => p.optimal_tiling_features,
    }
}

/// Whether a format with properties `p` supports every bit of `features`
/// under tiling `t`.
pub open spec fn format_supports(p: FormatProperties, t: ImageTiling, features: u32) -> bool {
    tiling_features(p, t) & features == features
}

/// Find the first candidate format that supports every requested feature
/// under the requested tiling.  `props[i]` is what the device reports for
/// `candidates[i]`.  Fails exactly when no candidate qualifies.
pub fn get_supported_format(
    candidates: &Vec<u32>,
    props: &Vec<FormatProperties>,
    tiling: ImageTiling,
    features: u32,
) -> (r: Result<u32, RenderError>)
    requires
        candidates@.len() == props@.len(),
    ensures
        r is Ok <==> exists|i: int|
            0 <= i < props@.len() && format_supports(props@[i], tiling, features),
        r matches Ok(f) ==> exists|i: int|
            {
                &&& 0 <= i < props@.len()
                &&& f == candidates@[i]
                &&& format_supports(props@[i], tiling, features)
                &&& forall|j: int| 0 <= j < i ==> !format_supports(props@[j], tiling, features)
            },
        r matches Err(e) ==> e == RenderError::NoSupportedFormat,
{
    let mut k: usize = 0;
    while k < candidates.len()
        invariant
            k <= candidates@.len(),
            candidates@.len() == props@.len(),
            forall|j: int| 0 <= j < k ==> !format_supports(props@[j], tiling, features),
        decreases candidates@.len() - k,
    {
        let offered = match tiling {
            ImageTiling::Linear => props[k].linear_tiling_features,
            ImageTiling::Optimal => props[k].optimal_tiling_features,
        };
        if offered & features == features {
            proof {
                assert(format_supports(props@[k as int], tiling, features));
            }
            return Ok(candidates[k]);
        }
        k += 1;
    }
    Err(RenderError::NoSupportedFormat)
}

/// The depth format candidates, in preference order.
pub fn depth_format_candidates() -> (r: Vec<u32>)
    ensures
        r@ =~= seq![FORMAT_D32_SFLOAT, FORMAT_D32_SFLOAT_S8_UINT, FORMAT_D24_UNORM_S8_UINT],
{
    let mut candidates: Vec<u32> = Vec::new();
    candidates.push(FORMAT_D32_SFLOAT);
    candidates.push(FORMAT_D32_SFLOAT_S8_UINT);
    candidates.push(FORMAT_D24_UNORM_S8_UINT);
    candidates
}

/// Select the depth attachment format: the first depth format candidate that
/// offers a depth/stencil attachment under optimal tiling.  `props[i]` is
/// what the device reports for the `i`-th candidate.
pub fn get_depth_format(props: &Vec<FormatProperties>) -> (r: Result<u32, RenderError>)
    requires
        props@.len() == 3,
    ensures
        r is Ok <==> exists|i: int|
            0 <= i < props@.len() && format_supports(
                props@[i],
                ImageTiling::Optimal,
                FEATURE_DEPTH_STENCIL_ATTACHMENT,
            ),
        r matches Ok(f) ==> exists|i: int|
            {
                &&& 0 <= i < props@.len()
                &&& f == seq![
                    FORMAT_D32_SFLOAT,
                    FORMAT_D32_SFLOAT_S8_UINT,
                    FORMAT_D24_UNORM_S8_UINT,
                ][i]
                &&& format_supports(props@[i], ImageTiling::Optimal, FEATURE_DEPTH_STENCIL_ATTACHMENT)
                &&& forall|j: int|
                    0 <= j < i ==> !format_supports(
                        props@[j],
                        ImageTiling::Optimal,
                        FEATURE_DEPTH_STENCIL_ATTACHMENT,
                    )
            },
        r matches Err(e) ==> e == RenderError::NoSupportedFormat,
{
    let candidates = depth_format_candidates();
    get_supported_format(&candidates, props, ImageTiling::Optimal, FEATURE_DEPTH_STENCIL_ATTACHMENT)
}

/// The largest sample count, among those the renderer can use, that both the
/// color and the depth framebuffer paths support; one sample when none of the
/// multisampled counts is supported.  Sample counts are the Vulkan flag bits:
/// the bit with value `n` means `n` samples.
pub open spec fn spec_max_msaa(counts: u32) -> u32 {
    if counts & 64 != 0 {
        64
    } else if counts & 32 != 0 {
        32
    } else if counts & 16 != 0 {
        16
    } else if counts & 8 != 0 {
        8
    } else if counts & 4 != 0 {
        4
    } else if counts & 2 != 0 {
        2
    } else {
        1
    }
}

/// Select the multisample level: the largest sample count supported by both
/// the color and the depth framebuffer paths, falling back to one sample.
pub fn get_max_msaa_samples(
    framebuffer_color_sample_counts: u32,
    framebuffer_depth_sample_counts: u32,
) -> (r: u32)
    ensures
        r == spec_max_msaa(framebuffer_color_sample_counts & framebuffer_depth_sample_counts),
{
    let counts = framebuffer_color_sample_counts & framebuffer_depth_sample_counts;
    if counts & 64 != 0 {
        64
    } else if counts & 32 != 0 {
        32
    } else if counts & 16 != 0 {
        16
    } else if counts & 8 != 0 {
        8
    } else if counts & 4 != 0 {
        4
    } else if counts & 2 != 0 {
        2
    } else {
        1
    }
}

} // verus!
