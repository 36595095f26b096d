use vstd::prelude::*;

verus! {

/// Buffer usage bit `VK_BUFFER_USAGE_TRANSFER_SRC_BIT`.
pub const USAGE_TRANSFER_SRC: u32 = 0x1;

/// Buffer usage bit `VK_BUFFER_USAGE_TRANSFER_DST_BIT`.
pub const USAGE_TRANSFER_DST: u32 = 0x2;

/// Buffer usage bit `VK_BUFFER_USAGE_UNIFORM_BUFFER_BIT`.
pub const USAGE_UNIFORM_BUFFER: u32 = 0x10;

/// Buffer usage bit `VK_BUFFER_USAGE_INDEX_BUFFER_BIT`.
pub const USAGE_INDEX_BUFFER: u32 = 0x40;

/// Buffer usage bit `VK_BUFFER_USAGE_VERTEX_BUFFER_BIT`.
pub const USAGE_VERTEX_BUFFER: u32 = 0x80;

/// Memory property bit `VK_MEMORY_PROPERTY_DEVICE_LOCAL_BIT`.
pub const MEMORY_DEVICE_LOCAL: u32 = 0x1;

/// Memory property bit `VK_MEMORY_PROPERTY_HOST_VISIBLE_BIT`.
pub const MEMORY_HOST_VISIBLE: u32 = 0x2;

/// Memory property bit `VK_MEMORY_PROPERTY_HOST_COHERENT_BIT`.
pub const MEMORY_HOST_COHERENT: u32 = 0x4;

/// The two buffers of one static upload: the host-visible staging buffer the
/// caller's bytes are copied into, and the device-local destination a
/// one-shot command buffer copies them to.  Device-local memory is not
/// guaranteed to be host-mappable, so every static upload takes this path.
#[derive(Clone, Copy, Debug, PartialEq, Eq, Structural)]
pub struct StagedUploadPlan {
    pub size: u64,
    pub staging_usage: u32,
    pub staging_properties: u32,
    pub destination_usage: u32,
    pub destination_properties: u32,
}

/// Plan a static upload of `size` bytes for a buffer used as `usage`: a
/// host-visible, host-coherent staging buffer used as a transfer source, and
/// a device-local destination used as a transfer destination besides its own
/// usage.
pub fn staged_upload_plan(size: u64, usage: u32) -> (r: StagedUploadPlan)
    ensures
        r.size == size,
        r.staging_usage == USAGE_TRANSFER_SRC,
        r.staging_properties == MEMORY_HOST_VISIBLE | MEMORY_HOST_COHERENT,
        r.destination_usage == USAGE_TRANSFER_DST | usage,
        r.destination_properties == MEMORY_DEVICE_LOCAL,
{
    StagedUploadPlan {
        size,
        staging_usage: USAGE_TRANSFER_SRC,
        staging_properties: MEMORY_HOST_VISIBLE | MEMORY_HOST_COHERENT,
        destination_usage: USAGE_TRANSFER_DST | usage,
        destination_properties: MEMORY_DEVICE_LOCAL,
    }
}

} // verus!
