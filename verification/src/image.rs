use vstd::prelude::*;

use crate::error::RenderError;

verus! {

/// Access bit `VK_ACCESS_TRANSFER_WRITE_BIT`.
pub const ACCESS_TRANSFER_WRITE: u32 = 0x1000;

/// Access bit `VK_ACCESS_SHADER_READ_BIT`.
pub const ACCESS_SHADER_READ: u32 = 0x20;

/// Pipeline stage bit `VK_PIPELINE_STAGE_TOP_OF_PIPE_BIT`.
pub const STAGE_TOP_OF_PIPE: u32 = 0x1;

/// Pipeline stage bit `VK_PIPELINE_STAGE_TRANSFER_BIT`.
pub const STAGE_TRANSFER: u32 = 0x1000;

/// Pipeline stage bit `VK_PIPELINE_STAGE_FRAGMENT_SHADER_BIT`.
pub const STAGE_FRAGMENT_SHADER: u32 = 0x80;

/// The image layouts the renderer moves its texture through.
#[derive(Clone, Copy, Debug, PartialEq, Eq, Structural)]
pub enum ImageLayout {
    Undefined,
    TransferDstOptimal,
    ShaderReadOnlyOptimal,
}

/// The access and stage masks of one pipeline barrier.
#[derive(Clone, Copy, Debug, PartialEq, Eq, Structural)]
pub struct TransitionMasks {
    pub src_access_mask: u32,
    pub dst_access_mask: u32,
    pub src_stage_mask: u32,
    pub dst_stage_mask: u32,
}

/// The (old layout, new layout) pairs the renderer supports: into the
/// transfer destination layout from nothing, and from there into the
/// shader-read layout.
pub open spec fn transition_supported(old_layout: ImageLayout, new_layout: ImageLayout) -> bool {
    ||| (old_layout == ImageLayout::Undefined && new_layout == ImageLayout::TransferDstOptimal)
    ||| (old_layout == ImageLayout::TransferDstOptimal && new_layout
        == ImageLayout::ShaderReadOnlyOptimal)
}

/// The documented masks for the transition into the transfer destination
/// layout: nothing need finish first, transfer writes wait at the transfer
/// stage.
pub open spec fn masks_undefined_to_transfer_dst() -> TransitionMasks {
    TransitionMasks {
        src_access_mask: 0,
        dst_access_mask: ACCESS_TRANSFER_WRITE,
        src_stage_mask: STAGE_TOP_OF_PIPE,
        dst_stage_mask: STAGE_TRANSFER,
    }
}

/// The documented masks for the transition into the shader-read layout:
/// transfer writes finish before fragment-shader reads begin.
pub open spec fn masks_transfer_dst_to_shader_read() -> TransitionMasks {
    TransitionMasks {
        src_access_mask: ACCESS_TRANSFER_WRITE,
        dst_access_mask: ACCESS_SHADER_READ,
        src_stage_mask: STAGE_TRANSFER,
        dst_stage_mask: STAGE_FRAGMENT_SHADER,
    }
}

/// The barrier masks for an image layout transition.  Exactly the supported
/// pairs get their documented (src access, dst access, src stage, dst stage)
/// tuple; every other pair is a programming error, reported, never a silent
/// no-op.
pub fn transition_masks(old_layout: ImageLayout, new_layout: ImageLayout) -> (r: Result<
    TransitionMasks,
    RenderError,
>)
    ensures
        r is Ok <==> transition_supported(old_layout, new_layout),
        old_layout == ImageLayout::Undefined && new_layout == ImageLayout::TransferDstOptimal ==> r
            == Ok::<TransitionMasks, RenderError>(masks_undefined_to_transfer_dst()),
        old_layout == ImageLayout::TransferDstOptimal && new_layout
            == ImageLayout::ShaderReadOnlyOptimal ==> r == Ok::<TransitionMasks, RenderError>(
            masks_transfer_dst_to_shader_read(),
        ),
        r matches Err(e) ==> e == RenderError::UnsupportedLayoutTransition,
{
    match (old_layout, new_layout) {
        (ImageLayout::Undefined, ImageLayout::TransferDstOptimal) => Ok(
            TransitionMasks {
                src_access_mask: 0,
                dst_access_mask: ACCESS_TRANSFER_WRITE,
                src_stage_mask: STAGE_TOP_OF_PIPE,
                dst_stage_mask: STAGE_TRANSFER,
            },
        ),
        (ImageLayout::TransferDstOptimal, ImageLayout::ShaderReadOnlyOptimal) => Ok(
            TransitionMasks {
                src_access_mask: ACCESS_TRANSFER_WRITE,
                dst_access_mask: ACCESS_SHADER_READ,
                src_stage_mask: STAGE_TRANSFER,
                dst_stage_mask: STAGE_FRAGMENT_SHADER,
            },
        ),
        _ => Err(RenderError::UnsupportedLayoutTransition),
    }
}

/// A decoded texture: its pixel dimensions and its raw pixel bytes, one
/// deinterlaced image, rows packed in row-major order.
#[derive(Clone, Debug)]
pub struct DecodedImage {
    pub width: u32,
    pub height: u32,
    pub pixels: Vec<u8>,
}

/// What decoding a PNG byte stream yields: `None` when the stream is not a
/// well-formed PNG, else the dimensions and pixel bytes.  Decoding is a
/// function of the bytes alone.
pub uninterp spec fn png_decode_of(bytes: Seq<u8>) -> Option<(u32, u32, Seq<u8>)>;

/// Relies on png's `Decoder`/`Reader`: `read_info` parses the header,
/// `next_frame` writes one deinterlaced frame of `output_buffer_size()`
/// bytes, and `info().size()` is the image's width and height.  The result
/// depends on the bytes alone.
#[verifier::external_body]
fn decode_png_bytes(bytes: &Vec<u8>) -> (r: Result<DecodedImage, RenderError>)
    ensures
        r matches Ok(img) ==> png_decode_of(bytes@) == Some(
            (img.width, img.height, img.pixels@),
        ),
        r matches Err(e) ==> png_decode_of(bytes@) is None && e
            == RenderError::TextureDecodeFailed,
{
    let decoder = png::Decoder::new(bytes.as_slice());
    let mut reader = match decoder.read_info() {
        Ok(reader) => reader,
        Err(_) => return Err(RenderError::TextureDecodeFailed),
    };
    let mut pixels = vec![0u8; reader.output_buffer_size()];
    if reader.next_frame(&mut pixels).is_err() {
        return Err(RenderError::TextureDecodeFailed);
    }
    let (width, height) = reader.info().size();
    Ok(DecodedImage { width, height, pixels })
}

/// Decode a texture file's bytes into pixels.  Succeeds exactly on
/// well-formed PNG streams; a malformed asset is an unrecoverable setup
/// failure.
pub fn decode_texture(bytes: &Vec<u8>) -> (r: Result<DecodedImage, RenderError>)
    ensures
        r matches Ok(img) ==> png_decode_of(bytes@) == Some(
            (img.width, img.height, img.pixels@),
        ),
        r matches Err(e) ==> png_decode_of(bytes@) is None && e
            == RenderError::TextureDecodeFailed,
{
    decode_png_bytes(bytes)
}

/// One image layout transition, from `old_layout` to `new_layout`.
#[derive(Clone, Copy, Debug, PartialEq, Eq, Structural)]
pub struct LayoutTransition {
    pub old_layout: ImageLayout,
    pub new_layout: ImageLayout,
}

/// The two-step upload a decoded texture takes: a host-visible staging buffer
/// of the pixel bytes' size, a device-local image of the decoded dimensions,
/// and the two layout transitions around the copy.
#[derive(Clone, Copy, Debug, PartialEq, Eq, Structural)]
pub struct TextureUploadPlan {
    /// Byte size of the staging buffer and of the copy: the pixel byte count.
    pub staging_size: usize,
    pub width: u32,
    pub height: u32,
    /// Layout transition before the copy.
    pub first_transition: LayoutTransition,
    /// Layout transition after the copy.
    pub second_transition: LayoutTransition,
}

/// Plan the texture upload for a decoded image: stage exactly its pixel
/// bytes, size the device-local image to its dimensions, and transition the
/// image into the transfer destination layout before the copy and into the
/// shader-read layout after it.  Both transitions are in the supported set.
pub fn texture_upload_plan(img: &DecodedImage) -> (r: TextureUploadPlan)
    ensures
        r.staging_size == img.pixels@.len(),
        r.width == img.width,
        r.height == img.height,
        r.first_transition == (LayoutTransition {
            old_layout: ImageLayout::Undefined,
            new_layout: ImageLayout::TransferDstOptimal,
        }),
        r.second_transition == (LayoutTransition {
            old_layout: ImageLayout::TransferDstOptimal,
            new_layout: ImageLayout::ShaderReadOnlyOptimal,
        }),
        transition_supported(r.first_transition.old_layout, r.first_transition.new_layout),
        transition_supported(r.second_transition.old_layout, r.second_transition.new_layout),
{
    TextureUploadPlan {
        staging_size: img.pixels.len(),
        width: img.width,
        height: img.height,
        first_transition: LayoutTransition {
            old_layout: ImageLayout::Undefined,
            new_layout: ImageLayout::TransferDstOptimal,
        },
        second_transition: LayoutTransition {
            old_layout: ImageLayout::TransferDstOptimal,
            new_layout: ImageLayout::ShaderReadOnlyOptimal,
        },
    }
}

} // verus!
