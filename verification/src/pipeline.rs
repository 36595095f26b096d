use vstd::prelude::*;

use crate::swapchain::Extent2d;

verus! {

/// Attachment load op `VK_ATTACHMENT_LOAD_OP_CLEAR`.
pub const LOAD_OP_CLEAR: u32 = 1;

/// Attachment load op `VK_ATTACHMENT_LOAD_OP_DONT_CARE`.
pub const LOAD_OP_DONT_CARE: u32 = 2;

/// Attachment store op `VK_ATTACHMENT_STORE_OP_STORE`.
pub const STORE_OP_STORE: u32 = 0;

/// Attachment store op `VK_ATTACHMENT_STORE_OP_DONT_CARE`.
pub const STORE_OP_DONT_CARE: u32 = 1;

/// Image layout code `VK_IMAGE_LAYOUT_UNDEFINED`.
pub const LAYOUT_UNDEFINED: u32 = 0;

/// Image layout code `VK_IMAGE_LAYOUT_DEPTH_STENCIL_ATTACHMENT_OPTIMAL`.
pub const LAYOUT_DEPTH_STENCIL_ATTACHMENT_OPTIMAL: u32 = 3;

/// Image layout code `VK_IMAGE_LAYOUT_PRESENT_SRC_KHR`.
pub const LAYOUT_PRESENT_SRC: u32 = 1000001002;

/// The implicit subpass before the render pass, `VK_SUBPASS_EXTERNAL`.
pub const SUBPASS_EXTERNAL: u32 = 0xffff_ffff;

/// Pipeline stage bit `VK_PIPELINE_STAGE_COLOR_ATTACHMENT_OUTPUT_BIT`.
pub const STAGE_COLOR_ATTACHMENT_OUTPUT: u32 = 0x400;

/// Access bit `VK_ACCESS_COLOR_ATTACHMENT_WRITE_BIT`.
pub const ACCESS_COLOR_ATTACHMENT_WRITE: u32 = 0x100;

/// Primitive topology `VK_PRIMITIVE_TOPOLOGY_TRIANGLE_LIST`.
pub const TOPOLOGY_TRIANGLE_LIST: u32 = 3;

/// Cull mode bit `VK_CULL_MODE_BACK_BIT`.
pub const CULL_MODE_BACK: u32 = 2;

/// Front face `VK_FRONT_FACE_COUNTER_CLOCKWISE`.
pub const FRONT_FACE_COUNTER_CLOCKWISE: u32 = 0;

/// Shader stage bit `VK_SHADER_STAGE_VERTEX_BIT`.
pub const SHADER_STAGE_VERTEX: u32 = 0x1;

/// Shader stage bit `VK_SHADER_STAGE_FRAGMENT_BIT`.
pub const SHADER_STAGE_FRAGMENT: u32 = 0x10;

/// Vertex format code `VK_FORMAT_R32G32B32_SFLOAT`: three 32-bit components.
pub const FORMAT_R32G32B32_SFLOAT: u32 = 106;

/// Vertex format code `VK_FORMAT_R32G32_SFLOAT`: two 32-bit components.
pub const FORMAT_R32G32_SFLOAT: u32 = 103;

/// How one render pass attachment is used.
#[derive(Clone, Copy, Debug, PartialEq, Eq, Structural)]
pub struct AttachmentPlan {
    pub format: u32,
    pub samples: u32,
    pub load_op: u32,
    pub store_op: u32,
    pub initial_layout: u32,
    pub final_layout: u32,
}

/// The one subpass dependency of the render pass.
#[derive(Clone, Copy, Debug, PartialEq, Eq, Structural)]
pub struct DependencyPlan {
    pub src_subpass: u32,
    pub dst_subpass: u32,
    pub src_stage_mask: u32,
    pub src_access_mask: u32,
    pub dst_stage_mask: u32,
    pub dst_access_mask: u32,
}

/// The fixed render pass: one color attachment, one depth attachment, one
/// subpass referencing both, and one dependency from outside the pass.
#[derive(Clone, Copy, Debug, PartialEq, Eq, Structural)]
pub struct RenderPassPlan {
    pub color: AttachmentPlan,
    pub depth: AttachmentPlan,
    pub dependency: DependencyPlan,
}

/// Build the render pass description: the color attachment is cleared on
/// load, stored at the end, and left presentable; the depth attachment is
/// cleared on load and its contents discarded; the one dependency gates the
/// color-attachment-output stage on the acquired image actually being
/// available, since acquisition is asynchronous.
pub fn render_pass_plan(color_format: u32, depth_format: u32, samples: u32) -> (r: RenderPassPlan)
    ensures
        r.color == (AttachmentPlan {
            format: color_format,
            samples,
            load_op: LOAD_OP_CLEAR,
            store_op: STORE_OP_STORE,
            initial_layout: LAYOUT_UNDEFINED,
            final_layout: LAYOUT_PRESENT_SRC,
        }),
        r.depth == (AttachmentPlan {
            format: depth_format,
            samples,
            load_op: LOAD_OP_CLEAR,
            store_op: STORE_OP_DONT_CARE,
            initial_layout: LAYOUT_UNDEFINED,
            final_layout: LAYOUT_DEPTH_STENCIL_ATTACHMENT_OPTIMAL,
        }),
        r.dependency == (DependencyPlan {
            src_subpass: SUBPASS_EXTERNAL,
            dst_subpass: 0,
            src_stage_mask: STAGE_COLOR_ATTACHMENT_OUTPUT,
            src_access_mask: 0,
            dst_stage_mask: STAGE_COLOR_ATTACHMENT_OUTPUT,
            dst_access_mask: ACCESS_COLOR_ATTACHMENT_WRITE,
        }),
{
    RenderPassPlan {
        color: AttachmentPlan {
            format: color_format,
            samples,
            load_op: LOAD_OP_CLEAR,
            store_op: STORE_OP_STORE,
            initial_layout: LAYOUT_UNDEFINED,
            final_layout: LAYOUT_PRESENT_SRC,
        },
        depth: AttachmentPlan {
            format: depth_format,
            samples,
            load_op: LOAD_OP_CLEAR,
            store_op: STORE_OP_DONT_CARE,
            initial_layout: LAYOUT_UNDEFINED,
            final_layout: LAYOUT_DEPTH_STENCIL_ATTACHMENT_OPTIMAL,
        },
        dependency: DependencyPlan {
            src_subpass: SUBPASS_EXTERNAL,
            dst_subpass: 0,
            src_stage_mask: STAGE_COLOR_ATTACHMENT_OUTPUT,
            src_access_mask: 0,
            dst_stage_mask: STAGE_COLOR_ATTACHMENT_OUTPUT,
            dst_access_mask: ACCESS_COLOR_ATTACHMENT_WRITE,
        },
    }
}

/// One push-constant range of the pipeline layout.
#[derive(Clone, Copy, Debug, PartialEq, Eq, Structural)]
pub struct PushConstantRange {
    pub stage: u32,
    pub offset: u32,
    pub size: u32,
}

/// The fixed-function state of the graphics pipeline.
#[derive(Clone, Copy, Debug, PartialEq, Eq, Structural)]
pub struct PipelinePlan {
    pub topology: u32,
    pub viewport_extent: Extent2d,
    pub scissor_extent: Extent2d,
    pub cull_mode: u32,
    pub front_face: u32,
    pub blend_enabled: bool,
    /// The per-draw model matrix, sixteen 32-bit values for the vertex stage.
    pub model_range: PushConstantRange,
    /// The per-draw opacity scalar for the fragment stage, after the matrix.
    pub opacity_range: PushConstantRange,
}

/// Build the pipeline description: triangle lists, viewport and scissor fixed
/// to the current swapchain extent, back-face culling with counter-clockwise
/// front faces, no blending, and push-constant ranges for the per-draw model
/// matrix and opacity scalar.
pub fn pipeline_plan(extent: Extent2d) -> (r: PipelinePlan)
    ensures
        r.topology == TOPOLOGY_TRIANGLE_LIST,
        r.viewport_extent == extent,
        r.scissor_extent == extent,
        r.cull_mode == CULL_MODE_BACK,
        r.front_face == FRONT_FACE_COUNTER_CLOCKWISE,
        !r.blend_enabled,
        r.model_range == (PushConstantRange { stage: SHADER_STAGE_VERTEX, offset: 0, size: 64 }),
        r.opacity_range == (PushConstantRange {
            stage: SHADER_STAGE_FRAGMENT,
            offset: 64,
            size: 4,
        }),
{
    PipelinePlan {
        topology: TOPOLOGY_TRIANGLE_LIST,
        viewport_extent: extent,
        scissor_extent: extent,
        cull_mode: CULL_MODE_BACK,
        front_face: FRONT_FACE_COUNTER_CLOCKWISE,
        blend_enabled: false,
        model_range: PushConstantRange { stage: SHADER_STAGE_VERTEX, offset: 0, size: 64 },
        opacity_range: PushConstantRange { stage: SHADER_STAGE_FRAGMENT, offset: 64, size: 4 },
    }
}

/// One vertex attribute: where in the vertex it starts and how it is read.
#[derive(Clone, Copy, Debug, PartialEq, Eq, Structural)]
pub struct VertexAttribute {
    pub location: u32,
    pub format: u32,
    pub offset: u32,
}

/// The fixed vertex layout: position, color and texture coordinate packed in
/// order, twelve bytes for each three-component field and eight for the
/// two-component one.
#[derive(Clone, Copy, Debug, PartialEq, Eq, Structural)]
pub struct VertexLayout {
    pub stride: u32,
    pub position: VertexAttribute,
    pub color: VertexAttribute,
    pub tex_coord: VertexAttribute,
}

/// Build the vertex layout the pipeline reads: a 32-byte vertex of position
/// (three 32-bit components at offset 0), color (three at 12) and texture
/// coordinate (two at 24).
pub fn vertex_layout() -> (r: VertexLayout)
    ensures
        r.stride == 32,
        r.position == (VertexAttribute { location: 0, format: FORMAT_R32G32B32_SFLOAT, offset: 0 }),
        r.color == (VertexAttribute { location: 1, format: FORMAT_R32G32B32_SFLOAT, offset: 12 }),
        r.tex_coord == (VertexAttribute { location: 2, format: FORMAT_R32G32_SFLOAT, offset: 24 }),
{
    VertexLayout {
        stride: 32,
        position: VertexAttribute { location: 0, format: FORMAT_R32G32B32_SFLOAT, offset: 0 },
        color: VertexAttribute { location: 1, format: FORMAT_R32G32B32_SFLOAT, offset: 12 },
        tex_coord: VertexAttribute { location: 2, format: FORMAT_R32G32_SFLOAT, offset: 24 },
    }
}

} // verus!
