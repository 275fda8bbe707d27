//! The render pass: how a chain image is cleared, drawn to and handed over
//! for presentation.

use crate::codes::{
    ACCESS_COLOR_ATTACHMENT_READ, ACCESS_COLOR_ATTACHMENT_WRITE,
    IMAGE_LAYOUT_COLOR_ATTACHMENT_OPTIMAL, IMAGE_LAYOUT_PRESENT_SRC, IMAGE_LAYOUT_UNDEFINED,
    LOAD_OP_CLEAR, LOAD_OP_DONT_CARE, PIPELINE_BIND_POINT_GRAPHICS,
    PIPELINE_STAGE_COLOR_ATTACHMENT_OUTPUT, SAMPLE_COUNT_1, STORE_OP_DONT_CARE, STORE_OP_STORE,
    SUBPASS_EXTERNAL,
};
use vstd::prelude::*;

verus! {

/// What happens to an attachment at the start and at the end of the pass.
#[derive(Clone, Copy, Debug, PartialEq, Eq, Structural)]
pub struct AttachmentDescription {
    pub format: i32,
    pub samples: u32,
    pub load_op: i32,
    pub store_op: i32,
    pub stencil_load_op: i32,
    pub stencil_store_op: i32,
    pub initial_layout: i32,
    pub final_layout: i32,
}

/// An attachment as a subpass uses it.
#[derive(Clone, Copy, Debug, PartialEq, Eq, Structural)]
pub struct AttachmentReference {
    pub attachment: u32,
    pub layout: i32,
}

/// A subpass with one colour attachment.
#[derive(Clone, Copy, Debug, PartialEq, Eq, Structural)]
pub struct SubpassDescription {
    pub bind_point: i32,
    pub color_attachment: AttachmentReference,
}

/// What a subpass has to wait for.
#[derive(Clone, Copy, Debug, PartialEq, Eq, Structural)]
pub struct SubpassDependency {
    pub src_subpass: u32,
    pub dst_subpass: u32,
    pub src_stage_mask: u32,
    pub dst_stage_mask: u32,
    pub src_access_mask: u32,
    pub dst_access_mask: u32,
}

/// A render pass of one attachment, one subpass and one dependency.
#[derive(Clone, Copy, Debug, PartialEq, Eq, Structural)]
pub struct RenderPassDescription {
    pub attachment: AttachmentDescription,
    pub subpass: SubpassDescription,
    pub dependency: SubpassDependency,
}

/// The colour attachment: cleared on load and kept on store, stencil
/// ignored, one sample, coming in any layout and leaving ready to present.
pub open spec fn color_attachment(format: i32) -> AttachmentDescription {
    AttachmentDescription {
        format,
        samples: SAMPLE_COUNT_1,
        load_op: LOAD_OP_CLEAR,
        store_op: STORE_OP_STORE,
        stencil_load_op: LOAD_OP_DONT_CARE,
        stencil_store_op: STORE_OP_DONT_CARE,
        initial_layout: IMAGE_LAYOUT_UNDEFINED,
        final_layout: IMAGE_LAYOUT_PRESENT_SRC,
    }
}

/// The graphics subpass that draws to attachment 0.
pub open spec fn color_subpass() -> SubpassDescription {
    SubpassDescription {
        bind_point: PIPELINE_BIND_POINT_GRAPHICS,
        color_attachment: AttachmentReference {
            attachment: 0,
            layout: IMAGE_LAYOUT_COLOR_ATTACHMENT_OPTIMAL,
        },
    }
}

/// Subpass 0 does not read or write colour before whatever used the image
/// earlier has finished its own colour output.
pub open spec fn entry_dependency() -> SubpassDependency {
    SubpassDependency {
        src_subpass: SUBPASS_EXTERNAL,
        dst_subpass: 0,
        src_stage_mask: PIPELINE_STAGE_COLOR_ATTACHMENT_OUTPUT,
        dst_stage_mask: PIPELINE_STAGE_COLOR_ATTACHMENT_OUTPUT,
        src_access_mask: 0,
        dst_access_mask: ACCESS_COLOR_ATTACHMENT_READ | ACCESS_COLOR_ATTACHMENT_WRITE,
    }
}

/// Describes the render pass for chain images of format `format`.
pub fn init_render_pass(format: i32) -> (pass: RenderPassDescription)
    ensures
        pass.attachment == color_attachment(format),
        pass.subpass == color_subpass(),
        pass.dependency == entry_dependency(),
        pass.dependency.dst_access_mask == 0x180,
{
    let access: u32 = ACCESS_COLOR_ATTACHMENT_READ | ACCESS_COLOR_ATTACHMENT_WRITE;
    assert(access == 0x180) by (bit_vector)
        requires
            access == 0x80u32 | 0x100u32,
    ;
    RenderPassDescription {
        attachment: AttachmentDescription {
            format,
            samples: SAMPLE_COUNT_1,
            load_op: LOAD_OP_CLEAR,
            store_op: STORE_OP_STORE,
            stencil_load_op: LOAD_OP_DONT_CARE,
            stencil_store_op: STORE_OP_DONT_CARE,
            initial_layout: IMAGE_LAYOUT_UNDEFINED,
            final_layout: IMAGE_LAYOUT_PRESENT_SRC,
        },
        subpass: SubpassDescription {
            bind_point: PIPELINE_BIND_POINT_GRAPHICS,
            color_attachment: AttachmentReference {
                attachment: 0,
                layout: IMAGE_LAYOUT_COLOR_ATTACHMENT_OPTIMAL,
            },
        },
        dependency: SubpassDependency {
            src_subpass: SUBPASS_EXTERNAL,
            dst_subpass: 0,
            src_stage_mask: PIPELINE_STAGE_COLOR_ATTACHMENT_OUTPUT,
            dst_stage_mask: PIPELINE_STAGE_COLOR_ATTACHMENT_OUTPUT,
            src_access_mask: 0,
            dst_access_mask: access,
        },
    }
}

} // verus!
