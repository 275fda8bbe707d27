//! The driver's numeric codes for every fixed choice made in this crate.
//!
//! A description built here carries these numbers in its fields, so that a
//! caller can hand them to the driver as they are.

use vstd::prelude::*;

verus! {

/// Colour format `B8G8R8A8_SRGB`.
pub const FORMAT_B8G8R8A8_SRGB: i32 = 50;

/// Present mode `FIFO`.
pub const PRESENT_MODE_FIFO: i32 = 2;

/// Sharing mode `EXCLUSIVE`.
pub const SHARING_MODE_EXCLUSIVE: i32 = 0;

/// Image usage bit `COLOR_ATTACHMENT`.
pub const IMAGE_USAGE_COLOR_ATTACHMENT: u32 = 0x10;

/// Composite alpha bit `OPAQUE`.
pub const COMPOSITE_ALPHA_OPAQUE: u32 = 0x1;

/// Image view type `TYPE_2D`.
pub const IMAGE_VIEW_TYPE_2D: i32 = 1;

/// Image aspect bit `COLOR`.
pub const IMAGE_ASPECT_COLOR: u32 = 0x1;

/// Sample count bit `TYPE_1`.
pub const SAMPLE_COUNT_1: u32 = 0x1;

/// Attachment load operation `CLEAR`.
pub const LOAD_OP_CLEAR: i32 = 1;

/// Attachment load operation `DONT_CARE`.
pub const LOAD_OP_DONT_CARE: i32 = 2;

/// Attachment store operation `STORE`.
pub const STORE_OP_STORE: i32 = 0;

/// Attachment store operation `DONT_CARE`.
pub const STORE_OP_DONT_CARE: i32 = 1;

/// Image layout `UNDEFINED`.
pub const IMAGE_LAYOUT_UNDEFINED: i32 = 0;

/// Image layout `COLOR_ATTACHMENT_OPTIMAL`.
pub const IMAGE_LAYOUT_COLOR_ATTACHMENT_OPTIMAL: i32 = 2;

/// Image layout `PRESENT_SRC_KHR`.
pub const IMAGE_LAYOUT_PRESENT_SRC: i32 = 1000001002;

/// Pipeline bind point `GRAPHICS`.
pub const PIPELINE_BIND_POINT_GRAPHICS: i32 = 0;

/// The pseudo subpass index that stands for everything outside the pass.
pub const SUBPASS_EXTERNAL: u32 = 0xFFFF_FFFF;

/// Pipeline stage bit `COLOR_ATTACHMENT_OUTPUT`.
pub const PIPELINE_STAGE_COLOR_ATTACHMENT_OUTPUT: u32 = 0x400;

/// Access bit `COLOR_ATTACHMENT_READ`.
pub const ACCESS_COLOR_ATTACHMENT_READ: u32 = 0x80;

/// Access bit `COLOR_ATTACHMENT_WRITE`.
pub const ACCESS_COLOR_ATTACHMENT_WRITE: u32 = 0x100;

/// Shader stage bit `VERTEX`.
pub const SHADER_STAGE_VERTEX: u32 = 0x1;

/// Shader stage bit `FRAGMENT`.
pub const SHADER_STAGE_FRAGMENT: u32 = 0x10;

/// Primitive topology `POINT_LIST`.
pub const TOPOLOGY_POINT_LIST: i32 = 0;

/// Polygon mode `FILL`.
pub const POLYGON_MODE_FILL: i32 = 0;

/// Front face `COUNTER_CLOCKWISE`.
pub const FRONT_FACE_COUNTER_CLOCKWISE: i32 = 0;

/// Cull mode `NONE`.
pub const CULL_MODE_NONE: u32 = 0;

/// Blend factor `SRC_ALPHA`.
pub const BLEND_FACTOR_SRC_ALPHA: i32 = 6;

/// Blend factor `ONE_MINUS_SRC_ALPHA`.
pub const BLEND_FACTOR_ONE_MINUS_SRC_ALPHA: i32 = 7;

/// Blend operation `ADD`.
pub const BLEND_OP_ADD: i32 = 0;

/// Colour component bit `R`.
pub const COLOR_COMPONENT_R: u32 = 0x1;

/// Colour component bit `G`.
pub const COLOR_COMPONENT_G: u32 = 0x2;

/// Colour component bit `B`.
pub const COLOR_COMPONENT_B: u32 = 0x4;

/// Colour component bit `A`.
pub const COLOR_COMPONENT_A: u32 = 0x8;

} // verus!
