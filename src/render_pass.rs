//! The render pass the frames are drawn in: a color attachment that ends
//! up presented and a depth attachment, over two subpasses.
use vstd::prelude::*;

use crate::errors::VulkanError;
use crate::image::{depth_format_choice, find_depth_format};
use crate::vk;

verus! {

/// `VkAttachmentLoadOp` and `VkAttachmentStoreOp` values.
pub const LOAD_OP_CLEAR: i32 = 1;
pub const LOAD_OP_DONT_CARE: i32 = 2;
pub const STORE_OP_STORE: i32 = 0;
pub const STORE_OP_DONT_CARE: i32 = 1;

/// One attachment: its format, what happens to its contents at the start
/// and end of the pass, and its layouts before and after.
#[derive(Clone, Copy, Debug, PartialEq, Eq, Structural)]
pub struct AttachmentDescription {
    pub format: vk::Format,
    pub load_op: i32,
    pub store_op: i32,
    pub stencil_load_op: i32,
    pub stencil_store_op: i32,
    pub initial_layout: vk::ImageLayout,
    pub final_layout: vk::ImageLayout,
}

/// An execution and memory dependency between two subpasses.
#[derive(Clone, Copy, Debug, PartialEq, Eq, Structural)]
pub struct SubpassDependency {
    pub src_subpass: u32,
    pub dst_subpass: u32,
    pub src_stage: u32,
    pub dst_stage: u32,
    pub src_access: u32,
    pub dst_access: u32,
    pub by_region: bool,
}

/// The render pass: attachment 0 is color, attachment 1 depth; each of the
/// two subpasses uses both.
#[derive(Clone, Copy, Debug, PartialEq, Eq, Structural)]
pub struct RenderPassDescription {
    pub color: AttachmentDescription,
    pub depth: AttachmentDescription,
    pub color_reference_layout: vk::ImageLayout,
    pub depth_reference_layout: vk::ImageLayout,
    pub subpass_count: u32,
    pub external_to_first: SubpassDependency,
    pub first_to_second: SubpassDependency,
}

pub open spec fn color_access() -> u32 {
    vk::ACCESS_COLOR_ATTACHMENT_READ | vk::ACCESS_COLOR_ATTACHMENT_WRITE
}

/// The render pass for a swapchain of `color_format` and a depth buffer
/// of `depth_format`.
pub open spec fn render_pass_of(color_format: vk::Format, depth_format: vk::Format) -> RenderPassDescription {
    RenderPassDescription {
        color: AttachmentDescription {
            format: color_format,
            load_op: LOAD_OP_CLEAR,
            store_op: STORE_OP_STORE,
            stencil_load_op: LOAD_OP_DONT_CARE,
            stencil_store_op: STORE_OP_DONT_CARE,
            initial_layout: vk::IMAGE_LAYOUT_UNDEFINED,
            final_layout: vk::IMAGE_LAYOUT_PRESENT_SRC,
        },
        depth: AttachmentDescription {
            format: depth_format,
            load_op: LOAD_OP_CLEAR,
            store_op: STORE_OP_DONT_CARE,
            stencil_load_op: LOAD_OP_DONT_CARE,
            stencil_store_op: STORE_OP_DONT_CARE,
            initial_layout: vk::IMAGE_LAYOUT_UNDEFINED,
            final_layout: vk::IMAGE_LAYOUT_DEPTH_STENCIL_ATTACHMENT_OPTIMAL,
        },
        color_reference_layout: vk::IMAGE_LAYOUT_COLOR_ATTACHMENT_OPTIMAL,
        depth_reference_layout: vk::IMAGE_LAYOUT_DEPTH_STENCIL_ATTACHMENT_OPTIMAL,
        subpass_count: 2,
        external_to_first: SubpassDependency {
            src_subpass: vk::SUBPASS_EXTERNAL,
            dst_subpass: 0,
            src_stage: vk::PIPELINE_STAGE_BOTTOM_OF_PIPE,
            dst_stage: vk::PIPELINE_STAGE_COLOR_ATTACHMENT_OUTPUT,
            src_access: vk::ACCESS_MEMORY_READ,
            dst_access: color_access(),
            by_region: true,
        },
        first_to_second: SubpassDependency {
            src_subpass: 0,
            dst_subpass: 1,
            src_stage: vk::PIPELINE_STAGE_COLOR_ATTACHMENT_OUTPUT,
            dst_stage: vk::PIPELINE_STAGE_BOTTOM_OF_PIPE,
            src_access: color_access(),
            dst_access: vk::ACCESS_MEMORY_READ,
            by_region: true,
        },
    }
}

/// Describes the render pass for the surface's color format, its depth
/// attachment in the preferred supported depth format (given the features
/// of each depth candidate); fails when the device supports none.
pub fn render_pass_description(color_format: vk::Format, depth_candidate_features: &Vec<u32>) -> (r:
    Result<RenderPassDescription, VulkanError>)
    requires
        depth_candidate_features.len() == 3,
    ensures
        match depth_format_choice(depth_candidate_features@) {
            Some(d) => r == Ok::<RenderPassDescription, VulkanError>(render_pass_of(color_format, d)),
            None => r is Err && r->Err_0 is RenderPassCreationError,
        },
{
    let depth_format = match find_depth_format(depth_candidate_features) {
        Ok(f) => f,
        Err(_) => {
            return Err(VulkanError::RenderPassCreationError("Cannot find depth format".to_string()));
        },
    };
    let color_access = vk::ACCESS_COLOR_ATTACHMENT_READ | vk::ACCESS_COLOR_ATTACHMENT_WRITE;
    Ok(
        RenderPassDescription {
            color: AttachmentDescription {
                format: color_format,
                load_op: LOAD_OP_CLEAR,
                store_op: STORE_OP_STORE,
                stencil_load_op: LOAD_OP_DONT_CARE,
                stencil_store_op: STORE_OP_DONT_CARE,
                initial_layout: vk::IMAGE_LAYOUT_UNDEFINED,
                final_layout: vk::IMAGE_LAYOUT_PRESENT_SRC,
            },
            depth: AttachmentDescription {
                format: depth_format,
                load_op: LOAD_OP_CLEAR,
                store_op: STORE_OP_DONT_CARE,
                stencil_load_op: LOAD_OP_DONT_CARE,
                stencil_store_op: STORE_OP_DONT_CARE,
                initial_layout: vk::IMAGE_LAYOUT_UNDEFINED,
                final_layout: vk::IMAGE_LAYOUT_DEPTH_STENCIL_ATTACHMENT_OPTIMAL,
            },
            color_reference_layout: vk::IMAGE_LAYOUT_COLOR_ATTACHMENT_OPTIMAL,
            depth_reference_layout: vk::IMAGE_LAYOUT_DEPTH_STENCIL_ATTACHMENT_OPTIMAL,
            subpass_count: 2,
            external_to_first: SubpassDependency {
                src_subpass: vk::SUBPASS_EXTERNAL,
                dst_subpass: 0,
                src_stage: vk::PIPELINE_STAGE_BOTTOM_OF_PIPE,
                dst_stage: vk::PIPELINE_STAGE_COLOR_ATTACHMENT_OUTPUT,
                src_access: vk::ACCESS_MEMORY_READ,
                dst_access: color_access,
                by_region: true,
            },
            first_to_second: SubpassDependency {
                src_subpass: 0,
                dst_subpass: 1,
                src_stage: vk::PIPELINE_STAGE_COLOR_ATTACHMENT_OUTPUT,
                dst_stage: vk::PIPELINE_STAGE_BOTTOM_OF_PIPE,
                src_access: color_access,
                dst_access: vk::ACCESS_MEMORY_READ,
                by_region: true,
            },
        },
    )
}

} // verus!
