//! Raw values of the Vulkan enumerations and bit flags the renderer works with.
//! They are kept as plain integers so that the decisions taken on them can be
//! stated and proved; the driver layer converts them to and from its own types.
use vstd::prelude::*;

verus! {

/// A Vulkan format (`VkFormat`).
pub type Format = i32;

/// A Vulkan color space (`VkColorSpaceKHR`).
pub type ColorSpace = i32;

/// A Vulkan present mode (`VkPresentModeKHR`).
pub type PresentMode = i32;

/// A Vulkan image layout (`VkImageLayout`).
pub type ImageLayout = i32;

/// A Vulkan descriptor type (`VkDescriptorType`).
pub type DescriptorType = i32;

pub const FORMAT_UNDEFINED: Format = 0;
pub const FORMAT_R8G8B8_UNORM: Format = 23;
pub const FORMAT_B8G8R8_UNORM: Format = 30;
pub const FORMAT_R8G8B8A8_UNORM: Format = 37;
pub const FORMAT_B8G8R8A8_UNORM: Format = 44;
pub const FORMAT_R32G32B32_SFLOAT: Format = 106;
pub const FORMAT_D32_SFLOAT: Format = 126;
pub const FORMAT_D24_UNORM_S8_UINT: Format = 129;
pub const FORMAT_D32_SFLOAT_S8_UINT: Format = 130;

pub const COLOR_SPACE_SRGB_NONLINEAR: ColorSpace = 0;

pub const PRESENT_MODE_IMMEDIATE: PresentMode = 0;
pub const PRESENT_MODE_MAILBOX: PresentMode = 1;
pub const PRESENT_MODE_FIFO: PresentMode = 2;
pub const PRESENT_MODE_FIFO_RELAXED: PresentMode = 3;

pub const IMAGE_LAYOUT_UNDEFINED: ImageLayout = 0;
pub const IMAGE_LAYOUT_GENERAL: ImageLayout = 1;
pub const IMAGE_LAYOUT_COLOR_ATTACHMENT_OPTIMAL: ImageLayout = 2;
pub const IMAGE_LAYOUT_DEPTH_STENCIL_ATTACHMENT_OPTIMAL: ImageLayout = 3;
pub const IMAGE_LAYOUT_SHADER_READ_ONLY_OPTIMAL: ImageLayout = 5;
pub const IMAGE_LAYOUT_TRANSFER_SRC_OPTIMAL: ImageLayout = 6;
pub const IMAGE_LAYOUT_TRANSFER_DST_OPTIMAL: ImageLayout = 7;
pub const IMAGE_LAYOUT_PRESENT_SRC: ImageLayout = 1000001002;

pub const DESCRIPTOR_TYPE_COMBINED_IMAGE_SAMPLER: DescriptorType = 1;
pub const DESCRIPTOR_TYPE_STORAGE_IMAGE: DescriptorType = 3;
pub const DESCRIPTOR_TYPE_UNIFORM_BUFFER: DescriptorType = 6;
pub const DESCRIPTOR_TYPE_STORAGE_BUFFER: DescriptorType = 7;
pub const DESCRIPTOR_TYPE_ACCELERATION_STRUCTURE: DescriptorType = 1000165000;

// VkBufferUsageFlags
pub const BUFFER_USAGE_TRANSFER_SRC: u32 = 0x1;
pub const BUFFER_USAGE_TRANSFER_DST: u32 = 0x2;
pub const BUFFER_USAGE_UNIFORM_BUFFER: u32 = 0x10;
pub const BUFFER_USAGE_STORAGE_BUFFER: u32 = 0x20;
pub const BUFFER_USAGE_INDEX_BUFFER: u32 = 0x40;
pub const BUFFER_USAGE_VERTEX_BUFFER: u32 = 0x80;
pub const BUFFER_USAGE_RAY_TRACING: u32 = 0x400;

// VkMemoryPropertyFlags
pub const MEMORY_PROPERTY_DEVICE_LOCAL: u32 = 0x1;
pub const MEMORY_PROPERTY_HOST_VISIBLE: u32 = 0x2;
pub const MEMORY_PROPERTY_HOST_COHERENT: u32 = 0x4;

// VkAccessFlags
pub const ACCESS_NONE: u32 = 0;
pub const ACCESS_SHADER_READ: u32 = 0x20;
pub const ACCESS_DEPTH_STENCIL_ATTACHMENT_READ: u32 = 0x200;
pub const ACCESS_DEPTH_STENCIL_ATTACHMENT_WRITE: u32 = 0x400;
pub const ACCESS_COLOR_ATTACHMENT_READ: u32 = 0x80;
pub const ACCESS_COLOR_ATTACHMENT_WRITE: u32 = 0x100;
pub const ACCESS_TRANSFER_WRITE: u32 = 0x1000;
pub const ACCESS_MEMORY_READ: u32 = 0x8000;
pub const ACCESS_ACCELERATION_STRUCTURE_READ: u32 = 0x200000;
pub const ACCESS_ACCELERATION_STRUCTURE_WRITE: u32 = 0x400000;

// VkPipelineStageFlags
pub const PIPELINE_STAGE_TOP_OF_PIPE: u32 = 0x1;
pub const PIPELINE_STAGE_FRAGMENT_SHADER: u32 = 0x80;
pub const PIPELINE_STAGE_EARLY_FRAGMENT_TESTS: u32 = 0x100;
pub const PIPELINE_STAGE_COLOR_ATTACHMENT_OUTPUT: u32 = 0x400;
pub const PIPELINE_STAGE_TRANSFER: u32 = 0x1000;
pub const PIPELINE_STAGE_BOTTOM_OF_PIPE: u32 = 0x2000;
pub const PIPELINE_STAGE_ALL_COMMANDS: u32 = 0x10000;
pub const PIPELINE_STAGE_ACCELERATION_STRUCTURE_BUILD: u32 = 0x2000000;

// VkImageAspectFlags
pub const IMAGE_ASPECT_COLOR: u32 = 0x1;
pub const IMAGE_ASPECT_DEPTH: u32 = 0x2;
pub const IMAGE_ASPECT_STENCIL: u32 = 0x4;

// VkImageUsageFlags
pub const IMAGE_USAGE_DEPTH_STENCIL_ATTACHMENT: u32 = 0x20;
pub const IMAGE_USAGE_STORAGE: u32 = 0x8;
pub const IMAGE_USAGE_COLOR_ATTACHMENT: u32 = 0x10;

// VkFormatFeatureFlags
pub const FORMAT_FEATURE_DEPTH_STENCIL_ATTACHMENT: u32 = 0x200;

// VkQueueFlags
pub const QUEUE_GRAPHICS: u32 = 0x1;

// VkShaderStageFlags
pub const SHADER_STAGE_VERTEX: u32 = 0x1;
pub const SHADER_STAGE_FRAGMENT: u32 = 0x10;
pub const SHADER_STAGE_RAYGEN: u32 = 0x100;
pub const SHADER_STAGE_ANY_HIT: u32 = 0x200;
pub const SHADER_STAGE_CLOSEST_HIT: u32 = 0x400;
pub const SHADER_STAGE_MISS: u32 = 0x800;
pub const SHADER_STAGE_INTERSECTION: u32 = 0x1000;

// VkGeometryInstanceFlagsNV
pub const GEOMETRY_INSTANCE_TRIANGLE_CULL_DISABLE: u8 = 0x1;

/// `VK_SUBPASS_EXTERNAL`: what comes before or after the render pass.
pub const SUBPASS_EXTERNAL: u32 = 0xffff_ffff;

/// Marks a shader slot of a shader group as unused (`VK_SHADER_UNUSED_NV`).
pub const SHADER_UNUSED: u32 = 0xffff_ffff;

/// `flags` holds every bit of `required`.
pub open spec fn contains(flags: u32, required: u32) -> bool {
    flags & required == required
}

/// Tests whether `flags` holds every bit of `required`.
pub fn flags_contain(flags: u32, required: u32) -> (r: bool)
    ensures
        r == contains(flags, required),
{
    flags & required == required
}

} // verus!
