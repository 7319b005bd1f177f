use r2r2::acceleration_structure::instances_for;
use r2r2::application::VulkanContextBuilder;
use r2r2::descriptor_set::{graphics_bindings, graphics_descriptor_writes, graphics_pool_sizes, DescriptorResource};
use r2r2::errors::VulkanError;
use r2r2::image::{back_buffer_acquire_barrier, back_buffer_present_barrier, depth_resources};
use r2r2::render_pass::{render_pass_description, LOAD_OP_CLEAR, STORE_OP_DONT_CARE};
use r2r2::vk;

#[test]
fn depth_buffer_plan() {
    let f = vk::FORMAT_FEATURE_DEPTH_STENCIL_ATTACHMENT;
    let d = depth_resources(640, 480, &vec![0, f, f]).unwrap();
    assert_eq!(d.image.format, vk::FORMAT_D32_SFLOAT_S8_UINT);
    assert_eq!((d.image.width, d.image.height), (640, 480));
    assert_eq!(d.image.usage, vk::IMAGE_USAGE_DEPTH_STENCIL_ATTACHMENT);
    assert_eq!(d.view_aspect, vk::IMAGE_ASPECT_DEPTH);
    assert_eq!(d.transition.new_layout, vk::IMAGE_LAYOUT_DEPTH_STENCIL_ATTACHMENT_OPTIMAL);
    assert_eq!(d.transition.aspect_mask, vk::IMAGE_ASPECT_DEPTH | vk::IMAGE_ASPECT_STENCIL);
    assert!(matches!(depth_resources(1, 1, &vec![0, 0, 0]), Err(VulkanError::DepthResourcesCreationError(_))));
}

#[test]
fn render_pass_attachments() {
    let f = vk::FORMAT_FEATURE_DEPTH_STENCIL_ATTACHMENT;
    let rp = render_pass_description(vk::FORMAT_B8G8R8A8_UNORM, &vec![f, 0, 0]).unwrap();
    assert_eq!(rp.color.format, vk::FORMAT_B8G8R8A8_UNORM);
    assert_eq!(rp.color.final_layout, vk::IMAGE_LAYOUT_PRESENT_SRC);
    assert_eq!(rp.depth.format, vk::FORMAT_D32_SFLOAT);
    assert_eq!(rp.depth.load_op, LOAD_OP_CLEAR);
    assert_eq!(rp.depth.store_op, STORE_OP_DONT_CARE);
    assert_eq!(rp.external_to_first.src_subpass, vk::SUBPASS_EXTERNAL);
    assert_eq!(rp.first_to_second.dst_subpass, 1);
    let r = render_pass_description(vk::FORMAT_B8G8R8A8_UNORM, &vec![0, 0, 0]);
    assert!(matches!(r, Err(VulkanError::RenderPassCreationError(_))));
}

#[test]
fn back_buffer_barriers_bracket_the_trace() {
    let a = back_buffer_acquire_barrier();
    let p = back_buffer_present_barrier();
    assert_eq!(a.new_layout, p.old_layout);
    assert_eq!(p.new_layout, vk::IMAGE_LAYOUT_PRESENT_SRC);
    assert_eq!(a.masks.dst_access, p.masks.src_access);
}

#[test]
fn graphics_descriptor_layout() {
    let b = graphics_bindings(2);
    assert_eq!(b.len(), 3);
    assert_eq!(b[1].stage_flags, vk::SHADER_STAGE_VERTEX | vk::SHADER_STAGE_FRAGMENT);
    assert_eq!(b[2].descriptor_count, 2);
    assert_eq!(graphics_pool_sizes().len(), 3);
    let w = graphics_descriptor_writes(5, 6, &vec![]);
    assert_eq!(w[0].resource, DescriptorResource::Buffer(5));
    assert_eq!(w[1].binding, 1);
    assert_eq!(w[2].resource, DescriptorResource::Textures(vec![]));
}

#[test]
fn one_instance_per_bottom_level() {
    let t = [7u32; 16];
    let inst = instances_for(&vec![10, 20, 30], &t);
    assert_eq!(inst.len(), 3);
    assert_eq!(inst[2].bottom_level_as, 30);
    assert_eq!(inst[2].instance_id, 2);
    assert_eq!(inst[2].hit_group_index, 4);
    assert_eq!(inst[0].transform, t);
}

#[test]
fn context_defaults_to_two_frames() {
    let b = VulkanContextBuilder::new().with_width(800).with_height(600);
    assert_eq!(b.frames_count, 2);
    let s = b.frame_sync().unwrap();
    assert_eq!(s.frames_count, 2);
    assert!(matches!(b.with_frames_count(0).frame_sync(), Err(VulkanError::DeviceError(_))));
}
