use r2r2::errors::VulkanError;
use r2r2::image::{
    aspect_mask, find_depth_format, texture_images, transition_image_layout, transition_masks, Image,
};
use r2r2::vk;

#[test]
fn transition_to_transfer_destination() {
    let m = transition_masks(vk::IMAGE_LAYOUT_UNDEFINED, vk::IMAGE_LAYOUT_TRANSFER_DST_OPTIMAL).unwrap();
    assert_eq!(m.src_access, 0);
    assert_eq!(m.dst_access, vk::ACCESS_TRANSFER_WRITE);
    assert_eq!(m.src_stage, vk::PIPELINE_STAGE_TOP_OF_PIPE);
    assert_eq!(m.dst_stage, vk::PIPELINE_STAGE_TRANSFER);
    let s = transition_masks(vk::IMAGE_LAYOUT_UNDEFINED, vk::IMAGE_LAYOUT_TRANSFER_SRC_OPTIMAL).unwrap();
    assert_eq!(s, m);
}

#[test]
fn transition_to_shader_read() {
    let m = transition_masks(
        vk::IMAGE_LAYOUT_TRANSFER_DST_OPTIMAL,
        vk::IMAGE_LAYOUT_SHADER_READ_ONLY_OPTIMAL,
    )
    .unwrap();
    assert_eq!(m.src_access, vk::ACCESS_TRANSFER_WRITE);
    assert_eq!(m.dst_access, vk::ACCESS_SHADER_READ);
    assert_eq!(m.src_stage, vk::PIPELINE_STAGE_TRANSFER);
    assert_eq!(m.dst_stage, vk::PIPELINE_STAGE_FRAGMENT_SHADER);
}

#[test]
fn transition_to_depth_attachment() {
    let b = transition_image_layout(
        vk::FORMAT_D32_SFLOAT_S8_UINT,
        vk::IMAGE_LAYOUT_UNDEFINED,
        vk::IMAGE_LAYOUT_DEPTH_STENCIL_ATTACHMENT_OPTIMAL,
    )
    .unwrap();
    assert_eq!(b.aspect_mask, vk::IMAGE_ASPECT_DEPTH | vk::IMAGE_ASPECT_STENCIL);
    assert_eq!(
        b.masks.dst_access,
        vk::ACCESS_DEPTH_STENCIL_ATTACHMENT_READ | vk::ACCESS_DEPTH_STENCIL_ATTACHMENT_WRITE
    );
    assert_eq!(b.masks.dst_stage, vk::PIPELINE_STAGE_EARLY_FRAGMENT_TESTS);
    assert_eq!(b.old_layout, vk::IMAGE_LAYOUT_UNDEFINED);
}

#[test]
fn unsupported_transition_fails() {
    let r = transition_image_layout(
        vk::FORMAT_B8G8R8A8_UNORM,
        vk::IMAGE_LAYOUT_SHADER_READ_ONLY_OPTIMAL,
        vk::IMAGE_LAYOUT_TRANSFER_DST_OPTIMAL,
    );
    assert!(matches!(r, Err(VulkanError::ImageCreationError(_))));
    let r = transition_masks(vk::IMAGE_LAYOUT_UNDEFINED, vk::IMAGE_LAYOUT_PRESENT_SRC);
    assert!(matches!(r, Err(VulkanError::ImageCreationError(_))));
}

#[test]
fn aspect_masks() {
    assert_eq!(
        aspect_mask(vk::IMAGE_LAYOUT_DEPTH_STENCIL_ATTACHMENT_OPTIMAL, vk::FORMAT_D32_SFLOAT),
        vk::IMAGE_ASPECT_DEPTH
    );
    assert_eq!(
        aspect_mask(vk::IMAGE_LAYOUT_DEPTH_STENCIL_ATTACHMENT_OPTIMAL, vk::FORMAT_D24_UNORM_S8_UINT),
        vk::IMAGE_ASPECT_DEPTH | vk::IMAGE_ASPECT_STENCIL
    );
    assert_eq!(
        aspect_mask(vk::IMAGE_LAYOUT_TRANSFER_DST_OPTIMAL, vk::FORMAT_D32_SFLOAT),
        vk::IMAGE_ASPECT_COLOR
    );
}

#[test]
fn depth_format_preference() {
    let f = vk::FORMAT_FEATURE_DEPTH_STENCIL_ATTACHMENT;
    assert_eq!(find_depth_format(&vec![f, f, f]).unwrap(), vk::FORMAT_D32_SFLOAT);
    assert_eq!(find_depth_format(&vec![0, 0, f | 1]).unwrap(), vk::FORMAT_D24_UNORM_S8_UINT);
    assert!(matches!(
        find_depth_format(&vec![0, 1, 0x100]),
        Err(VulkanError::DepthResourcesCreationError(_))
    ));
}

#[test]
fn placeholder_texture_when_none() {
    let r = texture_images(vec![]);
    assert_eq!(r.len(), 1);
    assert_eq!(r[0].pixels, vec![255, 0, 255, 255]);
    assert_eq!((r[0].tex_width, r[0].tex_height), (1, 1));
    let own = Image { pixels: vec![1, 2, 3, 4], tex_width: 1, tex_height: 1, tex_channels: 4 };
    let r = texture_images(vec![own]);
    assert_eq!(r.len(), 1);
    assert_eq!(r[0].pixels, vec![1, 2, 3, 4]);
}
