use r2r2::surface::{
    select_present_mode, select_surface_format, Extent2D, SurfaceCapabilities, SurfaceFormat,
    SwapchainBuilder,
};
use r2r2::vk;

fn sf(format: i32, color_space: i32) -> SurfaceFormat {
    SurfaceFormat { format, color_space }
}

#[test]
fn fifo_only_driver_gives_fifo() {
    assert_eq!(select_present_mode(&vec![vk::PRESENT_MODE_FIFO]), vk::PRESENT_MODE_FIFO);
}

#[test]
fn present_mode_preference() {
    let all = vec![vk::PRESENT_MODE_FIFO, vk::PRESENT_MODE_IMMEDIATE, vk::PRESENT_MODE_MAILBOX];
    assert_eq!(select_present_mode(&all), vk::PRESENT_MODE_MAILBOX);
    let no_mailbox = vec![vk::PRESENT_MODE_IMMEDIATE, vk::PRESENT_MODE_FIFO_RELAXED];
    assert_eq!(select_present_mode(&no_mailbox), vk::PRESENT_MODE_IMMEDIATE);
    assert_eq!(select_present_mode(&vec![]), vk::PRESENT_MODE_FIFO);
}

#[test]
fn surface_format_choice() {
    let srgb = vk::COLOR_SPACE_SRGB_NONLINEAR;
    assert_eq!(
        select_surface_format(&vec![sf(vk::FORMAT_UNDEFINED, srgb)]),
        sf(vk::FORMAT_B8G8R8A8_UNORM, srgb)
    );
    assert_eq!(select_surface_format(&vec![sf(50, 7)]), sf(50, 7));
    let offered = vec![sf(50, srgb), sf(vk::FORMAT_R8G8B8_UNORM, srgb), sf(vk::FORMAT_R8G8B8A8_UNORM, srgb)];
    assert_eq!(select_surface_format(&offered), sf(vk::FORMAT_R8G8B8A8_UNORM, srgb));
    let wrong_space = vec![sf(50, srgb), sf(vk::FORMAT_B8G8R8A8_UNORM, 5)];
    assert_eq!(select_surface_format(&wrong_space), sf(50, srgb));
}

#[test]
fn swapchain_size_and_image_count() {
    let fmt = sf(vk::FORMAT_B8G8R8A8_UNORM, vk::COLOR_SPACE_SRGB_NONLINEAR);
    let b = SwapchainBuilder::new(fmt, vk::PRESENT_MODE_FIFO).with_width(800).with_height(600);
    let cap = SurfaceCapabilities {
        min_image_count: 2,
        max_image_count: 3,
        current_extent: Extent2D { width: u32::MAX, height: u32::MAX },
    };
    let info = b.create_info(cap);
    assert_eq!(info.min_image_count, 3);
    assert_eq!(info.extent, Extent2D { width: 800, height: 600 });
    assert_eq!(info.old_swapchain, 0);
    assert_eq!(info.image_usage, vk::IMAGE_USAGE_COLOR_ATTACHMENT | vk::IMAGE_USAGE_STORAGE);
    let cap = SurfaceCapabilities {
        min_image_count: 2,
        max_image_count: 0,
        current_extent: Extent2D { width: 1024, height: 768 },
    };
    let info = b.with_old_swapchain(42).create_info(cap);
    assert_eq!(info.min_image_count, 4);
    assert_eq!(info.extent, Extent2D { width: 1024, height: 768 });
    assert_eq!(info.old_swapchain, 42);
}
