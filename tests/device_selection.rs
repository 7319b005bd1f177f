use r2r2::errors::VulkanError;
use r2r2::extensions::{DeviceExtensions, InstanceExtensions};
use r2r2::physical_device::{
    check_device_extensions_support, find_queue_families, is_device_suitable, select_physical_device,
    select_queue_family, PhysicalDeviceInfo, QueueFamilyIndices, QueueFamilyProperties,
};
use r2r2::vk;

fn family(flags: u32, count: u32, present: bool) -> QueueFamilyProperties {
    QueueFamilyProperties { queue_flags: flags, queue_count: count, present_support: present }
}

#[test]
fn queue_family_needs_graphics_and_present() {
    let fams = vec![family(vk::QUEUE_GRAPHICS, 1, false), family(0x2, 1, true), family(0x3, 4, true)];
    assert_eq!(select_queue_family(&fams).unwrap(), 2);
    let none = vec![family(vk::QUEUE_GRAPHICS, 1, false), family(0x2, 1, true)];
    assert!(matches!(select_queue_family(&none), Err(VulkanError::QueueFamilyCreationError(_))));
    assert!(select_queue_family(&vec![]).is_err());
}

#[test]
fn queue_families_found_separately() {
    let fams = vec![family(vk::QUEUE_GRAPHICS, 1, false), family(0x2, 1, true), family(0x3, 4, true)];
    let idx = find_queue_families(&fams);
    assert_eq!(idx, QueueFamilyIndices { graphics_family: Some(0), present_family: Some(1) });
    assert!(idx.is_complete());
    let idx = find_queue_families(&vec![family(vk::QUEUE_GRAPHICS, 0, true)]);
    assert_eq!(idx.graphics_family, None);
    assert!(!idx.is_complete());
}

#[test]
fn extension_names_round_trip() {
    for e in [
        DeviceExtensions::ExtDescriptorIndexing,
        DeviceExtensions::KhrMaintenance3,
        DeviceExtensions::KhrSwapchain,
        DeviceExtensions::NvRayTracing,
    ] {
        assert_eq!(DeviceExtensions::from_name(e.name()), e);
    }
    assert_eq!(DeviceExtensions::from_name("VK_KHR_swapchain"), DeviceExtensions::KhrSwapchain);
    assert_eq!(DeviceExtensions::from_name("VK_KHR_other"), DeviceExtensions::NotImplemented);
    assert_eq!(
        InstanceExtensions::KhrGetPhysicalDeviceProperties2.name(),
        "VK_KHR_get_physical_device_properties2"
    );
}

#[test]
fn extension_support() {
    let avail = vec![DeviceExtensions::KhrSwapchain, DeviceExtensions::NvRayTracing];
    assert!(check_device_extensions_support(&avail, &vec![DeviceExtensions::NvRayTracing]));
    assert!(check_device_extensions_support(&avail, &vec![]));
    assert!(!check_device_extensions_support(&avail, &vec![DeviceExtensions::KhrMaintenance3]));
}

fn device(anisotropy: bool, formats: usize) -> PhysicalDeviceInfo {
    PhysicalDeviceInfo {
        queue_families: vec![family(vk::QUEUE_GRAPHICS, 1, true)],
        extensions: vec![DeviceExtensions::KhrSwapchain],
        surface_format_count: formats,
        present_mode_count: 1,
        sampler_anisotropy: anisotropy,
    }
}

#[test]
fn first_suitable_device_is_chosen() {
    let req = vec![DeviceExtensions::KhrSwapchain];
    assert!(is_device_suitable(&device(true, 2), &req));
    assert!(!is_device_suitable(&device(false, 2), &req));
    assert!(!is_device_suitable(&device(true, 0), &req));
    let mut split = device(true, 2);
    split.queue_families = vec![family(vk::QUEUE_GRAPHICS, 1, false), family(0x2, 1, true)];
    // graphics and presentation on different families: the device is chosen,
    // and the queue family choice then fails on it
    assert!(is_device_suitable(&split, &req));
    let devices = vec![device(false, 2), split.clone(), device(true, 0), device(true, 1)];
    let chosen = select_physical_device(&devices, &req).unwrap();
    assert_eq!(chosen, 1);
    assert!(matches!(
        select_queue_family(&devices[chosen].queue_families),
        Err(VulkanError::QueueFamilyCreationError(_))
    ));
    let devices = vec![device(false, 2), device(true, 0), device(true, 1), device(true, 3)];
    assert_eq!(select_physical_device(&devices, &req).unwrap(), 2);
    let r = select_physical_device(&devices, &vec![DeviceExtensions::NvRayTracing]);
    assert!(matches!(r, Err(VulkanError::PhysicalDeviceCreationError(_))));
}
