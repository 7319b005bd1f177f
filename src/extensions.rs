//! The instance and device extensions the renderer knows by name.
use vstd::prelude::*;

verus! {

/// Instance extensions the renderer may enable.
#[derive(Clone, Copy, Debug, PartialEq, Eq, Structural)]
pub enum InstanceExtensions {
    KhrGetPhysicalDeviceProperties2,
}

impl InstanceExtensions {
    /// The extension's name as the driver reports it.
    pub fn name(&self) -> (r: &'static str)
        ensures
            r@ == "VK_KHR_get_physical_device_properties2"@,
    {
        match self {
            InstanceExtensions::KhrGetPhysicalDeviceProperties2 => "VK_KHR_get_physical_device_properties2",
        }
    }
}

/// Device extensions the renderer may require; any other name a device
/// reports is `NotImplemented`.
#[derive(Clone, Copy, Debug, PartialEq, Eq, Structural)]
pub enum DeviceExtensions {
    ExtDescriptorIndexing,
    KhrMaintenance3,
    KhrSwapchain,
    NvRayTracing,
    NotImplemented,
}

/// The extension a reported name stands for.
pub open spec fn extension_of(name: Seq<char>) -> DeviceExtensions {
    if name == "VK_EXT_descriptor_indexing"@ {
        DeviceExtensions::ExtDescriptorIndexing
    } else if name == "VK_KHR_maintenance3"@ {
        DeviceExtensions::KhrMaintenance3
    } else if name == "VK_KHR_swapchain"@ {
        DeviceExtensions::KhrSwapchain
    } else if name == "VK_NV_ray_tracing"@ {
        DeviceExtensions::NvRayTracing
    } else {
        DeviceExtensions::NotImplemented
    }
}

/// The name of an extension; `NotImplemented` has a placeholder name that
/// no driver reports.
pub open spec fn name_of(e: DeviceExtensions) -> Seq<char> {
    match e {
        DeviceExtensions::ExtDescriptorIndexing => "VK_EXT_descriptor_indexing"@,
        DeviceExtensions::KhrMaintenance3 => "VK_KHR_maintenance3"@,
        DeviceExtensions::KhrSwapchain => "VK_KHR_swapchain"@,
        DeviceExtensions::NvRayTracing => "VK_NV_ray_tracing"@,
        DeviceExtensions::NotImplemented => "NotImplemented"@,
    }
}

impl DeviceExtensions {
    /// The extension named `name`.
    pub fn from_name(name: &str) -> (r: DeviceExtensions)
        ensures
            r == extension_of(name@),
    {
        let n = name.to_owned();
        if n == "VK_EXT_descriptor_indexing".to_owned() {
            DeviceExtensions::ExtDescriptorIndexing
        } else if n == "VK_KHR_maintenance3".to_owned() {
            DeviceExtensions::KhrMaintenance3
        } else if n == "VK_KHR_swapchain".to_owned() {
            DeviceExtensions::KhrSwapchain
        } else if n == "VK_NV_ray_tracing".to_owned() {
            DeviceExtensions::NvRayTracing
        } else {
            DeviceExtensions::NotImplemented
        }
    }

    /// The extension's name as the driver reports it.
    pub fn name(&self) -> (r: &'static str)
        ensures
            r@ == name_of(*self),
    {
        match self {
            DeviceExtensions::ExtDescriptorIndexing => "VK_EXT_descriptor_indexing",
            DeviceExtensions::KhrMaintenance3 => "VK_KHR_maintenance3",
            DeviceExtensions::KhrSwapchain => "VK_KHR_swapchain",
            DeviceExtensions::NvRayTracing => "VK_NV_ray_tracing",
            DeviceExtensions::NotImplemented => "NotImplemented",
        }
    }
}

} // verus!
