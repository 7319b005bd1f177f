//! Choosing the physical device and the queue family to render with.
use vstd::prelude::*;

use crate::errors::VulkanError;
use crate::extensions::DeviceExtensions;
use crate::vk;

verus! {

/// What the renderer reads of one queue family of a device: its queue flags,
/// its number of queues, and whether it can present to the target surface.
#[derive(Clone, Copy, Debug, PartialEq, Eq, Structural)]
pub struct QueueFamilyProperties {
    pub queue_flags: u32,
    pub queue_count: u32,
    pub present_support: bool,
}

/// The family has queues that do graphics work.
pub open spec fn graphics_capable(f: QueueFamilyProperties) -> bool {
    f.queue_count > 0 && vk::contains(f.queue_flags, vk::QUEUE_GRAPHICS)
}

/// The family supports graphics work and presentation alike.
pub open spec fn renders_and_presents(f: QueueFamilyProperties) -> bool {
    vk::contains(f.queue_flags, vk::QUEUE_GRAPHICS) && f.present_support
}

/// Picks the first queue family that supports both graphics work and
/// presentation to the surface.
pub fn select_queue_family(families: &Vec<QueueFamilyProperties>) -> (r: Result<u32, VulkanError>)
    requires
        families.len() <= u32::MAX,
    ensures
        match r {
            Ok(i) => {
                &&& i < families.len()
                &&& renders_and_presents(families@[i as int])
                &&& forall|j: int| 0 <= j < i ==> !renders_and_presents(#[trigger] families@[j])
            },
            Err(e) => {
                &&& e is QueueFamilyCreationError
                &&& forall|j: int|
                    0 <= j < families.len() ==> !renders_and_presents(#[trigger] families@[j])
            },
        },
{
    let mut i: usize = 0;
    while i < families.len()
        invariant
            i <= families.len() <= u32::MAX,
            forall|j: int| 0 <= j < i ==> !renders_and_presents(#[trigger] families@[j]),
        decreases families.len() - i,
    {
        let f = families[i];
        if vk::flags_contain(f.queue_flags, vk::QUEUE_GRAPHICS) && f.present_support {
            return Ok(i as u32);
        }
        i = i + 1;
    }
    Err(VulkanError::QueueFamilyCreationError("Cannot find queue family".to_string()))
}

/// The queue families found for graphics work and for presentation.
#[derive(Clone, Copy, Debug, PartialEq, Eq, Structural)]
pub struct QueueFamilyIndices {
    pub graphics_family: Option<usize>,
    pub present_family: Option<usize>,
}

impl QueueFamilyIndices {
    /// A family was found for each purpose.
    pub fn is_complete(&self) -> (r: bool)
        ensures
            r == (self.graphics_family is Some && self.present_family is Some),
    {
        self.graphics_family.is_some() && self.present_family.is_some()
    }
}

/// Among the families up to index `k`, one does graphics work and one
/// presents.
pub open spec fn complete_by(families: Seq<QueueFamilyProperties>, k: int) -> bool {
    &&& exists|g: int| 0 <= g <= k && #[trigger] graphics_capable(families[g])
    &&& exists|p: int| 0 <= p <= k && #[trigger] families[p].present_support
}

/// `found` is the last family up to `end` that has `property`, or none if
/// no family up to `end` has it.
pub open spec fn last_up_to(
    families: Seq<QueueFamilyProperties>,
    end: int,
    found: Option<usize>,
    property: spec_fn(QueueFamilyProperties) -> bool,
) -> bool {
    match found {
        Some(i) => i <= end && property(families[i as int]) && forall|j: int|
            i < j <= end ==> !property(#[trigger] families[j]),
        None => forall|j: int| 0 <= j <= end ==> !property(#[trigger] families[j]),
    }
}

/// Scans the families in order, noting the latest one that does graphics
/// work and the latest one that presents, and stops at the first family by
/// which both were seen.
pub fn find_queue_families(families: &Vec<QueueFamilyProperties>) -> (r: QueueFamilyIndices)
    ensures
        (r.graphics_family is Some && r.present_family is Some) <==> complete_by(
            families@,
            families.len() - 1,
        ),
        exists|end: int|
            {
                &&& -1 <= end < families.len()
                &&& (end == families.len() - 1 || complete_by(families@, end))
                &&& forall|k: int| 0 <= k < end ==> !#[trigger] complete_by(families@, k)
                &&& last_up_to(families@, end, r.graphics_family, |f| graphics_capable(f))
                &&& last_up_to(
                    families@,
                    end,
                    r.present_family,
                    |f: QueueFamilyProperties| f.present_support,
                )
            },
{
    let mut graphics_family: Option<usize> = None;
    let mut present_family: Option<usize> = None;
    let mut i: usize = 0;
    let ghost gp = |f| graphics_capable(f);
    let ghost pp = |f: QueueFamilyProperties| f.present_support;
    while i < families.len()
        invariant
            i <= families.len(),
            forall|k: int| 0 <= k < i ==> !#[trigger] complete_by(families@, k),
            last_up_to(families@, i - 1, graphics_family, gp),
            last_up_to(families@, i - 1, present_family, pp),
            gp == (|f| graphics_capable(f)),
            pp == (|f: QueueFamilyProperties| f.present_support),
        decreases families.len() - i,
    {
        let f = families[i];
        if f.queue_count > 0 && vk::flags_contain(f.queue_flags, vk::QUEUE_GRAPHICS) {
            graphics_family = Some(i);
        }
        if f.present_support {
            present_family = Some(i);
        }
        assert(last_up_to(families@, i as int, graphics_family, gp));
        assert(last_up_to(families@, i as int, present_family, pp));
        if graphics_family.is_some() && present_family.is_some() {
            assert(complete_by(families@, i as int)) by {
                let g = graphics_family->0 as int;
                let p = present_family->0 as int;
                assert(graphics_capable(families@[g]));
                assert(families@[p].present_support);
            }
            proof {
                assert forall|k: int| i <= k < families.len() implies #[trigger] complete_by(
                    families@,
                    k,
                ) by {
                    let g = graphics_family->0 as int;
                    let p = present_family->0 as int;
                    assert(graphics_capable(families@[g]));
                    assert(families@[p].present_support);
                }
            }
            return QueueFamilyIndices { graphics_family, present_family };
        }
        assert(!complete_by(families@, i as int)) by {
            if complete_by(families@, i as int) {
                let g = choose|g: int| 0 <= g <= i && #[trigger] graphics_capable(families@[g]);
                let p = choose|p: int| 0 <= p <= i && #[trigger] families@[p].present_support;
                assert(gp(families@[g]));
                assert(pp(families@[p]));
            }
        }
        i = i + 1;
    }
    QueueFamilyIndices { graphics_family, present_family }
}

/// Every required extension is among the available ones.
pub open spec fn extensions_supported(
    available: Seq<DeviceExtensions>,
    required: Seq<DeviceExtensions>,
) -> bool {
    forall|i: int| 0 <= i < required.len() ==> available.contains(#[trigger] required[i])
}

/// Tests whether the device offers every required extension.
pub fn check_device_extensions_support(
    available: &Vec<DeviceExtensions>,
    required: &Vec<DeviceExtensions>,
) -> (r: bool)
    ensures
        r == extensions_supported(available@, required@),
{
    let mut i: usize = 0;
    while i < required.len()
        invariant
            i <= required.len(),
            forall|k: int| 0 <= k < i ==> available@.contains(#[trigger] required@[k]),
        decreases required.len() - i,
    {
        let wanted = required[i];
        let mut found = false;
        let mut j: usize = 0;
        while j < available.len()
            invariant
                j <= available.len(),
                found ==> available@.contains(wanted),
                !found ==> forall|k: int| 0 <= k < j ==> available@[k] != wanted,
            decreases available.len() - j,
        {
            if available[j] == wanted {
                found = true;
                assert(available@[j as int] == wanted);
            }
            j = j + 1;
        }
        if !found {
            assert(!available@.contains(required@[i as int]));
            return false;
        }
        i = i + 1;
    }
    true
}

/// What the renderer learns of a physical device: its queue families, its
/// extensions, how many surface formats and present modes it offers for the
/// target surface, and whether it supports anisotropic sampling.
#[derive(Clone, Debug)]
pub struct PhysicalDeviceInfo {
    pub queue_families: Vec<QueueFamilyProperties>,
    pub extensions: Vec<DeviceExtensions>,
    pub surface_format_count: usize,
    pub present_mode_count: usize,
    pub sampler_anisotropy: bool,
}

/// The device can render with the renderer: it has families for graphics
/// work and for presentation, every required extension, at least one surface
/// format and present mode, and anisotropic sampling. Whether one family
/// does both is settled afterwards, by `select_queue_family`.
pub open spec fn suitable(d: PhysicalDeviceInfo, required: Seq<DeviceExtensions>) -> bool {
    &&& complete_by(d.queue_families@, d.queue_families.len() - 1)
    &&& extensions_supported(d.extensions@, required)
    &&& d.surface_format_count > 0
    &&& d.present_mode_count > 0
    &&& d.sampler_anisotropy
}

pub fn is_device_suitable(device: &PhysicalDeviceInfo, required: &Vec<DeviceExtensions>) -> (r: bool)
    ensures
        r == suitable(*device, required@),
{
    let indices = find_queue_families(&device.queue_families);
    indices.is_complete() && check_device_extensions_support(&device.extensions, required)
        && device.surface_format_count > 0 && device.present_mode_count > 0
        && device.sampler_anisotropy
}

/// Picks the first suitable device among those enumerated.
pub fn select_physical_device(
    devices: &Vec<PhysicalDeviceInfo>,
    required: &Vec<DeviceExtensions>,
) -> (r: Result<usize, VulkanError>)
    ensures
        match r {
            Ok(i) => {
                &&& i < devices.len()
                &&& suitable(devices@[i as int], required@)
                &&& forall|j: int| 0 <= j < i ==> !suitable(#[trigger] devices@[j], required@)
            },
            Err(e) => {
                &&& e is PhysicalDeviceCreationError
                &&& forall|j: int| 0 <= j < devices.len() ==> !suitable(#[trigger] devices@[j], required@)
            },
        },
{
    let mut i: usize = 0;
    while i < devices.len()
        invariant
            i <= devices.len(),
            forall|j: int| 0 <= j < i ==> !suitable(#[trigger] devices@[j], required@),
        decreases devices.len() - i,
    {
        if is_device_suitable(&devices[i], required) {
            return Ok(i);
        }
        i = i + 1;
    }
    Err(VulkanError::PhysicalDeviceCreationError("Cannot find suitable physical device".to_string()))
}

} // verus!
