//! Negotiating with the presentation surface: the surface format, the
//! present mode, and the size and image count of the swapchain.
use vstd::prelude::*;

use crate::vk;

verus! {

/// A format together with the color space it is presented in.
#[derive(Clone, Copy, Debug, PartialEq, Eq, Structural)]
pub struct SurfaceFormat {
    pub format: vk::Format,
    pub color_space: vk::ColorSpace,
}

/// The format used where the driver leaves the choice open.
pub open spec fn default_surface_format() -> SurfaceFormat {
    SurfaceFormat { format: vk::FORMAT_B8G8R8A8_UNORM, color_space: vk::COLOR_SPACE_SRGB_NONLINEAR }
}

/// `format` in the SRGB non-linear color space.
pub open spec fn srgb(format: vk::Format) -> SurfaceFormat {
    SurfaceFormat { format, color_space: vk::COLOR_SPACE_SRGB_NONLINEAR }
}

/// The surface format to use among those the device offers: with a single
/// undefined format the choice is free and falls to the default; with a
/// single defined one, that one; otherwise the first of B8G8R8A8, R8G8B8A8,
/// B8G8R8 and R8G8B8 (unsigned normalized) offered in SRGB non-linear, and
/// failing all of them, the first format offered.
pub open spec fn surface_format_choice(formats: Seq<SurfaceFormat>) -> SurfaceFormat {
    if formats.len() == 1 {
        if formats[0].format == vk::FORMAT_UNDEFINED {
            default_surface_format()
        } else {
            formats[0]
        }
    } else if formats.contains(srgb(vk::FORMAT_B8G8R8A8_UNORM)) {
        srgb(vk::FORMAT_B8G8R8A8_UNORM)
    } else if formats.contains(srgb(vk::FORMAT_R8G8B8A8_UNORM)) {
        srgb(vk::FORMAT_R8G8B8A8_UNORM)
    } else if formats.contains(srgb(vk::FORMAT_B8G8R8_UNORM)) {
        srgb(vk::FORMAT_B8G8R8_UNORM)
    } else if formats.contains(srgb(vk::FORMAT_R8G8B8_UNORM)) {
        srgb(vk::FORMAT_R8G8B8_UNORM)
    } else {
        formats[0]
    }
}

fn offers(formats: &Vec<SurfaceFormat>, wanted: SurfaceFormat) -> (r: bool)
    ensures
        r == formats@.contains(wanted),
{
    let mut i: usize = 0;
    while i < formats.len()
        invariant
            i <= formats.len(),
            forall|k: int| 0 <= k < i ==> formats@[k] != wanted,
        decreases formats.len() - i,
    {
        if formats[i] == wanted {
            assert(formats@[i as int] == wanted);
            return true;
        }
        i = i + 1;
    }
    false
}

/// Chooses the surface format among those the device offers for the surface.
pub fn select_surface_format(formats: &Vec<SurfaceFormat>) -> (r: SurfaceFormat)
    requires
        formats.len() >= 1,
    ensures
        r == surface_format_choice(formats@),
{
    if formats.len() == 1 {
        if formats[0].format == vk::FORMAT_UNDEFINED {
            return SurfaceFormat {
                format: vk::FORMAT_B8G8R8A8_UNORM,
                color_space: vk::COLOR_SPACE_SRGB_NONLINEAR,
            };
        }
        return formats[0];
    }
    let requested = [
        vk::FORMAT_B8G8R8A8_UNORM,
        vk::FORMAT_R8G8B8A8_UNORM,
        vk::FORMAT_B8G8R8_UNORM,
        vk::FORMAT_R8G8B8_UNORM,
    ];
    let mut k: usize = 0;
    while k < 4
        invariant
            k <= 4,
            formats.len() >= 2,
            requested@ == seq![
                vk::FORMAT_B8G8R8A8_UNORM,
                vk::FORMAT_R8G8B8A8_UNORM,
                vk::FORMAT_B8G8R8_UNORM,
                vk::FORMAT_R8G8B8_UNORM,
            ],
            forall|m: int| 0 <= m < k ==> !formats@.contains(srgb(#[trigger] requested@[m])),
        decreases 4 - k,
    {
        let wanted = SurfaceFormat {
            format: requested[k],
            color_space: vk::COLOR_SPACE_SRGB_NONLINEAR,
        };
        if offers(formats, wanted) {
            return wanted;
        }
        k = k + 1;
    }
    assert(!formats@.contains(srgb(requested@[0])));
    assert(!formats@.contains(srgb(requested@[1])));
    assert(!formats@.contains(srgb(requested@[2])));
    assert(!formats@.contains(srgb(requested@[3])));
    formats[0]
}

/// The present mode to use: mailbox where offered, else immediate, else
/// FIFO, which every device supports.
pub open spec fn present_mode_choice(modes: Seq<vk::PresentMode>) -> vk::PresentMode {
    if modes.contains(vk::PRESENT_MODE_MAILBOX) {
        vk::PRESENT_MODE_MAILBOX
    } else if modes.contains(vk::PRESENT_MODE_IMMEDIATE) {
        vk::PRESENT_MODE_IMMEDIATE
    } else {
        vk::PRESENT_MODE_FIFO
    }
}

/// Chooses the present mode among those the device offers for the surface.
pub fn select_present_mode(modes: &Vec<vk::PresentMode>) -> (r: vk::PresentMode)
    ensures
        r == present_mode_choice(modes@),
{
    let mut result = vk::PRESENT_MODE_FIFO;
    let mut i: usize = 0;
    while i < modes.len()
        invariant
            i <= modes.len(),
            forall|k: int| 0 <= k < i ==> modes@[k] != vk::PRESENT_MODE_MAILBOX,
            result == if modes@.subrange(0, i as int).contains(vk::PRESENT_MODE_IMMEDIATE) {
                vk::PRESENT_MODE_IMMEDIATE
            } else {
                vk::PRESENT_MODE_FIFO
            },
        decreases modes.len() - i,
    {
        let mode = modes[i];
        if mode == vk::PRESENT_MODE_MAILBOX {
            assert(modes@[i as int] == vk::PRESENT_MODE_MAILBOX);
            return vk::PRESENT_MODE_MAILBOX;
        } else if mode == vk::PRESENT_MODE_IMMEDIATE {
            result = mode;
        }
        proof {
            let next = modes@.subrange(0, i + 1);
            assert(next =~= modes@.subrange(0, i as int).push(mode));
            if modes@.subrange(0, i as int).contains(vk::PRESENT_MODE_IMMEDIATE) {
                let w = choose|w: int|
                    0 <= w < i && modes@.subrange(0, i as int)[w] == vk::PRESENT_MODE_IMMEDIATE;
                assert(next[w] == vk::PRESENT_MODE_IMMEDIATE);
            }
            if mode == vk::PRESENT_MODE_IMMEDIATE {
                assert(next[i as int] == vk::PRESENT_MODE_IMMEDIATE);
            }
            if next.contains(vk::PRESENT_MODE_IMMEDIATE) {
                let w = choose|w: int| 0 <= w < i + 1 && next[w] == vk::PRESENT_MODE_IMMEDIATE;
                if w < i {
                    assert(modes@.subrange(0, i as int)[w] == vk::PRESENT_MODE_IMMEDIATE);
                }
            }
        }
        i = i + 1;
    }
    assert(modes@.subrange(0, i as int) =~= modes@);
    result
}

/// A two-dimensional size in pixels.
#[derive(Clone, Copy, Debug, PartialEq, Eq, Structural)]
pub struct Extent2D {
    pub width: u32,
    pub height: u32,
}

/// What the surface allows of a swapchain: the fewest and most images
/// (`max_image_count` zero for no limit) and its current size (a width of
/// `u32::MAX` where the swapchain decides).
#[derive(Clone, Copy, Debug, PartialEq, Eq, Structural)]
pub struct SurfaceCapabilities {
    pub min_image_count: u32,
    pub max_image_count: u32,
    pub current_extent: Extent2D,
}

/// Two images beyond the minimum, within the maximum where there is one.
pub open spec fn image_count_of(cap: SurfaceCapabilities) -> u32 {
    if cap.max_image_count > 0 && cap.max_image_count < cap.min_image_count + 2 {
        cap.max_image_count
    } else {
        (cap.min_image_count + 2) as u32
    }
}

/// The surface's size, or the window's where the surface leaves it open.
pub open spec fn extent_of(cap: SurfaceCapabilities, width: u32, height: u32) -> Extent2D {
    if cap.current_extent.width == u32::MAX {
        Extent2D { width, height }
    } else {
        cap.current_extent
    }
}

/// What a swapchain is created with.
#[derive(Clone, Copy, Debug, PartialEq, Eq, Structural)]
pub struct SwapchainCreateInfo {
    pub surface_format: SurfaceFormat,
    pub present_mode: vk::PresentMode,
    pub image_usage: u32,
    pub min_image_count: u32,
    pub extent: Extent2D,
    /// The swapchain being replaced (a raw handle), zero for none.
    pub old_swapchain: u64,
}

/// Collects the choices a swapchain is made from.
#[derive(Clone, Copy, Debug)]
pub struct SwapchainBuilder {
    pub surface_format: SurfaceFormat,
    pub present_mode: vk::PresentMode,
    pub width: u32,
    pub height: u32,
    pub old_swapchain: u64,
}

impl SwapchainBuilder {
    pub fn new(surface_format: SurfaceFormat, present_mode: vk::PresentMode) -> (r: SwapchainBuilder)
        ensures
            r == (SwapchainBuilder { surface_format, present_mode, width: 0, height: 0, old_swapchain: 0 }),
    {
        SwapchainBuilder { surface_format, present_mode, width: 0, height: 0, old_swapchain: 0 }
    }

    pub fn with_width(self, width: u32) -> (r: SwapchainBuilder)
        ensures
            r == (SwapchainBuilder { width, ..self }),
    {
        SwapchainBuilder { width, ..self }
    }

    pub fn with_height(self, height: u32) -> (r: SwapchainBuilder)
        ensures
            r == (SwapchainBuilder { height, ..self }),
    {
        SwapchainBuilder { height, ..self }
    }

    /// Recreating a swapchain hands over the one it replaces.
    pub fn with_old_swapchain(self, old_swapchain: u64) -> (r: SwapchainBuilder)
        ensures
            r == (SwapchainBuilder { old_swapchain, ..self }),
    {
        SwapchainBuilder { old_swapchain, ..self }
    }

    /// The swapchain to create on a surface with the given capabilities: its
    /// images serve as color attachments and as storage images.
    pub fn create_info(&self, cap: SurfaceCapabilities) -> (r: SwapchainCreateInfo)
        requires
            cap.min_image_count + 2 <= u32::MAX,
        ensures
            r == (SwapchainCreateInfo {
                surface_format: self.surface_format,
                present_mode: self.present_mode,
                image_usage: vk::IMAGE_USAGE_COLOR_ATTACHMENT | vk::IMAGE_USAGE_STORAGE,
                min_image_count: image_count_of(cap),
                extent: extent_of(cap, self.width, self.height),
                old_swapchain: self.old_swapchain,
            }),
    {
        let wanted = cap.min_image_count + 2;
        let min_image_count = if cap.max_image_count > 0 && cap.max_image_count < wanted {
            cap.max_image_count
        } else {
            wanted
        };
        let extent = if cap.current_extent.width == u32::MAX {
            Extent2D { width: self.width, height: self.height }
        } else {
            cap.current_extent
        };
        SwapchainCreateInfo {
            surface_format: self.surface_format,
            present_mode: self.present_mode,
            image_usage: vk::IMAGE_USAGE_COLOR_ATTACHMENT | vk::IMAGE_USAGE_STORAGE,
            min_image_count,
            extent,
            old_swapchain: self.old_swapchain,
        }
    }
}

} // verus!
