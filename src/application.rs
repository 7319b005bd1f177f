//! The configuration the renderer is started with: the window, the
//! instance and the buffered frames.
use vstd::prelude::*;

use crate::errors::VulkanError;
use crate::extensions::DeviceExtensions;
use crate::frame_sync::{FramePhase, FrameSync};

verus! {

/// The window title, width and height the application opens with.
#[derive(Clone, Debug)]
pub struct ApplicationBuilder {
    pub title: String,
    pub width: u32,
    pub height: u32,
}

impl Default for ApplicationBuilder {
    /// An 800 x 600 window titled "R2R2".
    fn default() -> (r: ApplicationBuilder)
        ensures
            r.title@ == "R2R2"@,
            r.width == 800,
            r.height == 600,
    {
        ApplicationBuilder { title: "R2R2".to_owned(), width: 800, height: 600 }
    }
}

impl ApplicationBuilder {
    pub fn new() -> (r: ApplicationBuilder)
        ensures
            r.title@ == "R2R2"@,
            r.width == 800,
            r.height == 600,
    {
        ApplicationBuilder::default()
    }

    pub fn with_title(self, title: &str) -> (r: ApplicationBuilder)
        ensures
            r.title@ == title@,
            r.width == self.width,
            r.height == self.height,
    {
        ApplicationBuilder { title: title.to_owned(), ..self }
    }

    pub fn with_width(self, width: u32) -> (r: ApplicationBuilder)
        ensures
            r.title == self.title,
            r.width == width,
            r.height == self.height,
    {
        ApplicationBuilder { width, ..self }
    }

    pub fn with_height(self, height: u32) -> (r: ApplicationBuilder)
        ensures
            r.title == self.title,
            r.width == self.width,
            r.height == height,
    {
        ApplicationBuilder { height, ..self }
    }
}

/// Whether the instance is created with the validation layer and the debug
/// messenger.
#[derive(Clone, Copy, Debug)]
pub struct InstanceBuilder {
    pub debug: bool,
}

pub open spec fn layers_of(debug: bool) -> Seq<Seq<char>> {
    if debug {
        seq!["VK_LAYER_KHRONOS_validation"@]
    } else {
        seq![]
    }
}

pub open spec fn instance_extensions_of(debug: bool) -> Seq<Seq<char>> {
    let base = seq!["VK_KHR_surface"@, "VK_KHR_win32_surface"@];
    if debug {
        base.push("VK_EXT_debug_utils"@)
    } else {
        base
    }
}

/// The views of a list of names.
pub open spec fn names_view(v: Seq<&'static str>) -> Seq<Seq<char>> {
    v.map_values(|s: &'static str| s@)
}

impl InstanceBuilder {
    pub fn new() -> (r: InstanceBuilder)
        ensures
            !r.debug,
    {
        InstanceBuilder { debug: false }
    }

    pub fn with_debug_enabled(self, debug: bool) -> (r: InstanceBuilder)
        ensures
            r.debug == debug,
    {
        InstanceBuilder { debug }
    }

    /// The layers to enable: the validation layer when debugging.
    pub fn layer_names(&self) -> (r: Vec<&'static str>)
        ensures
            names_view(r@) == layers_of(self.debug),
    {
        let mut layers: Vec<&'static str> = Vec::new();
        if self.debug {
            layers.push("VK_LAYER_KHRONOS_validation");
        }
        assert(names_view(layers@) =~= layers_of(self.debug));
        layers
    }

    /// The instance extensions to enable: surfaces and Win32 surfaces, and
    /// debug utilities when debugging.
    pub fn extension_names(&self) -> (r: Vec<&'static str>)
        ensures
            names_view(r@) == instance_extensions_of(self.debug),
    {
        let mut extensions: Vec<&'static str> = Vec::new();
        extensions.push("VK_KHR_surface");
        extensions.push("VK_KHR_win32_surface");
        if self.debug {
            extensions.push("VK_EXT_debug_utils");
        }
        assert(names_view(extensions@) =~= instance_extensions_of(self.debug));
        extensions
    }
}

/// The queue family and the number of buffered frames to create command
/// pools, command buffers, fences and semaphores for.
#[derive(Clone, Copy, Debug)]
pub struct CommandBuffersBuilder {
    pub queue_family: u32,
    pub buffer_count: usize,
}

impl CommandBuffersBuilder {
    pub fn new(queue_family: u32) -> (r: CommandBuffersBuilder)
        ensures
            r.queue_family == queue_family,
            r.buffer_count == 1,
    {
        CommandBuffersBuilder { queue_family, buffer_count: 1 }
    }

    pub fn with_buffer_count(self, buffer_count: usize) -> (r: CommandBuffersBuilder)
        ensures
            r.queue_family == self.queue_family,
            r.buffer_count == buffer_count,
    {
        CommandBuffersBuilder { buffer_count, ..self }
    }
}

/// What the render context is created with: validation, the surface's
/// size, the device extensions to require and the number of frames in
/// flight (two unless changed).
#[derive(Clone, Debug)]
pub struct VulkanContextBuilder {
    pub debug: bool,
    pub width: u32,
    pub height: u32,
    pub extensions: Vec<DeviceExtensions>,
    pub frames_count: usize,
}

impl VulkanContextBuilder {
    pub fn new() -> (r: VulkanContextBuilder)
        ensures
            !r.debug,
            r.width == 0,
            r.height == 0,
            r.extensions@.len() == 0,
            r.frames_count == 2,
    {
        VulkanContextBuilder { debug: false, width: 0, height: 0, extensions: Vec::new(), frames_count: 2 }
    }

    pub fn with_debug_enabled(self, debug: bool) -> (r: Self)
        ensures
            r.debug == debug,
            r.width == self.width,
            r.height == self.height,
            r.extensions == self.extensions,
            r.frames_count == self.frames_count,
    {
        VulkanContextBuilder { debug, ..self }
    }

    pub fn with_width(self, width: u32) -> (r: Self)
        ensures
            r.debug == self.debug,
            r.width == width,
            r.height == self.height,
            r.extensions == self.extensions,
            r.frames_count == self.frames_count,
    {
        VulkanContextBuilder { width, ..self }
    }

    pub fn with_height(self, height: u32) -> (r: Self)
        ensures
            r.debug == self.debug,
            r.width == self.width,
            r.height == height,
            r.extensions == self.extensions,
            r.frames_count == self.frames_count,
    {
        VulkanContextBuilder { height, ..self }
    }

    pub fn with_extensions(self, extensions: Vec<DeviceExtensions>) -> (r: Self)
        ensures
            r.debug == self.debug,
            r.width == self.width,
            r.height == self.height,
            r.extensions == extensions,
            r.frames_count == self.frames_count,
    {
        VulkanContextBuilder { extensions, ..self }
    }

    pub fn with_frames_count(self, frames_count: usize) -> (r: Self)
        ensures
            r.debug == self.debug,
            r.width == self.width,
            r.height == self.height,
            r.extensions == self.extensions,
            r.frames_count == frames_count,
    {
        VulkanContextBuilder { frames_count, ..self }
    }

    /// The synchronization state of the frames in flight; at least one
    /// frame is needed.
    pub fn frame_sync(&self) -> (r: Result<FrameSync, VulkanError>)
        ensures
            r is Ok <==> self.frames_count >= 1,
            r matches Ok(s) ==> {
                &&& s.wf()
                &&& s.frames_count == self.frames_count
                &&& s.frame_index == 0
                &&& s.phase == FramePhase::Idle
                &&& s.fence_signaled@ == Seq::new(self.frames_count as nat, |i: int| true)
                &&& s.waits@ == Seq::new(self.frames_count as nat, |i: int| 0nat)
                &&& s.resets@ == Seq::new(self.frames_count as nat, |i: int| 0nat)
            },
            r matches Err(e) ==> e is DeviceError,
    {
        if self.frames_count == 0 {
            return Err(VulkanError::DeviceError("at least one frame in flight is needed".to_string()));
        }
        Ok(FrameSync::new(self.frames_count))
    }
}

} // verus!
