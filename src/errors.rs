use vstd::prelude::*;

verus! {

/// The failures of creating or operating the renderer's GPU objects. Each
/// variant carries a human-readable description.
#[derive(Debug)]
pub enum VulkanError {
    InstanceCreationError(String),
    DebugCreationError(String),
    InstanceError(String),
    SurfaceError(String),
    PhysicalDeviceCreationError(String),
    QueueFamilyCreationError(String),
    DeviceError(String),
    SwapchainCreationError(String),
    RenderPassCreationError(String),
    DepthResourcesCreationError(String),
    SwapchainError(String),
    ShaderCreationError(String),
    VertexBufferCreationError(String),
    ImageCreationError(String),
    RayTracingError(String),
    PipelineError(String),
}

} // verus!
