//! The decisions of a Vulkan ray-tracing renderer, stated and proved: device
//! and surface negotiation, memory-type choice and buffer uploads, image
//! layout transitions, acceleration-structure builds and their ordering, the
//! shader binding table, descriptor bindings, and per-frame synchronization.
//! The library works on plain values (raw enum values, flag bits and object
//! handles); the driver layer hands them in and carries out what comes back.

pub mod vk;
pub mod errors;
pub mod extensions;
pub mod application;
pub mod physical_device;
pub mod surface;
pub mod memory;
pub mod image;
pub mod render_pass;
pub mod geometry;
pub mod acceleration_structure;
pub mod pipeline;
pub mod sbt;
pub mod descriptor_set;
pub mod frame_sync;
