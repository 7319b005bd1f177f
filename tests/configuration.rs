use r2r2::application::{ApplicationBuilder, CommandBuffersBuilder, InstanceBuilder};
use r2r2::geometry::GeometryInstanceBuilder;
use r2r2::memory::BufferType;
use r2r2::errors::VulkanError;

#[test]
fn application_defaults_and_overrides() {
    let a = ApplicationBuilder::new();
    assert_eq!(a.title, "R2R2");
    assert_eq!((a.width, a.height), (800, 600));
    let a = a.with_title("viewer").with_width(1280).with_height(720);
    assert_eq!(a.title, "viewer");
    assert_eq!((a.width, a.height), (1280, 720));
}

#[test]
fn instance_layers_and_extensions() {
    let plain = InstanceBuilder::new();
    assert!(plain.layer_names().is_empty());
    assert_eq!(plain.extension_names(), vec!["VK_KHR_surface", "VK_KHR_win32_surface"]);
    let debug = plain.with_debug_enabled(true);
    assert_eq!(debug.layer_names(), vec!["VK_LAYER_KHRONOS_validation"]);
    assert_eq!(debug.extension_names().len(), 3);
    assert_eq!(debug.extension_names()[2], "VK_EXT_debug_utils");
}

#[test]
fn command_buffers_builder_counts() {
    let b = CommandBuffersBuilder::new(3);
    assert_eq!((b.queue_family, b.buffer_count), (3, 1));
    let b = b.with_buffer_count(2);
    assert_eq!((b.queue_family, b.buffer_count), (3, 2));
}

#[test]
fn geometry_upload_plan() {
    let vertices = vec![0u8; 3 * 32];
    let g = GeometryInstanceBuilder::new()
        .with_vertices(vertices, 3)
        .with_indices(vec![0, 1, 0x0102_0304])
        .with_materials(vec![0u8; 48])
        .build()
        .unwrap();
    assert_eq!(g.layout.vertex_count, 3);
    assert_eq!(g.layout.vertex_size, 32);
    assert_eq!(g.layout.index_count, 3);
    assert_eq!(g.vertex.destination.size, 96);
    assert_eq!(g.vertex.destination.usage, BufferType::Vertex.usage());
    assert_eq!(g.index.region.size, 12);
    assert_eq!(g.index_data, vec![0, 0, 0, 0, 1, 0, 0, 0, 4, 3, 2, 1]);
    assert_eq!(g.material.size, 48);
    let r = GeometryInstanceBuilder::new().with_vertices(vec![0u8; 4], 0).with_indices(vec![]).with_materials(vec![]).build();
    assert!(matches!(r, Err(VulkanError::VertexBufferCreationError(_))));
    assert!(GeometryInstanceBuilder::new().build().is_err());
}
