use r2r2::errors::VulkanError;
use r2r2::memory::{
    copy_data, find_memory_type, plan_buffer_upload, BufferBuilder, BufferCopy, BufferType,
};
use r2r2::vk;

#[test]
fn find_memory_type_takes_first_allowed_superset() {
    let types = vec![
        vk::MEMORY_PROPERTY_DEVICE_LOCAL,
        vk::MEMORY_PROPERTY_HOST_VISIBLE,
        vk::MEMORY_PROPERTY_HOST_VISIBLE | vk::MEMORY_PROPERTY_HOST_COHERENT,
        vk::MEMORY_PROPERTY_HOST_VISIBLE
            | vk::MEMORY_PROPERTY_HOST_COHERENT
            | vk::MEMORY_PROPERTY_DEVICE_LOCAL,
    ];
    let wanted = vk::MEMORY_PROPERTY_HOST_VISIBLE | vk::MEMORY_PROPERTY_HOST_COHERENT;
    assert_eq!(find_memory_type(0b1111, &types, wanted), Some(2));
    // type 2 is not allowed by the filter: the next superset is type 3
    assert_eq!(find_memory_type(0b1011, &types, wanted), Some(3));
    assert_eq!(find_memory_type(0b0011, &types, wanted), None);
    assert_eq!(find_memory_type(0b1111, &types, 0), Some(0));
}

#[test]
fn find_memory_type_with_no_types() {
    assert_eq!(find_memory_type(u32::MAX, &vec![], vk::MEMORY_PROPERTY_DEVICE_LOCAL), None);
}

#[test]
fn find_memory_type_uses_the_highest_bit() {
    let mut types = vec![0u32; 32];
    types[31] = vk::MEMORY_PROPERTY_DEVICE_LOCAL;
    assert_eq!(find_memory_type(1 << 31, &types, vk::MEMORY_PROPERTY_DEVICE_LOCAL), Some(31));
}

#[test]
fn buffer_types_fix_usage_and_properties() {
    assert_eq!(
        BufferType::Vertex.usage(),
        vk::BUFFER_USAGE_VERTEX_BUFFER | vk::BUFFER_USAGE_TRANSFER_DST | vk::BUFFER_USAGE_STORAGE_BUFFER
    );
    assert_eq!(BufferType::Vertex.memory_properties(), vk::MEMORY_PROPERTY_DEVICE_LOCAL);
    assert_eq!(BufferType::Staging.usage(), vk::BUFFER_USAGE_TRANSFER_SRC);
    assert_eq!(
        BufferType::Uniform.memory_properties(),
        vk::MEMORY_PROPERTY_HOST_VISIBLE | vk::MEMORY_PROPERTY_HOST_COHERENT
    );
    assert_eq!(BufferType::ShaderBindingTable.memory_properties(), vk::MEMORY_PROPERTY_HOST_VISIBLE);
    assert_eq!(BufferType::RayTracing.usage(), vk::BUFFER_USAGE_RAY_TRACING);
}

#[test]
fn builder_reports_missing_memory_type() {
    let b = BufferBuilder::new().with_type(BufferType::Vertex).with_size(64);
    let types = vec![vk::MEMORY_PROPERTY_HOST_VISIBLE];
    match b.memory_type_index(1, &types) {
        Err(VulkanError::VertexBufferCreationError(_)) => {}
        other => panic!("unexpected {:?}", other),
    }
    let types = vec![vk::MEMORY_PROPERTY_HOST_VISIBLE, vk::MEMORY_PROPERTY_DEVICE_LOCAL];
    assert_eq!(b.memory_type_index(0b11, &types).unwrap(), 1);
    let info = b.create_info();
    assert_eq!(info.size, 64);
    assert_eq!(info.properties, vk::MEMORY_PROPERTY_DEVICE_LOCAL);
}

#[test]
fn uniform_buffer_write_reads_back() {
    let pattern: Vec<u8> = (0..256u32).map(|i| (i * 7 + 3) as u8).collect();
    let plan = BufferBuilder::new().with_type(BufferType::Uniform).with_size(256).create_info();
    assert_eq!(plan.size, 256);
    let mut mapped = vec![0u8; plan.size as usize];
    copy_data(&mut mapped, &pattern);
    assert_eq!(mapped, pattern);
}

#[test]
fn copy_data_fills_only_the_mapped_range() {
    let data = vec![1u8, 2, 3, 4, 5];
    let mut mapped = vec![9u8; 3];
    copy_data(&mut mapped, &data);
    assert_eq!(mapped, vec![1, 2, 3]);
}

#[test]
fn staged_upload_copies_the_whole_range() {
    let plan = plan_buffer_upload(BufferType::Index, 12);
    assert_eq!(plan.staging.size, 12);
    assert_eq!(plan.staging.usage, vk::BUFFER_USAGE_TRANSFER_SRC);
    assert_eq!(plan.destination.usage, BufferType::Index.usage());
    assert_eq!(plan.region, BufferCopy { src_offset: 0, dst_offset: 0, size: 12 });
    // run the plan on host memory: staging write, then the copy region
    let data: Vec<u8> = (0..12u8).collect();
    let mut staging = vec![0u8; 12];
    copy_data(&mut staging, &data);
    let mut destination = vec![0xeeu8; 12];
    let r = plan.region;
    destination[r.dst_offset as usize..(r.dst_offset + r.size) as usize]
        .copy_from_slice(&staging[r.src_offset as usize..(r.src_offset + r.size) as usize]);
    assert_eq!(destination, data);
}

#[test]
fn every_upload_destination_accepts_the_copy() {
    for ty in [
        BufferType::Index,
        BufferType::RayTracing,
        BufferType::RayTracingInstance,
        BufferType::ShaderBindingTable,
        BufferType::Staging,
        BufferType::Storage,
        BufferType::Uniform,
        BufferType::Vertex,
    ] {
        let plan = plan_buffer_upload(ty, 256);
        assert_eq!(plan.destination.usage & vk::BUFFER_USAGE_TRANSFER_DST, vk::BUFFER_USAGE_TRANSFER_DST);
        assert_eq!(plan.destination.usage & ty.usage(), ty.usage());
        assert_eq!(plan.destination.properties, ty.memory_properties());
        assert_eq!(plan.staging.usage & vk::BUFFER_USAGE_TRANSFER_SRC, vk::BUFFER_USAGE_TRANSFER_SRC);
    }
    let uniform = plan_buffer_upload(BufferType::Uniform, 256);
    assert_eq!(uniform.destination.usage, vk::BUFFER_USAGE_UNIFORM_BUFFER | vk::BUFFER_USAGE_TRANSFER_DST);
}
