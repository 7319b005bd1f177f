use r2r2::acceleration_structure::{
    compute_as_buffer_sizes, instance_buffer_data, pack_24_8, AccelerationStructureBuilder,
    AccelerationStructureType, AsCommand, AsCommandRecorder, BottomLevelAccelerationStructureBuilder,
    Instance, VulkanGeometryInstance, INDEX_TYPE_UINT32,
};
use r2r2::errors::VulkanError;
use r2r2::memory::BufferType;
use r2r2::vk;

fn identity() -> [u32; 16] {
    let mut m = [0u32; 16];
    for i in 0..4 {
        m[i * 4 + i] = 1.0f32.to_bits();
    }
    m
}

fn triangle() -> r2r2::acceleration_structure::GeometryTriangles {
    BottomLevelAccelerationStructureBuilder::new()
        .with_vertex_buffer(100)
        .with_vertex_count(3)
        .with_vertex_size(12)
        .with_index_buffer(200)
        .with_index_count(3)
        .with_opaque(true)
        .build()
        .unwrap()
}

#[test]
fn triangle_geometry() {
    let g = triangle();
    assert_eq!(g.vertex_data, 100);
    assert_eq!(g.vertex_count, 3);
    assert_eq!(g.vertex_stride, 12);
    assert_eq!(g.vertex_format, vk::FORMAT_R32G32B32_SFLOAT);
    assert_eq!(g.index_count, 3);
    assert_eq!(g.index_type, INDEX_TYPE_UINT32);
    assert_eq!(g.flags, 1);
    let r = BottomLevelAccelerationStructureBuilder::new().with_vertex_buffer(1).build();
    assert!(matches!(r, Err(VulkanError::RayTracingError(_))));
}

#[test]
fn packing_keeps_24_and_8_bits() {
    assert_eq!(pack_24_8(0, 0xff), 0xff00_0000);
    assert_eq!(pack_24_8(0x1234_5678, 0x01), 0x0134_5678);
    assert_eq!(pack_24_8(0x00ab_cdef, 0), 0x00ab_cdef);
}

#[test]
fn identity_instance_record() {
    let inst = Instance { bottom_level_as: 7, transform: identity(), instance_id: 0, hit_group_index: 0 };
    let builder = AccelerationStructureBuilder::new().with_top_level_as(vec![inst]).with_command_buffer(1);
    let records = builder.instance_records(&vec![0xdead_beef_0000_0001]).unwrap();
    assert_eq!(records.len(), 1);
    let r = records[0];
    let one = 1.0f32.to_bits();
    assert_eq!(r.transform, [one, 0, 0, 0, 0, one, 0, 0, 0, 0, one, 0]);
    assert_eq!(r.instance_id_and_mask, 0xff00_0000);
    assert_eq!(r.instance_offset_and_flags, 0x0100_0000);
    assert_eq!(r.acceleration_handle, 0xdead_beef_0000_0001);
    let bytes = instance_buffer_data(&records);
    assert_eq!(bytes.len(), 64);
    let mut expected: Vec<u8> = Vec::new();
    for row in 0..3 {
        for col in 0..4 {
            let v: f32 = if row == col { 1.0 } else { 0.0 };
            expected.extend_from_slice(&v.to_le_bytes());
        }
    }
    assert_eq!(&bytes[0..48], &expected[..]);
    assert_eq!(&bytes[48..52], &[0, 0, 0, 0xff]);
    assert_eq!(&bytes[52..56], &[0, 0, 0, 0x01]);
    assert_eq!(&bytes[56..64], &0xdead_beef_0000_0001u64.to_le_bytes());
}

#[test]
fn zero_handle_or_wrong_count_fails() {
    let inst = Instance { bottom_level_as: 7, transform: identity(), instance_id: 0, hit_group_index: 0 };
    let builder = AccelerationStructureBuilder::new().with_top_level_as(vec![inst]).with_command_buffer(1);
    assert!(matches!(builder.instance_records(&vec![0]), Err(VulkanError::RayTracingError(_))));
    assert!(builder.instance_records(&vec![1, 2]).is_err());
}

#[test]
fn record_bytes_of_new() {
    let mut m = [0u32; 16];
    for (i, v) in m.iter_mut().enumerate() {
        *v = i as u32;
    }
    let r = VulkanGeometryInstance::new(&m, 0x0100_0005, 0x0f, 3, 0x02, 9);
    assert_eq!(r.transform, [0, 1, 2, 3, 4, 5, 6, 7, 8, 9, 10, 11]);
    assert_eq!(r.instance_id_and_mask, 0x0f00_0005);
    assert_eq!(r.instance_offset_and_flags, 0x0200_0003);
}

#[test]
fn scratch_takes_the_larger_size() {
    let s = compute_as_buffer_sizes(1000, 300, 500);
    assert_eq!((s.scratch_size, s.result_size), (500, 1000));
    let s = compute_as_buffer_sizes(10, 70, 20);
    assert_eq!(s.scratch_size, 70);
}

#[test]
fn builder_needs_one_level_and_a_command_buffer() {
    assert!(AccelerationStructureBuilder::new().with_bottom_level_as(vec![triangle()]).info().is_err());
    assert!(AccelerationStructureBuilder::new().with_command_buffer(1).info().is_err());
    let inst = Instance { bottom_level_as: 7, transform: identity(), instance_id: 0, hit_group_index: 0 };
    let both = AccelerationStructureBuilder::new()
        .with_bottom_level_as(vec![triangle()])
        .with_top_level_as(vec![inst])
        .with_command_buffer(1);
    assert!(matches!(both.info(), Err(VulkanError::RayTracingError(_))));
    let bottom = AccelerationStructureBuilder::new().with_bottom_level_as(vec![triangle()]).with_command_buffer(1);
    let info = bottom.info().unwrap();
    assert_eq!(info.ty, AccelerationStructureType::BottomLevel);
    assert_eq!(info.instance_count, 0);
    assert_eq!(info.geometries.len(), 1);
    let top = AccelerationStructureBuilder::new().with_top_level_as(vec![inst, inst]).with_command_buffer(1);
    let info = top.info().unwrap();
    assert_eq!(info.ty, AccelerationStructureType::TopLevel);
    assert_eq!(info.instance_count, 2);
    let bufs = top.buffers(compute_as_buffer_sizes(4096, 1024, 2048));
    assert_eq!(bufs.scratch.size, 2048);
    assert_eq!(bufs.scratch.usage, BufferType::RayTracing.usage());
    assert_eq!(bufs.result.size, 4096);
    let instances = bufs.instances.unwrap();
    assert_eq!(instances.size, 128);
    assert_eq!(instances.properties, BufferType::RayTracingInstance.memory_properties());
    assert!(bottom.buffers(compute_as_buffer_sizes(1, 1, 1)).instances.is_none());
}

#[test]
fn top_level_after_bottom_level_barrier() {
    let mut rec = AsCommandRecorder::new();
    let inst = Instance { bottom_level_as: 7, transform: identity(), instance_id: 0, hit_group_index: 0 };
    let top = AccelerationStructureBuilder::new().with_top_level_as(vec![inst]).with_command_buffer(1);
    // the bottom level was not built yet: nothing is recorded
    assert!(matches!(top.record(&mut rec, 8, 30, 40), Err(VulkanError::RayTracingError(_))));
    assert!(rec.commands.is_empty());
    let bottom = AccelerationStructureBuilder::new().with_bottom_level_as(vec![triangle()]).with_command_buffer(1);
    bottom.record(&mut rec, 7, 20, 0).unwrap();
    top.record(&mut rec, 8, 30, 40).unwrap();
    assert_eq!(rec.commands.len(), 4);
    assert!(matches!(rec.commands[0], AsCommand::BuildBottomLevel { structure: 7, scratch_buffer: 20, .. }));
    match &rec.commands[1] {
        AsCommand::Barrier(b) => {
            let rw = vk::ACCESS_ACCELERATION_STRUCTURE_READ | vk::ACCESS_ACCELERATION_STRUCTURE_WRITE;
            assert_eq!((b.src_access, b.dst_access), (rw, rw));
            assert_eq!(b.src_stage, vk::PIPELINE_STAGE_ACCELERATION_STRUCTURE_BUILD);
        }
        other => panic!("expected a barrier, got {:?}", other),
    }
    match &rec.commands[2] {
        AsCommand::BuildTopLevel { structure, instance_buffer, instance_count, bottom_levels, .. } => {
            assert_eq!((*structure, *instance_buffer, *instance_count), (8, 40, 1));
            assert_eq!(bottom_levels, &vec![7]);
        }
        other => panic!("expected a top-level build, got {:?}", other),
    }
    assert!(matches!(rec.commands[3], AsCommand::Barrier(_)));
}
