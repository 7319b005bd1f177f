use r2r2::descriptor_set::{
    generate_pool_sizes, ray_tracing_bindings, shader_read_barrier, update_render_target, DescriptorResource,
    RayTracingResources, TextureDescriptor,
};
use r2r2::vk;

#[test]
fn ray_tracing_layout_slots() {
    let b = ray_tracing_bindings(3);
    assert_eq!(b.len(), 7);
    let types: Vec<i32> = b.iter().map(|x| x.descriptor_type).collect();
    assert_eq!(
        types,
        vec![
            vk::DESCRIPTOR_TYPE_ACCELERATION_STRUCTURE,
            vk::DESCRIPTOR_TYPE_STORAGE_IMAGE,
            vk::DESCRIPTOR_TYPE_UNIFORM_BUFFER,
            vk::DESCRIPTOR_TYPE_STORAGE_BUFFER,
            vk::DESCRIPTOR_TYPE_STORAGE_BUFFER,
            vk::DESCRIPTOR_TYPE_STORAGE_BUFFER,
            vk::DESCRIPTOR_TYPE_COMBINED_IMAGE_SAMPLER,
        ]
    );
    assert_eq!(b[6].descriptor_count, 3);
    assert_eq!(b[0].stage_flags, vk::SHADER_STAGE_RAYGEN);
    assert_eq!(b[4].stage_flags, vk::SHADER_STAGE_CLOSEST_HIT);
    let sizes = generate_pool_sizes(&b);
    assert_eq!(sizes.len(), 7);
    assert_eq!(sizes[6].descriptor_count, 3);
    assert_eq!(sizes[2].ty, vk::DESCRIPTOR_TYPE_UNIFORM_BUFFER);
}

#[test]
fn render_target_rewrites_every_binding() {
    let res = RayTracingResources {
        acceleration_structure: 1,
        target: 2,
        camera_buffer: 3,
        vertex_buffer: 4,
        index_buffer: 5,
        material_buffer: 6,
        textures: vec![TextureDescriptor { image_view: 7, sampler: 8 }],
    };
    let w = update_render_target(&res);
    assert_eq!(w.len(), 7);
    for (i, write) in w.iter().enumerate() {
        assert_eq!(write.binding, i as u32);
    }
    assert_eq!(w[0].resource, DescriptorResource::AccelerationStructure(1));
    assert_eq!(w[1].resource, DescriptorResource::Image { view: 2, layout: vk::IMAGE_LAYOUT_GENERAL });
    assert_eq!(w[5].resource, DescriptorResource::Buffer(6));
    assert_eq!(w[6].resource, DescriptorResource::Textures(vec![TextureDescriptor { image_view: 7, sampler: 8 }]));
    let b = shader_read_barrier(9);
    assert_eq!(b.dst_access, vk::ACCESS_SHADER_READ);
    assert_eq!(b.buffer, 9);
}
