use r2r2::errors::VulkanError;
use r2r2::pipeline::{PipelineBuilder, SHADER_GROUP_GENERAL, SHADER_GROUP_TRIANGLES_HIT};
use r2r2::sbt::{entry_size, sbt_contents, sbt_layout, ShaderBindingTableBuilder};
use r2r2::vk;

#[test]
fn entry_size_rounds_up_to_16() {
    assert_eq!(entry_size(16), 16);
    assert_eq!(entry_size(32), 32);
    assert_eq!(entry_size(20), 32);
    assert_eq!(entry_size(1), 16);
    assert_eq!(entry_size(0), 0);
}

#[test]
fn layout_offsets_follow_group_counts() {
    let l = sbt_layout(16, 1, 2, 2);
    assert_eq!(l.ray_gen_offset, 0);
    assert_eq!(l.miss_offset, 16);
    assert_eq!(l.hit_group_offset, 48);
    assert_eq!(l.size, 80);
    let l = sbt_layout(20, 1, 2, 2);
    assert_eq!(l.miss_entry_size, 32);
    assert_eq!(l.miss_offset, l.ray_gen_entry_size * 1);
    assert_eq!(l.hit_group_offset, l.miss_offset + l.miss_entry_size * 2);
    assert_eq!(l.hit_group_entry_size % 16, 0);
    assert_eq!(l.size, 160);
}

#[test]
fn contents_copy_each_handle_into_its_slot() {
    // three groups with 4-byte handles: group g's handle is [g, g, g, g] + 10
    let handles: Vec<u8> = (0..3u8).flat_map(|g| vec![10 + g; 4]).collect();
    let table = sbt_contents(&handles, 4, &vec![2, 0, 1]).unwrap();
    assert_eq!(table.len(), 48);
    assert_eq!(&table[0..4], &[12, 12, 12, 12]);
    assert_eq!(&table[4..16], &[0u8; 12]);
    assert_eq!(&table[16..20], &[10, 10, 10, 10]);
    assert_eq!(&table[32..36], &[11, 11, 11, 11]);
    assert_eq!(&table[36..48], &[0u8; 12]);
}

#[test]
fn contents_fail_on_unfetched_group() {
    let handles = vec![0u8; 8];
    let r = sbt_contents(&handles, 4, &vec![0, 2]);
    assert!(matches!(r, Err(VulkanError::RayTracingError(_))));
}

#[test]
fn pipeline_groups_in_order() {
    let p = PipelineBuilder::new()
        .with_ray_gen_shader(11)
        .with_miss_shader(12)
        .with_shadow_miss_shader(13)
        .with_hit_shader(14)
        .with_max_recursion_depth(2)
        .build()
        .unwrap();
    assert_eq!(
        (p.ray_gen_index, p.miss_index, p.shadow_miss_index, p.hit_group_index, p.shadow_hit_group_index),
        (0, 1, 2, 3, 4)
    );
    assert_eq!(p.stages.len(), 4);
    assert_eq!(p.stages[3].stage, vk::SHADER_STAGE_CLOSEST_HIT);
    assert_eq!(p.stages[3].module, 14);
    assert_eq!(p.groups.len(), 5);
    assert_eq!(p.groups[1].ty, SHADER_GROUP_GENERAL);
    assert_eq!(p.groups[1].general_shader, 1);
    assert_eq!(p.groups[3].ty, SHADER_GROUP_TRIANGLES_HIT);
    assert_eq!(p.groups[3].closest_hit_shader, 3);
    assert_eq!(p.groups[3].general_shader, vk::SHADER_UNUSED);
    assert_eq!(p.groups[4].closest_hit_shader, vk::SHADER_UNUSED);
    assert_eq!(p.max_recursion_depth, 2);
}

#[test]
fn pipeline_needs_every_shader() {
    let r = PipelineBuilder::new().with_ray_gen_shader(1).with_miss_shader(2).with_hit_shader(3).build();
    assert!(matches!(r, Err(VulkanError::PipelineError(_))));
}

#[test]
fn table_and_dispatch_agree() {
    let p = PipelineBuilder::new()
        .with_ray_gen_shader(1)
        .with_miss_shader(2)
        .with_shadow_miss_shader(3)
        .with_hit_shader(4)
        .build()
        .unwrap();
    let b = ShaderBindingTableBuilder::new(16, p);
    assert_eq!(b.group_count(), 5);
    let handles: Vec<u8> = (0..5u8).flat_map(|g| vec![g + 1; 16]).collect();
    let t = b.build(&handles).unwrap();
    assert_eq!(t.data.len() as u64, t.layout.size);
    assert_eq!(&t.data[0..16], &[1u8; 16]);
    assert_eq!(&t.data[16..32], &[2u8; 16]);
    assert_eq!(&t.data[32..48], &[3u8; 16]);
    assert_eq!(&t.data[48..64], &[4u8; 16]);
    assert_eq!(&t.data[64..80], &[5u8; 16]);
    let d = t.trace_rays_regions(800, 600);
    assert_eq!(d.miss_offset, 16);
    assert_eq!(d.miss_stride, 16);
    assert_eq!(d.hit_group_offset, 48);
    assert_eq!(d.hit_group_stride, 16);
    assert_eq!((d.width, d.height, d.depth), (800, 600, 1));
    assert!(b.build(&vec![0u8; 16 * 4]).is_err());
}
