//! The descriptor set of the ray-tracing pipeline: its fixed binding
//! layout, the pool it is allocated from, and the writes that bind concrete
//! resources to it.
use vstd::prelude::*;

use crate::vk;

verus! {

/// One binding of a descriptor set layout.
#[derive(Clone, Copy, Debug, PartialEq, Eq, Structural)]
pub struct DescriptorSetLayoutBinding {
    pub binding: u32,
    pub descriptor_count: u32,
    pub descriptor_type: vk::DescriptorType,
    pub stage_flags: u32,
}

pub open spec fn binding_spec(
    binding: u32,
    descriptor_count: u32,
    descriptor_type: vk::DescriptorType,
    stage_flags: u32,
) -> DescriptorSetLayoutBinding {
    DescriptorSetLayoutBinding { binding, descriptor_count, descriptor_type, stage_flags }
}

/// The layout of the ray-tracing descriptor set: 0 the acceleration
/// structure, 1 the output storage image and 2 the camera uniform buffer,
/// read by ray generation; 3, 4 and 5 the vertex, index and material storage
/// buffers and 6 the array of `texture_count` textures, read by closest-hit
/// shading.
pub open spec fn ray_tracing_layout(texture_count: u32) -> Seq<DescriptorSetLayoutBinding> {
    seq![
        binding_spec(0, 1, vk::DESCRIPTOR_TYPE_ACCELERATION_STRUCTURE, vk::SHADER_STAGE_RAYGEN),
        binding_spec(1, 1, vk::DESCRIPTOR_TYPE_STORAGE_IMAGE, vk::SHADER_STAGE_RAYGEN),
        binding_spec(2, 1, vk::DESCRIPTOR_TYPE_UNIFORM_BUFFER, vk::SHADER_STAGE_RAYGEN),
        binding_spec(3, 1, vk::DESCRIPTOR_TYPE_STORAGE_BUFFER, vk::SHADER_STAGE_CLOSEST_HIT),
        binding_spec(4, 1, vk::DESCRIPTOR_TYPE_STORAGE_BUFFER, vk::SHADER_STAGE_CLOSEST_HIT),
        binding_spec(5, 1, vk::DESCRIPTOR_TYPE_STORAGE_BUFFER, vk::SHADER_STAGE_CLOSEST_HIT),
        binding_spec(
            6,
            texture_count,
            vk::DESCRIPTOR_TYPE_COMBINED_IMAGE_SAMPLER,
            vk::SHADER_STAGE_CLOSEST_HIT,
        ),
    ]
}

pub fn add_binding(
    binding: u32,
    descriptor_count: u32,
    descriptor_type: vk::DescriptorType,
    stage_flags: u32,
) -> (r: DescriptorSetLayoutBinding)
    ensures
        r == binding_spec(binding, descriptor_count, descriptor_type, stage_flags),
{
    DescriptorSetLayoutBinding { binding, descriptor_count, descriptor_type, stage_flags }
}

/// The bindings of the ray-tracing descriptor set layout.
pub fn ray_tracing_bindings(texture_count: u32) -> (r: Vec<DescriptorSetLayoutBinding>)
    ensures
        r@ == ray_tracing_layout(texture_count),
{
    let mut b: Vec<DescriptorSetLayoutBinding> = Vec::new();
    b.push(add_binding(0, 1, vk::DESCRIPTOR_TYPE_ACCELERATION_STRUCTURE, vk::SHADER_STAGE_RAYGEN));
    b.push(add_binding(1, 1, vk::DESCRIPTOR_TYPE_STORAGE_IMAGE, vk::SHADER_STAGE_RAYGEN));
    b.push(add_binding(2, 1, vk::DESCRIPTOR_TYPE_UNIFORM_BUFFER, vk::SHADER_STAGE_RAYGEN));
    b.push(add_binding(3, 1, vk::DESCRIPTOR_TYPE_STORAGE_BUFFER, vk::SHADER_STAGE_CLOSEST_HIT));
    b.push(add_binding(4, 1, vk::DESCRIPTOR_TYPE_STORAGE_BUFFER, vk::SHADER_STAGE_CLOSEST_HIT));
    b.push(add_binding(5, 1, vk::DESCRIPTOR_TYPE_STORAGE_BUFFER, vk::SHADER_STAGE_CLOSEST_HIT));
    b.push(
        add_binding(
            6,
            texture_count,
            vk::DESCRIPTOR_TYPE_COMBINED_IMAGE_SAMPLER,
            vk::SHADER_STAGE_CLOSEST_HIT,
        ),
    );
    assert(b@ =~= ray_tracing_layout(texture_count));
    b
}

/// How many descriptors of one type a pool holds.
#[derive(Clone, Copy, Debug, PartialEq, Eq, Structural)]
pub struct DescriptorPoolSize {
    pub ty: vk::DescriptorType,
    pub descriptor_count: u32,
}

/// The pool sizes for one set of the given layout: one entry per binding,
/// with the binding's type and count.
pub fn generate_pool_sizes(bindings: &Vec<DescriptorSetLayoutBinding>) -> (r: Vec<DescriptorPoolSize>)
    ensures
        r.len() == bindings.len(),
        forall|i: int|
            0 <= i < r.len() ==> #[trigger] r@[i] == (DescriptorPoolSize {
                ty: bindings@[i].descriptor_type,
                descriptor_count: bindings@[i].descriptor_count,
            }),
{
    let mut sizes: Vec<DescriptorPoolSize> = Vec::new();
    let mut i: usize = 0;
    while i < bindings.len()
        invariant
            i <= bindings.len(),
            sizes.len() == i,
            forall|k: int|
                0 <= k < i ==> #[trigger] sizes@[k] == (DescriptorPoolSize {
                    ty: bindings@[k].descriptor_type,
                    descriptor_count: bindings@[k].descriptor_count,
                }),
        decreases bindings.len() - i,
    {
        let b = bindings[i];
        sizes.push(DescriptorPoolSize { ty: b.descriptor_type, descriptor_count: b.descriptor_count });
        i = i + 1;
    }
    sizes
}

/// A texture as a shader samples it (raw handles).
#[derive(Clone, Copy, Debug, PartialEq, Eq, Structural)]
pub struct TextureDescriptor {
    pub image_view: u64,
    pub sampler: u64,
}

/// A copy of the texture descriptors, element for element.
pub fn copy_textures(v: &Vec<TextureDescriptor>) -> (r: Vec<TextureDescriptor>)
    ensures
        r@ == v@,
{
    let mut copy: Vec<TextureDescriptor> = Vec::new();
    let mut i: usize = 0;
    while i < v.len()
        invariant
            i <= v.len(),
            copy@ == v@.subrange(0, i as int),
        decreases v.len() - i,
    {
        copy.push(v[i]);
        assert(copy@ =~= v@.subrange(0, i + 1));
        i = i + 1;
    }
    assert(copy@ =~= v@);
    copy
}

/// The resource a descriptor write binds (raw handles).
#[derive(Clone, Debug, PartialEq, Eq)]
pub enum DescriptorResource {
    AccelerationStructure(u64),
    /// An image view in the given layout.
    Image { view: u64, layout: vk::ImageLayout },
    Buffer(u64),
    /// Image views with samplers, all in the shader-read-only layout.
    Textures(Vec<TextureDescriptor>),
}

/// One write of a descriptor set: the binding, its descriptor type, and
/// the resource bound there.
#[derive(Clone, Debug)]
pub struct DescriptorWrite {
    pub binding: u32,
    pub descriptor_type: vk::DescriptorType,
    pub resource: DescriptorResource,
}

/// The resources of the ray-tracing descriptor set (raw handles).
#[derive(Clone, Debug)]
pub struct RayTracingResources {
    pub acceleration_structure: u64,
    pub target: u64,
    pub camera_buffer: u64,
    pub vertex_buffer: u64,
    pub index_buffer: u64,
    pub material_buffer: u64,
    pub textures: Vec<TextureDescriptor>,
}

/// Write `w` binds `res` at `binding` with descriptors of type `ty`.
pub open spec fn writes(w: DescriptorWrite, binding: u32, ty: vk::DescriptorType, res: DescriptorResource) -> bool {
    w.binding == binding && w.descriptor_type == ty && w.resource == res
}

/// Rewrites the whole ray-tracing descriptor set for the frame: the
/// acceleration structure, the frame's output image (in the general layout),
/// the camera buffer, the geometry's buffers and its textures. Each write
/// matches the layout's binding of the same position in number and type.
pub fn update_render_target(resources: &RayTracingResources) -> (r: Vec<DescriptorWrite>)
    ensures
        r.len() == 7,
        writes(r@[0], 0, vk::DESCRIPTOR_TYPE_ACCELERATION_STRUCTURE, DescriptorResource::AccelerationStructure(resources.acceleration_structure)),
        writes(r@[1], 1, vk::DESCRIPTOR_TYPE_STORAGE_IMAGE, DescriptorResource::Image { view: resources.target, layout: vk::IMAGE_LAYOUT_GENERAL }),
        writes(r@[2], 2, vk::DESCRIPTOR_TYPE_UNIFORM_BUFFER, DescriptorResource::Buffer(resources.camera_buffer)),
        writes(r@[3], 3, vk::DESCRIPTOR_TYPE_STORAGE_BUFFER, DescriptorResource::Buffer(resources.vertex_buffer)),
        writes(r@[4], 4, vk::DESCRIPTOR_TYPE_STORAGE_BUFFER, DescriptorResource::Buffer(resources.index_buffer)),
        writes(r@[5], 5, vk::DESCRIPTOR_TYPE_STORAGE_BUFFER, DescriptorResource::Buffer(resources.material_buffer)),
        r@[6].binding == 6,
        r@[6].descriptor_type == vk::DESCRIPTOR_TYPE_COMBINED_IMAGE_SAMPLER,
        r@[6].resource matches DescriptorResource::Textures(t) && t@ == resources.textures@,
        forall|i: int|
            0 <= i < 7 ==> #[trigger] r@[i].binding == ray_tracing_layout(
                resources.textures.len() as u32,
            )[i].binding && r@[i].descriptor_type == ray_tracing_layout(
                resources.textures.len() as u32,
            )[i].descriptor_type,
{
    let textures = copy_textures(&resources.textures);
    let mut w: Vec<DescriptorWrite> = Vec::new();
    w.push(
        DescriptorWrite {
            binding: 0,
            descriptor_type: vk::DESCRIPTOR_TYPE_ACCELERATION_STRUCTURE,
            resource: DescriptorResource::AccelerationStructure(resources.acceleration_structure),
        },
    );
    w.push(
        DescriptorWrite {
            binding: 1,
            descriptor_type: vk::DESCRIPTOR_TYPE_STORAGE_IMAGE,
            resource: DescriptorResource::Image {
                view: resources.target,
                layout: vk::IMAGE_LAYOUT_GENERAL,
            },
        },
    );
    w.push(
        DescriptorWrite {
            binding: 2,
            descriptor_type: vk::DESCRIPTOR_TYPE_UNIFORM_BUFFER,
            resource: DescriptorResource::Buffer(resources.camera_buffer),
        },
    );
    w.push(
        DescriptorWrite {
            binding: 3,
            descriptor_type: vk::DESCRIPTOR_TYPE_STORAGE_BUFFER,
            resource: DescriptorResource::Buffer(resources.vertex_buffer),
        },
    );
    w.push(
        DescriptorWrite {
            binding: 4,
            descriptor_type: vk::DESCRIPTOR_TYPE_STORAGE_BUFFER,
            resource: DescriptorResource::Buffer(resources.index_buffer),
        },
    );
    w.push(
        DescriptorWrite {
            binding: 5,
            descriptor_type: vk::DESCRIPTOR_TYPE_STORAGE_BUFFER,
            resource: DescriptorResource::Buffer(resources.material_buffer),
        },
    );
    w.push(
        DescriptorWrite {
            binding: 6,
            descriptor_type: vk::DESCRIPTOR_TYPE_COMBINED_IMAGE_SAMPLER,
            resource: DescriptorResource::Textures(textures),
        },
    );
    w
}

/// A buffer memory barrier over a whole buffer (a raw handle).
#[derive(Clone, Copy, Debug, PartialEq, Eq, Structural)]
pub struct BufferBarrier {
    pub buffer: u64,
    pub src_access: u32,
    pub dst_access: u32,
    pub src_stage: u32,
    pub dst_stage: u32,
}

/// The barrier that makes a freshly uploaded geometry buffer readable by
/// shaders before the descriptor set hands it to them.
pub fn shader_read_barrier(buffer: u64) -> (r: BufferBarrier)
    ensures
        r == (BufferBarrier {
            buffer,
            src_access: vk::ACCESS_NONE,
            dst_access: vk::ACCESS_SHADER_READ,
            src_stage: vk::PIPELINE_STAGE_ALL_COMMANDS,
            dst_stage: vk::PIPELINE_STAGE_ALL_COMMANDS,
        }),
{
    BufferBarrier {
        buffer,
        src_access: vk::ACCESS_NONE,
        dst_access: vk::ACCESS_SHADER_READ,
        src_stage: vk::PIPELINE_STAGE_ALL_COMMANDS,
        dst_stage: vk::PIPELINE_STAGE_ALL_COMMANDS,
    }
}

/// The layout of the rasterization pipeline's descriptor set: 0 the camera
/// uniform buffer for the vertex stage, 1 the material storage buffer for
/// both stages, 2 the array of `texture_count` textures for the fragment
/// stage.
pub open spec fn graphics_layout(texture_count: u32) -> Seq<DescriptorSetLayoutBinding> {
    seq![
        binding_spec(0, 1, vk::DESCRIPTOR_TYPE_UNIFORM_BUFFER, vk::SHADER_STAGE_VERTEX),
        binding_spec(
            1,
            1,
            vk::DESCRIPTOR_TYPE_STORAGE_BUFFER,
            vk::SHADER_STAGE_VERTEX | vk::SHADER_STAGE_FRAGMENT,
        ),
        binding_spec(
            2,
            texture_count,
            vk::DESCRIPTOR_TYPE_COMBINED_IMAGE_SAMPLER,
            vk::SHADER_STAGE_FRAGMENT,
        ),
    ]
}

/// The bindings of the rasterization descriptor set layout.
pub fn graphics_bindings(texture_count: u32) -> (r: Vec<DescriptorSetLayoutBinding>)
    ensures
        r@ == graphics_layout(texture_count),
{
    let mut b: Vec<DescriptorSetLayoutBinding> = Vec::new();
    b.push(add_binding(0, 1, vk::DESCRIPTOR_TYPE_UNIFORM_BUFFER, vk::SHADER_STAGE_VERTEX));
    b.push(
        add_binding(
            1,
            1,
            vk::DESCRIPTOR_TYPE_STORAGE_BUFFER,
            vk::SHADER_STAGE_VERTEX | vk::SHADER_STAGE_FRAGMENT,
        ),
    );
    b.push(
        add_binding(
            2,
            texture_count,
            vk::DESCRIPTOR_TYPE_COMBINED_IMAGE_SAMPLER,
            vk::SHADER_STAGE_FRAGMENT,
        ),
    );
    assert(b@ =~= graphics_layout(texture_count));
    b
}

/// How many descriptors of each type, and how many sets, the rasterization
/// pool holds.
pub const GRAPHICS_POOL_CAPACITY: u32 = 1000;

/// The rasterization pool: room for many sets of textures, uniform buffers
/// and storage buffers.
pub fn graphics_pool_sizes() -> (r: Vec<DescriptorPoolSize>)
    ensures
        r@ == seq![
            DescriptorPoolSize { ty: vk::DESCRIPTOR_TYPE_COMBINED_IMAGE_SAMPLER, descriptor_count: GRAPHICS_POOL_CAPACITY },
            DescriptorPoolSize { ty: vk::DESCRIPTOR_TYPE_UNIFORM_BUFFER, descriptor_count: GRAPHICS_POOL_CAPACITY },
            DescriptorPoolSize { ty: vk::DESCRIPTOR_TYPE_STORAGE_BUFFER, descriptor_count: GRAPHICS_POOL_CAPACITY },
        ],
{
    vec![
        DescriptorPoolSize {
            ty: vk::DESCRIPTOR_TYPE_COMBINED_IMAGE_SAMPLER,
            descriptor_count: GRAPHICS_POOL_CAPACITY,
        },
        DescriptorPoolSize {
            ty: vk::DESCRIPTOR_TYPE_UNIFORM_BUFFER,
            descriptor_count: GRAPHICS_POOL_CAPACITY,
        },
        DescriptorPoolSize {
            ty: vk::DESCRIPTOR_TYPE_STORAGE_BUFFER,
            descriptor_count: GRAPHICS_POOL_CAPACITY,
        },
    ]
}

/// The writes that bind the camera buffer, the material buffer and the
/// textures to the rasterization descriptor set, each at its layout binding.
pub fn graphics_descriptor_writes(
    uniform_buffer: u64,
    material_buffer: u64,
    textures: &Vec<TextureDescriptor>,
) -> (r: Vec<DescriptorWrite>)
    ensures
        r.len() == 3,
        writes(r@[0], 0, vk::DESCRIPTOR_TYPE_UNIFORM_BUFFER, DescriptorResource::Buffer(uniform_buffer)),
        writes(r@[1], 1, vk::DESCRIPTOR_TYPE_STORAGE_BUFFER, DescriptorResource::Buffer(material_buffer)),
        r@[2].binding == 2,
        r@[2].descriptor_type == vk::DESCRIPTOR_TYPE_COMBINED_IMAGE_SAMPLER,
        r@[2].resource matches DescriptorResource::Textures(t) && t@ == textures@,
{
    let copy = copy_textures(textures);
    let mut w: Vec<DescriptorWrite> = Vec::new();
    w.push(
        DescriptorWrite {
            binding: 0,
            descriptor_type: vk::DESCRIPTOR_TYPE_UNIFORM_BUFFER,
            resource: DescriptorResource::Buffer(uniform_buffer),
        },
    );
    w.push(
        DescriptorWrite {
            binding: 1,
            descriptor_type: vk::DESCRIPTOR_TYPE_STORAGE_BUFFER,
            resource: DescriptorResource::Buffer(material_buffer),
        },
    );
    w.push(
        DescriptorWrite {
            binding: 2,
            descriptor_type: vk::DESCRIPTOR_TYPE_COMBINED_IMAGE_SAMPLER,
            resource: DescriptorResource::Textures(copy),
        },
    );
    w
}

} // verus!
