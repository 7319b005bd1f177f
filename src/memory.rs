//! Buffers: what each kind of buffer asks of the device, the choice of a
//! memory type, writes through mapped memory, and the staged upload that
//! fills a device-local buffer.
use vstd::prelude::*;

use crate::errors::VulkanError;
use crate::vk;

verus! {

/// The roles a buffer plays; each fixes the buffer's usage flags and the
/// memory properties it is allocated with.
#[derive(Clone, Copy, Debug, PartialEq, Eq, Structural)]
pub enum BufferType {
    Index,
    RayTracing,
    RayTracingInstance,
    ShaderBindingTable,
    Staging,
    Storage,
    Uniform,
    Vertex,
}

pub open spec fn usage_of(ty: BufferType) -> u32 {
    match ty {
        BufferType::Index => vk::BUFFER_USAGE_INDEX_BUFFER | vk::BUFFER_USAGE_TRANSFER_DST
            | vk::BUFFER_USAGE_STORAGE_BUFFER,
        BufferType::RayTracing => vk::BUFFER_USAGE_RAY_TRACING,
        BufferType::RayTracingInstance => vk::BUFFER_USAGE_RAY_TRACING,
        BufferType::ShaderBindingTable => vk::BUFFER_USAGE_TRANSFER_SRC,
        BufferType::Staging => vk::BUFFER_USAGE_TRANSFER_SRC,
        BufferType::Storage => vk::BUFFER_USAGE_STORAGE_BUFFER | vk::BUFFER_USAGE_TRANSFER_DST,
        BufferType::Uniform => vk::BUFFER_USAGE_UNIFORM_BUFFER,
        BufferType::Vertex => vk::BUFFER_USAGE_VERTEX_BUFFER | vk::BUFFER_USAGE_TRANSFER_DST
            | vk::BUFFER_USAGE_STORAGE_BUFFER,
    }
}

pub open spec fn properties_of(ty: BufferType) -> u32 {
    match ty {
        BufferType::Index => vk::MEMORY_PROPERTY_DEVICE_LOCAL,
        BufferType::RayTracing => vk::MEMORY_PROPERTY_DEVICE_LOCAL,
        BufferType::RayTracingInstance => vk::MEMORY_PROPERTY_HOST_VISIBLE
            | vk::MEMORY_PROPERTY_HOST_COHERENT,
        BufferType::ShaderBindingTable => vk::MEMORY_PROPERTY_HOST_VISIBLE,
        BufferType::Staging => vk::MEMORY_PROPERTY_HOST_VISIBLE | vk::MEMORY_PROPERTY_HOST_COHERENT,
        BufferType::Storage => vk::MEMORY_PROPERTY_HOST_VISIBLE | vk::MEMORY_PROPERTY_HOST_COHERENT,
        BufferType::Uniform => vk::MEMORY_PROPERTY_HOST_VISIBLE | vk::MEMORY_PROPERTY_HOST_COHERENT,
        BufferType::Vertex => vk::MEMORY_PROPERTY_DEVICE_LOCAL,
    }
}

impl BufferType {
    /// The buffer usage flags of this kind of buffer.
    pub fn usage(&self) -> (r: u32)
        ensures
            r == usage_of(*self),
    {
        match self {
            BufferType::Index => vk::BUFFER_USAGE_INDEX_BUFFER | vk::BUFFER_USAGE_TRANSFER_DST
                | vk::BUFFER_USAGE_STORAGE_BUFFER,
            BufferType::RayTracing => vk::BUFFER_USAGE_RAY_TRACING,
            BufferType::RayTracingInstance => vk::BUFFER_USAGE_RAY_TRACING,
            BufferType::ShaderBindingTable => vk::BUFFER_USAGE_TRANSFER_SRC,
            BufferType::Staging => vk::BUFFER_USAGE_TRANSFER_SRC,
            BufferType::Storage => vk::BUFFER_USAGE_STORAGE_BUFFER | vk::BUFFER_USAGE_TRANSFER_DST,
            BufferType::Uniform => vk::BUFFER_USAGE_UNIFORM_BUFFER,
            BufferType::Vertex => vk::BUFFER_USAGE_VERTEX_BUFFER | vk::BUFFER_USAGE_TRANSFER_DST
                | vk::BUFFER_USAGE_STORAGE_BUFFER,
        }
    }

    /// The memory properties this kind of buffer is allocated with.
    pub fn memory_properties(&self) -> (r: u32)
        ensures
            r == properties_of(*self),
    {
        match self {
            BufferType::Index => vk::MEMORY_PROPERTY_DEVICE_LOCAL,
            BufferType::RayTracing => vk::MEMORY_PROPERTY_DEVICE_LOCAL,
            BufferType::RayTracingInstance => vk::MEMORY_PROPERTY_HOST_VISIBLE
                | vk::MEMORY_PROPERTY_HOST_COHERENT,
            BufferType::ShaderBindingTable => vk::MEMORY_PROPERTY_HOST_VISIBLE,
            BufferType::Staging => vk::MEMORY_PROPERTY_HOST_VISIBLE | vk::MEMORY_PROPERTY_HOST_COHERENT,
            BufferType::Storage => vk::MEMORY_PROPERTY_HOST_VISIBLE | vk::MEMORY_PROPERTY_HOST_COHERENT,
            BufferType::Uniform => vk::MEMORY_PROPERTY_HOST_VISIBLE | vk::MEMORY_PROPERTY_HOST_COHERENT,
            BufferType::Vertex => vk::MEMORY_PROPERTY_DEVICE_LOCAL,
        }
    }
}

/// The most memory types a device reports (`VK_MAX_MEMORY_TYPES`).
pub const MAX_MEMORY_TYPES: usize = 32;

/// Memory type `i` is allowed by the bit mask `type_filter` and its property
/// flags hold every requested property.
pub open spec fn memory_type_suitable(
    type_filter: u32,
    memory_types: Seq<u32>,
    properties: u32,
    i: int,
) -> bool {
    &&& 0 <= i < memory_types.len()
    &&& i < 32
    &&& type_filter & (1u32 << (i as u32)) != 0
    &&& vk::contains(memory_types[i], properties)
}

/// Finds the first memory type that `type_filter` allows and whose property
/// flags (`memory_types[i]` for type `i`) are a superset of `properties`.
pub fn find_memory_type(type_filter: u32, memory_types: &Vec<u32>, properties: u32) -> (r: Option<
    u32,
>)
    requires
        memory_types.len() <= MAX_MEMORY_TYPES,
    ensures
        match r {
            Some(i) => {
                &&& memory_type_suitable(type_filter, memory_types@, properties, i as int)
                &&& forall|j: int|
                    0 <= j < i ==> !memory_type_suitable(type_filter, memory_types@, properties, j)
            },
            None => forall|j: int|
                0 <= j < memory_types.len() ==> !memory_type_suitable(
                    type_filter,
                    memory_types@,
                    properties,
                    j,
                ),
        },
{
    let mut i: usize = 0;
    while i < memory_types.len()
        invariant
            i <= memory_types.len() <= 32,
            forall|j: int|
                0 <= j < i ==> !memory_type_suitable(type_filter, memory_types@, properties, j),
        decreases memory_types.len() - i,
    {
        let bit: u32 = 1u32 << (i as u32);
        if type_filter & bit != 0 && vk::flags_contain(memory_types[i], properties) {
            return Some(i as u32);
        }
        i = i + 1;
    }
    None
}

/// What a buffer is created with: its size in bytes, its usage flags and the
/// memory properties its allocation asks for.
#[derive(Clone, Copy, Debug, PartialEq, Eq, Structural)]
pub struct BufferCreateInfo {
    pub size: u64,
    pub usage: u32,
    pub properties: u32,
}

pub open spec fn create_info_of(ty: BufferType, size: u64) -> BufferCreateInfo {
    BufferCreateInfo { size, usage: usage_of(ty), properties: properties_of(ty) }
}

/// Collects the kind and the size of a buffer to create; a new builder makes
/// an empty uniform buffer.
#[derive(Clone, Copy, Debug)]
pub struct BufferBuilder {
    pub ty: BufferType,
    pub buffer_size: u64,
}

impl BufferBuilder {
    pub fn new() -> (r: BufferBuilder)
        ensures
            r.ty == BufferType::Uniform,
            r.buffer_size == 0,
    {
        BufferBuilder { ty: BufferType::Uniform, buffer_size: 0 }
    }

    pub fn with_type(self, ty: BufferType) -> (r: BufferBuilder)
        ensures
            r.ty == ty,
            r.buffer_size == self.buffer_size,
    {
        BufferBuilder { ty, ..self }
    }

    pub fn with_size(self, size: u64) -> (r: BufferBuilder)
        ensures
            r.ty == self.ty,
            r.buffer_size == size,
    {
        BufferBuilder { buffer_size: size, ..self }
    }

    /// The size, usage and memory properties of the buffer to create.
    pub fn create_info(&self) -> (r: BufferCreateInfo)
        ensures
            r == create_info_of(self.ty, self.buffer_size),
    {
        BufferCreateInfo {
            size: self.buffer_size,
            usage: self.ty.usage(),
            properties: self.ty.memory_properties(),
        }
    }

    /// The memory type to allocate the buffer from, given the types its memory
    /// requirements allow and the property flags of the device's memory types.
    pub fn memory_type_index(&self, type_filter: u32, memory_types: &Vec<u32>) -> (r: Result<
        u32,
        VulkanError,
    >)
        requires
            memory_types.len() <= MAX_MEMORY_TYPES,
        ensures
            match r {
                Ok(i) => {
                    &&& memory_type_suitable(
                        type_filter,
                        memory_types@,
                        properties_of(self.ty),
                        i as int,
                    )
                    &&& forall|j: int|
                        0 <= j < i ==> !memory_type_suitable(
                            type_filter,
                            memory_types@,
                            properties_of(self.ty),
                            j,
                        )
                },
                Err(e) => {
                    &&& e is VertexBufferCreationError
                    &&& forall|j: int|
                        0 <= j < memory_types.len() ==> !memory_type_suitable(
                            type_filter,
                            memory_types@,
                            properties_of(self.ty),
                            j,
                        )
                },
            },
    {
        match find_memory_type(type_filter, memory_types, self.ty.memory_properties()) {
            Some(i) => Ok(i),
            None => Err(VulkanError::VertexBufferCreationError("Cannot find a memory type".to_string())),
        }
    }
}

/// What mapped memory of `mapped.len()` bytes holds after `data` was written
/// into it.
pub open spec fn mapped_write(mapped: Seq<u8>, data: Seq<u8>) -> Seq<u8> {
    data.subrange(0, mapped.len() as int)
}

/// Writes the first `mapped.len()` bytes of `data` into the mapped memory of a
/// host-visible buffer, which spans the whole buffer.
pub fn copy_data(mapped: &mut [u8], data: &[u8])
    requires
        data@.len() >= old(mapped)@.len(),
    ensures
        final(mapped)@ == mapped_write(old(mapped)@, data@),
{
    let n = mapped.len();
    let mut i: usize = 0;
    while i < n
        invariant
            n == mapped@.len() == old(mapped)@.len(),
            data@.len() >= n,
            i <= n,
            forall|k: int| 0 <= k < i ==> mapped@[k] == data@[k],
        decreases n - i,
    {
        mapped[i] = data[i];
        i = i + 1;
    }
    assert(mapped@ =~= mapped_write(old(mapped)@, data@));
}

/// A buffer-to-buffer copy command: `size` bytes from `src_offset` in the
/// source to `dst_offset` in the destination.
#[derive(Clone, Copy, Debug, PartialEq, Eq, Structural)]
pub struct BufferCopy {
    pub src_offset: u64,
    pub dst_offset: u64,
    pub size: u64,
}

/// The destination's bytes after the copy `region` from `src` has run.
pub open spec fn copied(src: Seq<u8>, dst: Seq<u8>, region: BufferCopy) -> Seq<u8> {
    Seq::new(
        dst.len(),
        |k: int|
            if region.dst_offset <= k < region.dst_offset + region.size {
                src[k - region.dst_offset + region.src_offset]
            } else {
                dst[k]
            },
    )
}

/// How a buffer of the given kind is filled with `size` bytes: a host-visible
/// staging buffer receives the bytes through mapped memory, the destination is
/// created with the kind's own flags, and one copy command moves the whole
/// range.
#[derive(Clone, Copy, Debug, PartialEq, Eq, Structural)]
pub struct StagedUpload {
    pub staging: BufferCreateInfo,
    pub destination: BufferCreateInfo,
    pub region: BufferCopy,
}

pub open spec fn staged_upload_of(ty: BufferType, size: u64) -> StagedUpload {
    StagedUpload {
        staging: create_info_of(BufferType::Staging, size),
        destination: BufferCreateInfo {
            size,
            usage: usage_of(ty) | vk::BUFFER_USAGE_TRANSFER_DST,
            properties: properties_of(ty),
        },
        region: BufferCopy { src_offset: 0, dst_offset: 0, size },
    }
}

/// The device accepts the plan's copy: the staging buffer may be a transfer
/// source and the destination a transfer destination.
pub open spec fn copy_allowed(plan: StagedUpload) -> bool {
    &&& vk::contains(plan.staging.usage, vk::BUFFER_USAGE_TRANSFER_SRC)
    &&& vk::contains(plan.destination.usage, vk::BUFFER_USAGE_TRANSFER_DST)
}

proof fn lemma_usage_with_transfer_dst(usage: u32)
    ensures
        vk::contains(usage | vk::BUFFER_USAGE_TRANSFER_DST, vk::BUFFER_USAGE_TRANSFER_DST),
        (usage | vk::BUFFER_USAGE_TRANSFER_DST) & usage == usage,
{
    assert(((usage | 2u32) & 2u32) == 2u32 && (usage | 2u32) & usage == usage) by (bit_vector);
}

/// The buffers and the copy command that upload `size` bytes into a new
/// buffer of kind `ty`: the destination has the kind's own usage and memory
/// properties, and may also be the target of a transfer.
pub fn plan_buffer_upload(ty: BufferType, size: u64) -> (r: StagedUpload)
    ensures
        r == staged_upload_of(ty, size),
        vk::contains(r.staging.usage, vk::BUFFER_USAGE_TRANSFER_SRC),
        vk::contains(r.destination.usage, vk::BUFFER_USAGE_TRANSFER_DST),
        vk::contains(r.destination.usage, usage_of(ty)),
{
    let staging = BufferBuilder::new().with_type(BufferType::Staging).with_size(size);
    let destination = BufferBuilder::new().with_type(ty).with_size(size).create_info();
    let r = StagedUpload {
        staging: staging.create_info(),
        destination: BufferCreateInfo {
            size,
            usage: destination.usage | vk::BUFFER_USAGE_TRANSFER_DST,
            properties: destination.properties,
        },
        region: BufferCopy { src_offset: 0, dst_offset: 0, size },
    };
    proof {
        lemma_usage_with_transfer_dst(usage_of(ty));
        assert(1u32 & 1u32 == 1u32) by (bit_vector);
    }
    r
}

/// Uploading through a staging buffer is faithful: for every kind of buffer,
/// the planned copy is one the device accepts (a transfer source into a
/// transfer destination), and once the source bytes are written into the
/// staging buffer's mapped memory and that copy has run, the destination
/// holds exactly the source bytes, whatever both buffers held before.
pub proof fn lemma_staged_upload_round_trip(
    ty: BufferType,
    data: Seq<u8>,
    staging_before: Seq<u8>,
    destination_before: Seq<u8>,
)
    requires
        data.len() <= u64::MAX,
        staging_before.len() == data.len(),
        destination_before.len() == data.len(),
    ensures
        ({
            let plan = staged_upload_of(ty, data.len() as u64);
            let staging = mapped_write(staging_before, data);
            &&& copy_allowed(plan)
            &&& plan.staging.size == data.len()
            &&& plan.destination.size == data.len()
            &&& copied(staging, destination_before, plan.region) == data
        }),
{
    let plan = staged_upload_of(ty, data.len() as u64);
    let staging = mapped_write(staging_before, data);
    lemma_usage_with_transfer_dst(usage_of(ty));
    assert(1u32 & 1u32 == 1u32) by (bit_vector);
    assert(copied(staging, destination_before, plan.region) =~= data);
}

} // verus!
