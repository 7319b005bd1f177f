//! Acceleration structures for ray tracing: the triangle geometry of a
//! bottom-level structure, the packed instance records of a top-level one,
//! the sizes of their buffers, and the order in which their builds are
//! recorded.
use vstd::prelude::*;

use crate::errors::VulkanError;
use crate::memory::{create_info_of, BufferBuilder, BufferCreateInfo, BufferType};
use crate::vk;

verus! {

/// `VK_INDEX_TYPE_UINT32`: indices are read as 32-bit integers.
pub const INDEX_TYPE_UINT32: i32 = 1;

/// `VK_GEOMETRY_OPAQUE_BIT_NV`.
pub const GEOMETRY_OPAQUE: u32 = 0x1;

/// A triangle list read from a range of a vertex buffer and a range of an
/// index buffer (buffers as raw handles).
#[derive(Clone, Copy, Debug, PartialEq, Eq, Structural)]
pub struct GeometryTriangles {
    pub vertex_data: u64,
    pub vertex_offset: u64,
    pub vertex_count: u32,
    pub vertex_stride: u64,
    pub vertex_format: vk::Format,
    pub index_data: u64,
    pub index_offset: u64,
    pub index_count: u32,
    pub index_type: i32,
    pub flags: u32,
}

/// Collects the vertex and index ranges of one mesh.
#[derive(Clone, Copy, Debug)]
pub struct BottomLevelAccelerationStructureBuilder {
    pub vertex_buffer: Option<u64>,
    pub vertex_offset: u64,
    pub vertex_count: u32,
    pub vertex_size: u64,
    pub index_buffer: Option<u64>,
    pub index_offset: u64,
    pub index_count: u32,
    pub opaque: bool,
}

impl BottomLevelAccelerationStructureBuilder {
    pub fn new() -> (r: BottomLevelAccelerationStructureBuilder)
        ensures
            r.vertex_buffer is None,
            r.vertex_offset == 0,
            r.vertex_count == 0,
            r.vertex_size == 0,
            r.index_buffer is None,
            r.index_offset == 0,
            r.index_count == 0,
            !r.opaque,
    {
        BottomLevelAccelerationStructureBuilder {
            vertex_buffer: None,
            vertex_offset: 0,
            vertex_count: 0,
            vertex_size: 0,
            index_buffer: None,
            index_offset: 0,
            index_count: 0,
            opaque: false,
        }
    }

    pub fn with_vertex_buffer(self, buffer: u64) -> (r: Self)
        ensures
            r == (Self { vertex_buffer: Some(buffer), ..self }),
    {
        Self { vertex_buffer: Some(buffer), ..self }
    }

    pub fn with_vertex_offset(self, offset: u32) -> (r: Self)
        ensures
            r == (Self { vertex_offset: offset as u64, ..self }),
    {
        Self { vertex_offset: offset as u64, ..self }
    }

    pub fn with_vertex_count(self, count: u32) -> (r: Self)
        ensures
            r == (Self { vertex_count: count, ..self }),
    {
        Self { vertex_count: count, ..self }
    }

    pub fn with_vertex_size(self, size: u32) -> (r: Self)
        ensures
            r == (Self { vertex_size: size as u64, ..self }),
    {
        Self { vertex_size: size as u64, ..self }
    }

    pub fn with_index_buffer(self, buffer: u64) -> (r: Self)
        ensures
            r == (Self { index_buffer: Some(buffer), ..self }),
    {
        Self { index_buffer: Some(buffer), ..self }
    }

    pub fn with_index_offset(self, offset: u32) -> (r: Self)
        ensures
            r == (Self { index_offset: offset as u64, ..self }),
    {
        Self { index_offset: offset as u64, ..self }
    }

    pub fn with_index_count(self, count: u32) -> (r: Self)
        ensures
            r == (Self { index_count: count, ..self }),
    {
        Self { index_count: count, ..self }
    }

    pub fn with_opaque(self, opaque: bool) -> (r: Self)
        ensures
            r == (Self { opaque, ..self }),
    {
        Self { opaque, ..self }
    }

    /// The geometry of the mesh: positions as three 32-bit floats per vertex
    /// with the given stride, 32-bit indices. Both buffers are mandatory.
    pub fn build(self) -> (r: Result<GeometryTriangles, VulkanError>)
        ensures
            r is Ok <==> (self.vertex_buffer is Some && self.index_buffer is Some),
            r matches Err(e) ==> e is RayTracingError,
            r matches Ok(g) ==> g == (GeometryTriangles {
                vertex_data: self.vertex_buffer->0,
                vertex_offset: self.vertex_offset,
                vertex_count: self.vertex_count,
                vertex_stride: self.vertex_size,
                vertex_format: vk::FORMAT_R32G32B32_SFLOAT,
                index_data: self.index_buffer->0,
                index_offset: self.index_offset,
                index_count: self.index_count,
                index_type: INDEX_TYPE_UINT32,
                flags: if self.opaque {
                    GEOMETRY_OPAQUE
                } else {
                    0
                },
            }),
    {
        let vertex_data = match self.vertex_buffer {
            Some(b) => b,
            None => {
                return Err(VulkanError::RayTracingError("missing vertex buffer".to_string()));
            },
        };
        let index_data = match self.index_buffer {
            Some(b) => b,
            None => {
                return Err(VulkanError::RayTracingError("missing index buffer".to_string()));
            },
        };
        Ok(
            GeometryTriangles {
                vertex_data,
                vertex_offset: self.vertex_offset,
                vertex_count: self.vertex_count,
                vertex_stride: self.vertex_size,
                vertex_format: vk::FORMAT_R32G32B32_SFLOAT,
                index_data,
                index_offset: self.index_offset,
                index_count: self.index_count,
                index_type: INDEX_TYPE_UINT32,
                flags: if self.opaque {
                    GEOMETRY_OPAQUE
                } else {
                    0
                },
            },
        )
    }
}

/// A low 24-bit field and a high 8-bit field packed into one word.
pub open spec fn packed_24_8(low: u32, high: u8) -> u32 {
    (low & 0x00ff_ffff) | ((high as u32) << 24u32)
}

/// Packs the low 24 bits of `low` with the 8 bits of `high` above them, as
/// instance records store (instance id, mask) and (hit group offset, flags).
pub fn pack_24_8(low: u32, high: u8) -> (r: u32)
    ensures
        r == packed_24_8(low, high),
        r & 0x00ff_ffff == low & 0x00ff_ffff,
        r >> 24u32 == high as u32,
{
    let h = high as u32;
    let r = (low & 0x00ff_ffff) | (h << 24u32);
    assert(r & 0x00ff_ffff == low & 0x00ff_ffff && r >> 24u32 == h) by (bit_vector)
        requires
            r == (low & 0x00ff_ffff) | (h << 24u32),
            h < 256,
    ;
    r
}

/// One instance of a top-level structure as the device reads it: a 3x4
/// row-major transform (the bit patterns of its 32-bit floats), the instance
/// id with the visibility mask, the hit group offset with the instance
/// flags, and the device handle of the bottom-level structure.
#[derive(Clone, Copy, Debug, PartialEq, Eq)]
pub struct VulkanGeometryInstance {
    pub transform: [u32; 12],
    pub instance_id_and_mask: u32,
    pub instance_offset_and_flags: u32,
    pub acceleration_handle: u64,
}

/// The 3x4 row-major truncation of a 4x4 row-major matrix: its first three
/// rows.
pub open spec fn truncated_transform(m: Seq<u32>) -> Seq<u32> {
    m.subrange(0, 12)
}

impl VulkanGeometryInstance {
    /// The record of an instance; `transform` is a 4x4 matrix in row-major
    /// order, of which the first three rows are kept.
    pub fn new(
        transform: &[u32; 16],
        id: u32,
        mask: u8,
        offset: u32,
        flags: u8,
        acceleration_handle: u64,
    ) -> (r: VulkanGeometryInstance)
        ensures
            r.transform@ == truncated_transform(transform@),
            r.instance_id_and_mask == packed_24_8(id, mask),
            r.instance_offset_and_flags == packed_24_8(offset, flags),
            r.acceleration_handle == acceleration_handle,
    {
        let t = [
            transform[0],
            transform[1],
            transform[2],
            transform[3],
            transform[4],
            transform[5],
            transform[6],
            transform[7],
            transform[8],
            transform[9],
            transform[10],
            transform[11],
        ];
        assert(t@ =~= truncated_transform(transform@));
        VulkanGeometryInstance {
            transform: t,
            instance_id_and_mask: pack_24_8(id, mask),
            instance_offset_and_flags: pack_24_8(offset, flags),
            acceleration_handle,
        }
    }
}

/// The size in bytes of one instance record.
pub const INSTANCE_RECORD_SIZE: usize = 64;

/// The four bytes of a word, least significant first.
pub open spec fn le_bytes_u32(x: u32) -> Seq<u8> {
    seq![(x & 0xff) as u8, ((x >> 8u32) & 0xff) as u8, ((x >> 16u32) & 0xff) as u8, ((x >> 24u32) & 0xff) as u8]
}

/// The eight bytes of a double word, least significant first.
pub open spec fn le_bytes_u64(x: u64) -> Seq<u8> {
    le_bytes_u32((x & 0xffff_ffff) as u32) + le_bytes_u32((x >> 32u64) as u32)
}

/// The bytes of the words `ws`, each little-endian, in order.
pub open spec fn le_words(ws: Seq<u32>) -> Seq<u8>
    decreases ws.len(),
{
    if ws.len() == 0 {
        Seq::empty()
    } else {
        le_words(ws.drop_last()) + le_bytes_u32(ws.last())
    }
}

/// The 64 bytes of an instance record as laid out in the instance buffer.
pub open spec fn record_bytes(r: VulkanGeometryInstance) -> Seq<u8> {
    le_words(r.transform@) + le_bytes_u32(r.instance_id_and_mask) + le_bytes_u32(
        r.instance_offset_and_flags,
    ) + le_bytes_u64(r.acceleration_handle)
}

/// The records' bytes, one after the other.
pub open spec fn records_bytes(rs: Seq<VulkanGeometryInstance>) -> Seq<u8>
    decreases rs.len(),
{
    if rs.len() == 0 {
        Seq::empty()
    } else {
        records_bytes(rs.drop_last()) + record_bytes(rs.last())
    }
}

fn push_u32(out: &mut Vec<u8>, x: u32)
    ensures
        final(out)@ == old(out)@ + le_bytes_u32(x),
{
    out.push((x & 0xff) as u8);
    out.push(((x >> 8u32) & 0xff) as u8);
    out.push(((x >> 16u32) & 0xff) as u8);
    out.push(((x >> 24u32) & 0xff) as u8);
    assert(out@ =~= old(out)@ + le_bytes_u32(x));
}

fn push_u64(out: &mut Vec<u8>, x: u64)
    ensures
        final(out)@ == old(out)@ + le_bytes_u64(x),
{
    push_u32(out, (x & 0xffff_ffff) as u32);
    push_u32(out, (x >> 32u64) as u32);
    assert(out@ =~= old(out)@ + le_bytes_u64(x));
}

impl VulkanGeometryInstance {
    /// Appends the record's 64 bytes to `out`.
    pub fn write_bytes(&self, out: &mut Vec<u8>)
        ensures
            final(out)@ == old(out)@ + record_bytes(*self),
    {
        let ghost start = out@;
        let mut i: usize = 0;
        while i < 12
            invariant
                i <= 12,
                out@ == start + le_words(self.transform@.subrange(0, i as int)),
            decreases 12 - i,
        {
            push_u32(out, self.transform[i]);
            assert(self.transform@.subrange(0, i + 1).drop_last() =~= self.transform@.subrange(
                0,
                i as int,
            ));
            assert(out@ =~= start + le_words(self.transform@.subrange(0, i + 1)));
            i = i + 1;
        }
        assert(self.transform@.subrange(0, 12) =~= self.transform@);
        push_u32(out, self.instance_id_and_mask);
        push_u32(out, self.instance_offset_and_flags);
        push_u64(out, self.acceleration_handle);
        assert(out@ =~= old(out)@ + record_bytes(*self));
    }
}

/// The contents of a top-level structure's instance buffer.
pub fn instance_buffer_data(records: &Vec<VulkanGeometryInstance>) -> (r: Vec<u8>)
    ensures
        r@ == records_bytes(records@),
{
    let mut out: Vec<u8> = Vec::new();
    let mut i: usize = 0;
    while i < records.len()
        invariant
            i <= records.len(),
            out@ == records_bytes(records@.subrange(0, i as int)),
        decreases records.len() - i,
    {
        records[i].write_bytes(&mut out);
        assert(records@.subrange(0, i + 1).drop_last() =~= records@.subrange(0, i as int));
        i = i + 1;
    }
    assert(records@.subrange(0, i as int) =~= records@);
    out
}

/// The two levels of acceleration structures.
#[derive(Clone, Copy, Debug, PartialEq, Eq, Structural)]
pub enum AccelerationStructureType {
    TopLevel,
    BottomLevel,
}

/// What an acceleration structure is created and built from: the triangle
/// geometries of a bottom-level structure, or the number of instances of a
/// top-level one.
#[derive(Clone, Debug)]
pub struct AccelerationStructureInfo {
    pub ty: AccelerationStructureType,
    pub instance_count: u32,
    pub geometries: Vec<GeometryTriangles>,
}

/// One instance of a bottom-level structure (a raw handle) in a top-level
/// structure: its 4x4 row-major transform (float bit patterns), its id and
/// the index of its hit group.
#[derive(Clone, Copy, Debug, PartialEq, Eq)]
pub struct Instance {
    pub bottom_level_as: u64,
    pub transform: [u32; 16],
    pub instance_id: u32,
    pub hit_group_index: u32,
}

/// The sizes of the buffers behind an acceleration structure.
#[derive(Clone, Copy, Debug, PartialEq, Eq, Structural)]
pub struct AsBufferSizes {
    pub scratch_size: u64,
    pub result_size: u64,
}

/// The scratch buffer serves both building and updating, so it takes the
/// larger of the two scratch sizes; the result buffer holds the structure
/// object itself.
pub fn compute_as_buffer_sizes(object_size: u64, build_scratch_size: u64, update_scratch_size: u64) -> (r:
    AsBufferSizes)
    ensures
        r.result_size == object_size,
        r.scratch_size == if build_scratch_size >= update_scratch_size {
            build_scratch_size
        } else {
            update_scratch_size
        },
{
    let scratch_size = if build_scratch_size >= update_scratch_size {
        build_scratch_size
    } else {
        update_scratch_size
    };
    AsBufferSizes { scratch_size, result_size: object_size }
}

/// The buffers an acceleration structure owns: scratch space for the build,
/// storage for the result and, for a top-level structure, the instance
/// records.
#[derive(Clone, Copy, Debug, PartialEq, Eq, Structural)]
pub struct AsBuffers {
    pub scratch: BufferCreateInfo,
    pub result: BufferCreateInfo,
    pub instances: Option<BufferCreateInfo>,
}

/// A global memory barrier between pipeline stages.
#[derive(Clone, Copy, Debug, PartialEq, Eq, Structural)]
pub struct MemoryBarrier {
    pub src_access: u32,
    pub dst_access: u32,
    pub src_stage: u32,
    pub dst_stage: u32,
}

/// The barrier recorded after every build: structure reads and writes on
/// both sides, within the acceleration-structure build stage.
pub open spec fn build_barrier_spec() -> MemoryBarrier {
    MemoryBarrier {
        src_access: vk::ACCESS_ACCELERATION_STRUCTURE_WRITE | vk::ACCESS_ACCELERATION_STRUCTURE_READ,
        dst_access: vk::ACCESS_ACCELERATION_STRUCTURE_WRITE | vk::ACCESS_ACCELERATION_STRUCTURE_READ,
        src_stage: vk::PIPELINE_STAGE_ACCELERATION_STRUCTURE_BUILD,
        dst_stage: vk::PIPELINE_STAGE_ACCELERATION_STRUCTURE_BUILD,
    }
}

pub fn build_barrier() -> (r: MemoryBarrier)
    ensures
        r == build_barrier_spec(),
{
    MemoryBarrier {
        src_access: vk::ACCESS_ACCELERATION_STRUCTURE_WRITE | vk::ACCESS_ACCELERATION_STRUCTURE_READ,
        dst_access: vk::ACCESS_ACCELERATION_STRUCTURE_WRITE | vk::ACCESS_ACCELERATION_STRUCTURE_READ,
        src_stage: vk::PIPELINE_STAGE_ACCELERATION_STRUCTURE_BUILD,
        dst_stage: vk::PIPELINE_STAGE_ACCELERATION_STRUCTURE_BUILD,
    }
}

/// A command recorded while building acceleration structures (structures
/// and buffers as raw handles).
#[derive(Clone, Debug)]
pub enum AsCommand {
    BuildBottomLevel { structure: u64, scratch_buffer: u64, geometries: Vec<GeometryTriangles> },
    BuildTopLevel {
        structure: u64,
        scratch_buffer: u64,
        instance_buffer: u64,
        instance_count: u32,
        bottom_levels: Vec<u64>,
    },
    Barrier(MemoryBarrier),
}

/// Command `p` builds the bottom-level structure `s`.
pub open spec fn built_at(cmds: Seq<AsCommand>, p: int, s: u64) -> bool {
    &&& 0 <= p < cmds.len()
    &&& cmds[p] matches AsCommand::BuildBottomLevel { structure, .. } && structure == s
}

/// Command `b` is the build barrier.
pub open spec fn barrier_at(cmds: Seq<AsCommand>, b: int) -> bool {
    &&& 0 <= b < cmds.len()
    &&& cmds[b] matches AsCommand::Barrier(m) && m == build_barrier_spec()
}

/// The bottom-level structures that command `t` reads, if it is a top-level
/// build.
pub open spec fn read_structures(c: AsCommand) -> Seq<u64> {
    match c {
        AsCommand::BuildTopLevel { bottom_levels, .. } => bottom_levels@,
        _ => Seq::empty(),
    }
}

/// Every bottom-level structure that a top-level build reads was built by an
/// earlier command, and a build barrier stands between that build and the
/// top-level build.
pub open spec fn builds_ordered(cmds: Seq<AsCommand>) -> bool {
    forall|t: int, k: int|
        0 <= t < cmds.len() && 0 <= k < read_structures(cmds[t]).len() ==> built_before(
            cmds,
            #[trigger] read_structures(cmds[t])[k],
            t,
        )
}

/// The structure `s` is built by a command before position `t`, and the
/// command right after that build, also before `t`, is the build barrier.
pub open spec fn built_before(cmds: Seq<AsCommand>, s: u64, t: int) -> bool {
    exists|p: int| #[trigger] built_at(cmds, p, s) && p + 1 < t && barrier_at(cmds, p + 1)
}

/// The recorded commands come in pairs: a build, then the build barrier.
pub open spec fn paired(cmds: Seq<AsCommand>) -> bool {
    &&& cmds.len() % 2 == 0
    &&& forall|j: int| 0 <= j < cmds.len() && j % 2 == 1 ==> #[trigger] barrier_at(cmds, j)
    &&& forall|j: int| 0 <= j < cmds.len() && j % 2 == 0 ==> !(#[trigger] cmds[j] is Barrier)
}

/// Records acceleration-structure builds into one single-use command
/// buffer, each followed by a build barrier, and refuses a top-level build
/// that reads a bottom-level structure not built before it.
#[derive(Clone, Debug)]
pub struct AsCommandRecorder {
    pub commands: Vec<AsCommand>,
}

/// The structure `s` was built by a command of `cmds` at an even position,
/// which in a paired stream is followed by a build barrier.
pub open spec fn built_even(cmds: Seq<AsCommand>, s: u64) -> bool {
    exists|p: int| #[trigger] built_at(cmds, p, s) && p % 2 == 0
}

/// The structure `s` was built by a command of `cmds`.
pub open spec fn is_built(cmds: Seq<AsCommand>, s: u64) -> bool {
    exists|p: int| built_at(cmds, p, s)
}

impl AsCommandRecorder {
    pub open spec fn wf(&self) -> bool {
        &&& paired(self.commands@)
        &&& builds_ordered(self.commands@)
    }

    pub fn new() -> (r: AsCommandRecorder)
        ensures
            r.wf(),
            r.commands@.len() == 0,
    {
        AsCommandRecorder { commands: Vec::new() }
    }

    fn find_built(&self, s: u64) -> (r: bool)
        requires
            paired(self.commands@),
        ensures
            r <==> is_built(self.commands@, s),
            r ==> built_even(self.commands@, s),
    {
        let mut i: usize = 0;
        while i < self.commands.len()
            invariant
                i <= self.commands.len(),
                paired(self.commands@),
                forall|p: int| 0 <= p < i ==> !built_at(self.commands@, p, s),
            decreases self.commands.len() - i,
        {
            let hit = match &self.commands[i] {
                AsCommand::BuildBottomLevel { structure, .. } => *structure == s,
                _ => false,
            };
            if hit {
                assert(built_at(self.commands@, i as int, s));
                assert(i % 2 == 0) by {
                    if i % 2 == 1 {
                        assert(barrier_at(self.commands@, i as int));
                    }
                }
                return true;
            }
            i = i + 1;
        }
        false
    }

    proof fn lemma_push_pair(old_cmds: Seq<AsCommand>, build: AsCommand, cmds: Seq<AsCommand>)
        requires
            paired(old_cmds),
            builds_ordered(old_cmds),
            !(build is Barrier),
            cmds == old_cmds.push(build).push(AsCommand::Barrier(build_barrier_spec())),
            forall|k: int|
                0 <= k < read_structures(build).len() ==> built_even(
                    old_cmds,
                    #[trigger] read_structures(build)[k],
                ),
        ensures
            paired(cmds),
            builds_ordered(cmds),
            forall|i: int| 0 <= i < old_cmds.len() ==> cmds[i] == old_cmds[i],
    {
        let n = old_cmds.len() as int;
        assert forall|j: int| 0 <= j < cmds.len() && j % 2 == 1 implies barrier_at(cmds, j) by {
            if j < n {
                assert(barrier_at(old_cmds, j));
            }
        }
        assert forall|j: int| 0 <= j < cmds.len() && j % 2 == 0 implies !(#[trigger] cmds[j] is Barrier) by {
            if j < n {
                assert(!(old_cmds[j] is Barrier));
            }
        }
        assert forall|t: int, k: int|
            0 <= t < cmds.len() && 0 <= k < read_structures(cmds[t]).len() implies built_before(
                cmds,
                #[trigger] read_structures(cmds[t])[k],
                t,
            ) by {
            if t < n {
                assert(cmds[t] == old_cmds[t]);
                assert(read_structures(old_cmds[t])[k] == read_structures(cmds[t])[k]);
                let s = read_structures(old_cmds[t])[k];
                assert(built_before(old_cmds, s, t));
                let p = choose|p: int|
                    #[trigger] built_at(old_cmds, p, s) && p + 1 < t && barrier_at(old_cmds, p + 1);
                assert(built_at(cmds, p, read_structures(cmds[t])[k]));
                assert(barrier_at(cmds, p + 1));
            } else if t == n {
                let s = read_structures(build)[k];
                assert(built_even(old_cmds, s));
                let p = choose|p: int| #[trigger] built_at(old_cmds, p, s) && p % 2 == 0;
                assert(barrier_at(old_cmds, p + 1));
                assert(built_at(cmds, p, s));
                assert(barrier_at(cmds, p + 1));
            } else {
                assert(read_structures(cmds[t]).len() == 0);
            }
        }
    }

    /// Records the build of a bottom-level structure followed by the build
    /// barrier.
    pub fn record_bottom_level(
        &mut self,
        structure: u64,
        scratch_buffer: u64,
        geometries: Vec<GeometryTriangles>,
    )
        requires
            old(self).wf(),
        ensures
            final(self).wf(),
            final(self).commands@ == old(self).commands@.push(
                AsCommand::BuildBottomLevel { structure, scratch_buffer, geometries },
            ).push(AsCommand::Barrier(build_barrier_spec())),
    {
        let ghost old_cmds = self.commands@;
        let build = AsCommand::BuildBottomLevel { structure, scratch_buffer, geometries };
        self.commands.push(build);
        self.commands.push(AsCommand::Barrier(build_barrier()));
        proof {
            Self::lemma_push_pair(
                old_cmds,
                AsCommand::BuildBottomLevel { structure, scratch_buffer, geometries },
                self.commands@,
            );
        }
    }

    /// Records the build of a top-level structure over instances of the
    /// bottom-level structures `bottom_levels`, followed by the build
    /// barrier; fails, recording nothing, when one of those structures was
    /// not built before.
    pub fn record_top_level(
        &mut self,
        structure: u64,
        scratch_buffer: u64,
        instance_buffer: u64,
        bottom_levels: Vec<u64>,
    ) -> (r: Result<(), VulkanError>)
        requires
            old(self).wf(),
            bottom_levels.len() <= u32::MAX,
        ensures
            final(self).wf(),
            r is Ok <==> forall|k: int|
                0 <= k < bottom_levels.len() ==> is_built(old(self).commands@, #[trigger] bottom_levels@[k]),
            r matches Err(e) ==> e is RayTracingError && final(self).commands@ == old(self).commands@,
            r is Ok ==> final(self).commands@ == old(self).commands@.push(
                AsCommand::BuildTopLevel {
                    structure,
                    scratch_buffer,
                    instance_buffer,
                    instance_count: bottom_levels.len() as u32,
                    bottom_levels,
                },
            ).push(AsCommand::Barrier(build_barrier_spec())),
    {
        let mut k: usize = 0;
        while k < bottom_levels.len()
            invariant
                self.wf(),
                k <= bottom_levels.len(),
                forall|j: int| 0 <= j < k ==> built_even(self.commands@, #[trigger] bottom_levels@[j]),
            decreases bottom_levels.len() - k,
        {
            let found = self.find_built(bottom_levels[k]);
            if !found {
                assert(!is_built(self.commands@, bottom_levels@[k as int]));
                return Err(
                    VulkanError::RayTracingError(
                        "top-level build reads a bottom-level structure not built before".to_string(),
                    ),
                );
            }
            assert(built_even(self.commands@, bottom_levels@[k as int]));
            k = k + 1;
        }
        let ghost old_cmds = self.commands@;
        let instance_count = bottom_levels.len() as u32;
        let ghost levels = bottom_levels;
        let build = AsCommand::BuildTopLevel {
            structure,
            scratch_buffer,
            instance_buffer,
            instance_count,
            bottom_levels,
        };
        self.commands.push(build);
        self.commands.push(AsCommand::Barrier(build_barrier()));
        proof {
            let b = AsCommand::BuildTopLevel {
                structure,
                scratch_buffer,
                instance_buffer,
                instance_count,
                bottom_levels: levels,
            };
            assert(read_structures(b) == levels@);
            assert forall|j: int|
                0 <= j < read_structures(b).len() implies built_even(
                    old_cmds,
                    #[trigger] read_structures(b)[j],
                ) by {
                assert(levels@[j] == read_structures(b)[j]);
            }
            Self::lemma_push_pair(old_cmds, b, self.commands@);
        }
        Ok(())
    }
}

/// Ordering of acceleration-structure builds: in any command stream the
/// recorder produces, a top-level build reads only bottom-level structures
/// whose build was recorded earlier with a build barrier after it, and that
/// barrier precedes the top-level build.
pub proof fn lemma_top_level_after_bottom_level_barrier(rec: AsCommandRecorder, t: int, k: int)
    requires
        rec.wf(),
        0 <= t < rec.commands@.len(),
        0 <= k < read_structures(rec.commands@[t]).len(),
    ensures
        exists|p: int, b: int|
            p < b < t && built_at(rec.commands@, p, read_structures(rec.commands@[t])[k])
                && barrier_at(rec.commands@, b),
{
    let cmds = rec.commands@;
    let s = read_structures(cmds[t])[k];
    assert(built_before(cmds, s, t));
    let p = choose|p: int| #[trigger] built_at(cmds, p, s) && p + 1 < t && barrier_at(cmds, p + 1);
    assert(p < p + 1 < t && built_at(cmds, p, s) && barrier_at(cmds, p + 1));
}

/// Command `c` builds the bottom-level structure `structure` from the
/// geometries `g`, with the scratch buffer `scratch_buffer`.
pub open spec fn builds_bottom_level(
    c: AsCommand,
    structure: u64,
    scratch_buffer: u64,
    g: Seq<GeometryTriangles>,
) -> bool {
    match c {
        AsCommand::BuildBottomLevel { structure: st, scratch_buffer: sb, geometries } => st
            == structure && sb == scratch_buffer && geometries@ == g,
        _ => false,
    }
}

/// Command `c` builds the top-level structure `structure` over instances of
/// the bottom-level structures `levels`, with the given scratch and
/// instance buffers.
pub open spec fn builds_top_level(
    c: AsCommand,
    structure: u64,
    scratch_buffer: u64,
    instance_buffer: u64,
    levels: Seq<u64>,
) -> bool {
    match c {
        AsCommand::BuildTopLevel {
            structure: st,
            scratch_buffer: sb,
            instance_buffer: ib,
            instance_count,
            bottom_levels,
        } => st == structure && sb == scratch_buffer && ib == instance_buffer && instance_count
            == levels.len() && bottom_levels@ == levels,
        _ => false,
    }
}

/// `r` is the record of instance `inst`, whose bottom-level structure has
/// the device handle `handle`: the first three rows of its transform, its id
/// visible to every ray (mask 0xff), its hit group, and culling disabled.
pub open spec fn is_record_of(r: VulkanGeometryInstance, inst: Instance, handle: u64) -> bool {
    &&& r.transform@ == truncated_transform(inst.transform@)
    &&& r.instance_id_and_mask == packed_24_8(inst.instance_id, 0xff)
    &&& r.instance_offset_and_flags == packed_24_8(
        inst.hit_group_index,
        vk::GEOMETRY_INSTANCE_TRIANGLE_CULL_DISABLE,
    )
    &&& r.acceleration_handle == handle
}

/// The bottom-level structures that the instances use, in order.
pub open spec fn instance_structures(instances: Seq<Instance>) -> Seq<u64> {
    instances.map_values(|i: Instance| i.bottom_level_as)
}

/// Collects what one acceleration structure is built from: either the
/// geometries of a bottom-level structure or the instances of a top-level
/// one, and the command buffer the build is recorded into.
#[derive(Clone, Debug)]
pub struct AccelerationStructureBuilder {
    pub command_buffer: Option<u64>,
    pub bottom_level_as: Option<Vec<GeometryTriangles>>,
    pub top_level_as: Option<Vec<Instance>>,
}

impl AccelerationStructureBuilder {
    pub fn new() -> (r: AccelerationStructureBuilder)
        ensures
            r.command_buffer is None,
            r.bottom_level_as is None,
            r.top_level_as is None,
    {
        AccelerationStructureBuilder { command_buffer: None, bottom_level_as: None, top_level_as: None }
    }

    pub fn with_bottom_level_as(self, geometries: Vec<GeometryTriangles>) -> (r: Self)
        ensures
            r.command_buffer == self.command_buffer,
            r.bottom_level_as == Some(geometries),
            r.top_level_as == self.top_level_as,
    {
        AccelerationStructureBuilder { bottom_level_as: Some(geometries), ..self }
    }

    pub fn with_top_level_as(self, instances: Vec<Instance>) -> (r: Self)
        ensures
            r.command_buffer == self.command_buffer,
            r.bottom_level_as == self.bottom_level_as,
            r.top_level_as == Some(instances),
    {
        AccelerationStructureBuilder { top_level_as: Some(instances), ..self }
    }

    pub fn with_command_buffer(self, command_buffer: u64) -> (r: Self)
        ensures
            r.command_buffer == Some(command_buffer),
            r.bottom_level_as == self.bottom_level_as,
            r.top_level_as == self.top_level_as,
    {
        AccelerationStructureBuilder { command_buffer: Some(command_buffer), ..self }
    }

    /// A command buffer is given, and exactly one of the two levels.
    pub open spec fn valid(&self) -> bool {
        &&& self.command_buffer is Some
        &&& (self.bottom_level_as is Some) != (self.top_level_as is Some)
        &&& self.top_level_as matches Some(v) ==> v.len() <= u32::MAX
    }

    /// What the structure is created and built from; fails when the command
    /// buffer is missing, or when neither or both levels were given.
    pub fn info(&self) -> (r: Result<AccelerationStructureInfo, VulkanError>)
        ensures
            r is Ok <==> self.valid(),
            r matches Err(e) ==> e is RayTracingError,
            r matches Ok(i) ==> match self.bottom_level_as {
                Some(g) => i.ty == AccelerationStructureType::BottomLevel && i.instance_count == 0
                    && i.geometries@ == g@,
                None => i.ty == AccelerationStructureType::TopLevel && i.instance_count
                    == self.top_level_as->0.len() && i.geometries@.len() == 0,
            },
    {
        if self.command_buffer.is_none() {
            return Err(VulkanError::RayTracingError("missing command buffer".to_string()));
        }
        match (&self.bottom_level_as, &self.top_level_as) {
            (Some(geometries), None) => {
                let copy = copy_geometries(geometries);
                Ok(
                    AccelerationStructureInfo {
                        ty: AccelerationStructureType::BottomLevel,
                        instance_count: 0,
                        geometries: copy,
                    },
                )
            },
            (None, Some(instances)) => {
                if instances.len() > u32::MAX as usize {
                    return Err(VulkanError::RayTracingError("too many instances".to_string()));
                }
                Ok(
                    AccelerationStructureInfo {
                        ty: AccelerationStructureType::TopLevel,
                        instance_count: instances.len() as u32,
                        geometries: Vec::new(),
                    },
                )
            },
            _ => Err(
                VulkanError::RayTracingError(
                    "exactly one of bottom-level geometries and top-level instances is needed".to_string(),
                ),
            ),
        }
    }

    /// The buffers of the structure, given the sizes its memory
    /// requirements call for; a top-level structure adds a host-visible
    /// buffer of one record per instance.
    pub fn buffers(&self, sizes: AsBufferSizes) -> (r: AsBuffers)
        requires
            self.top_level_as matches Some(v) ==> v.len() * 64 <= u64::MAX,
        ensures
            r.scratch == create_info_of(BufferType::RayTracing, sizes.scratch_size),
            r.result == create_info_of(BufferType::RayTracing, sizes.result_size),
            r.instances == match self.top_level_as {
                Some(v) => Some(create_info_of(BufferType::RayTracingInstance, (v.len() * 64) as u64)),
                None => None::<BufferCreateInfo>,
            },
    {
        let scratch = BufferBuilder::new().with_type(BufferType::RayTracing).with_size(
            sizes.scratch_size,
        ).create_info();
        let result = BufferBuilder::new().with_type(BufferType::RayTracing).with_size(
            sizes.result_size,
        ).create_info();
        let instances = match &self.top_level_as {
            Some(v) => {
                let size = v.len() as u64 * 64;
                Some(
                    BufferBuilder::new().with_type(BufferType::RayTracingInstance).with_size(
                        size,
                    ).create_info(),
                )
            },
            None => None,
        };
        AsBuffers { scratch, result, instances }
    }

    /// The records of the top-level instances, given the device handle of
    /// each instance's bottom-level structure, in order. A handle of zero is
    /// a failed retrieval, and the structure cannot be built.
    pub fn instance_records(&self, handles: &Vec<u64>) -> (r: Result<
        Vec<VulkanGeometryInstance>,
        VulkanError,
    >)
        requires
            self.top_level_as is Some,
        ensures
            r is Ok <==> (handles.len() == self.top_level_as->0.len() && forall|i: int|
                0 <= i < handles.len() ==> #[trigger] handles@[i] != 0),
            r matches Err(e) ==> e is RayTracingError,
            r matches Ok(rs) ==> {
                &&& rs.len() == handles.len()
                &&& forall|i: int|
                    0 <= i < rs.len() ==> is_record_of(
                        #[trigger] rs@[i],
                        self.top_level_as->0@[i],
                        handles@[i],
                    )
            },
    {
        let instances = match &self.top_level_as {
            Some(v) => v,
            None => {
                return Err(VulkanError::RayTracingError("missing instances".to_string()));
            },
        };
        if handles.len() != instances.len() {
            return Err(
                VulkanError::RayTracingError(
                    "one device handle is needed per instance".to_string(),
                ),
            );
        }
        let mut records: Vec<VulkanGeometryInstance> = Vec::new();
        let mut i: usize = 0;
        while i < instances.len()
            invariant
                i <= instances.len() == handles.len(),
                records.len() == i,
                forall|j: int| 0 <= j < i ==> #[trigger] handles@[j] != 0,
                forall|j: int|
                    0 <= j < i ==> is_record_of(#[trigger] records@[j], instances@[j], handles@[j]),
            decreases instances.len() - i,
        {
            if handles[i] == 0 {
                return Err(
                    VulkanError::RayTracingError(
                        "cannot get the device handle of a bottom-level structure".to_string(),
                    ),
                );
            }
            let inst = &instances[i];
            let record = VulkanGeometryInstance::new(
                &inst.transform,
                inst.instance_id,
                0xff,
                inst.hit_group_index,
                vk::GEOMETRY_INSTANCE_TRIANGLE_CULL_DISABLE,
                handles[i],
            );
            records.push(record);
            i = i + 1;
        }
        Ok(records)
    }

    /// Records the build of the structure (raw handles of the structure,
    /// its scratch buffer and, for a top-level one, its instance buffer),
    /// followed by the build barrier. A top-level build fails, recording
    /// nothing, unless every structure its instances use was built before.
    pub fn record(
        &self,
        recorder: &mut AsCommandRecorder,
        structure: u64,
        scratch_buffer: u64,
        instance_buffer: u64,
    ) -> (r: Result<(), VulkanError>)
        requires
            self.valid(),
            old(recorder).wf(),
        ensures
            final(recorder).wf(),
            match self.bottom_level_as {
                Some(g) => {
                    &&& r is Ok
                    &&& final(recorder).commands@.len() == old(recorder).commands@.len() + 2
                    &&& final(recorder).commands@.subrange(0, old(recorder).commands@.len() as int)
                        == old(recorder).commands@
                    &&& builds_bottom_level(
                        final(recorder).commands@[old(recorder).commands@.len() as int],
                        structure,
                        scratch_buffer,
                        g@,
                    )
                },
                None => {
                    let levels = instance_structures(self.top_level_as->0@);
                    &&& r is Ok <==> forall|k: int|
                        0 <= k < levels.len() ==> is_built(old(recorder).commands@, #[trigger] levels[k])
                    &&& r matches Err(e) ==> e is RayTracingError && final(recorder).commands@ == old(
                        recorder,
                    ).commands@
                    &&& r is Ok ==> {
                        &&& final(recorder).commands@.len() == old(recorder).commands@.len() + 2
                        &&& final(recorder).commands@.subrange(
                            0,
                            old(recorder).commands@.len() as int,
                        ) == old(recorder).commands@
                        &&& builds_top_level(
                            final(recorder).commands@[old(recorder).commands@.len() as int],
                            structure,
                            scratch_buffer,
                            instance_buffer,
                            levels,
                        )
                    }
                },
            },
    {
        match &self.bottom_level_as {
            Some(geometries) => {
                let copy = copy_geometries(geometries);
                recorder.record_bottom_level(structure, scratch_buffer, copy);
                Ok(())
            },
            None => {
                let instances = match &self.top_level_as {
                    Some(v) => v,
                    None => {
                        return Err(VulkanError::RayTracingError("missing instances".to_string()));
                    },
                };
                let mut levels: Vec<u64> = Vec::new();
                let mut i: usize = 0;
                while i < instances.len()
                    invariant
                        i <= instances.len(),
                        levels@ == instance_structures(instances@).subrange(0, i as int),
                    decreases instances.len() - i,
                {
                    levels.push(instances[i].bottom_level_as);
                    assert(levels@ =~= instance_structures(instances@).subrange(0, i + 1));
                    i = i + 1;
                }
                assert(levels@ =~= instance_structures(instances@));
                recorder.record_top_level(structure, scratch_buffer, instance_buffer, levels)
            },
        }
    }
}

/// One instance per bottom-level structure (raw handles), all with the
/// mesh's transform: instance `i` has id `i` and uses hit group `2 * i`, as
/// each instance has a primary and a shadow hit group.
pub fn instances_for(bottom_levels: &Vec<u64>, transform: &[u32; 16]) -> (r: Vec<Instance>)
    requires
        2 * bottom_levels.len() <= u32::MAX,
    ensures
        r.len() == bottom_levels.len(),
        forall|i: int|
            0 <= i < r.len() ==> {
                &&& (#[trigger] r@[i]).bottom_level_as == bottom_levels@[i]
                &&& r@[i].transform@ == transform@
                &&& r@[i].instance_id == i
                &&& r@[i].hit_group_index == 2 * i
            },
{
    let mut out: Vec<Instance> = Vec::new();
    let mut i: usize = 0;
    while i < bottom_levels.len()
        invariant
            i <= bottom_levels.len(),
            2 * bottom_levels.len() <= u32::MAX,
            out.len() == i,
            forall|k: int|
                0 <= k < i ==> {
                    &&& (#[trigger] out@[k]).bottom_level_as == bottom_levels@[k]
                    &&& out@[k].transform@ == transform@
                    &&& out@[k].instance_id == k
                    &&& out@[k].hit_group_index == 2 * k
                },
        decreases bottom_levels.len() - i,
    {
        out.push(
            Instance {
                bottom_level_as: bottom_levels[i],
                transform: *transform,
                instance_id: i as u32,
                hit_group_index: (2 * i) as u32,
            },
        );
        i = i + 1;
    }
    out
}

/// A copy of the geometries, element for element.
pub fn copy_geometries(v: &Vec<GeometryTriangles>) -> (r: Vec<GeometryTriangles>)
    ensures
        r@ == v@,
{
    let mut copy: Vec<GeometryTriangles> = Vec::new();
    let mut i: usize = 0;
    while i < v.len()
        invariant
            i <= v.len(),
            copy@ == v@.subrange(0, i as int),
        decreases v.len() - i,
    {
        copy.push(v[i]);
        assert(copy@ =~= v@.subrange(0, i + 1));
        i = i + 1;
    }
    assert(copy@ =~= v@);
    copy
}

} // verus!
