//! The shader binding table: its layout (ray-gen region, then miss region,
//! then hit-group region, one 16-byte aligned entry per shader group) and its
//! contents, the shader group handles copied into their slots.
use vstd::prelude::*;

use crate::errors::VulkanError;
use crate::pipeline::Pipeline;

verus! {

/// The stride of one entry: the handle size rounded up to a multiple of 16.
pub open spec fn entry_size_of(handle_size: u32) -> int {
    ((handle_size + 15) / 16) * 16
}

/// The entry stride for shader group handles of `handle_size` bytes.
pub fn entry_size(handle_size: u32) -> (r: u64)
    ensures
        r == entry_size_of(handle_size),
        r % 16 == 0,
        handle_size <= r < handle_size + 16,
{
    let r = (handle_size as u64 + 15) / 16 * 16;
    assert(r % 16 == 0 && handle_size <= r < handle_size + 16) by (nonlinear_arith)
        requires
            r == (handle_size + 15) / 16 * 16,
    ;
    r
}

/// Where each region of the table lies and how large its entries are.
#[derive(Clone, Copy, Debug, PartialEq, Eq, Structural)]
pub struct SbtLayout {
    pub ray_gen_entry_size: u64,
    pub ray_gen_offset: u64,
    pub miss_entry_size: u64,
    pub miss_offset: u64,
    pub hit_group_entry_size: u64,
    pub hit_group_offset: u64,
    pub size: u64,
}

/// The layout of a table with the given number of ray-gen, miss and hit-group
/// entries, each region packed right after the previous one.
pub open spec fn layout_of(
    handle_size: u32,
    ray_gen_count: int,
    miss_count: int,
    hit_group_count: int,
) -> SbtLayout {
    let e = entry_size_of(handle_size);
    SbtLayout {
        ray_gen_entry_size: e as u64,
        ray_gen_offset: 0,
        miss_entry_size: e as u64,
        miss_offset: (e * ray_gen_count) as u64,
        hit_group_entry_size: e as u64,
        hit_group_offset: (e * ray_gen_count + e * miss_count) as u64,
        size: (e * ray_gen_count + e * miss_count + e * hit_group_count) as u64,
    }
}

/// The whole table fits in a device size.
pub open spec fn layout_fits(
    handle_size: u32,
    ray_gen_count: int,
    miss_count: int,
    hit_group_count: int,
) -> bool {
    entry_size_of(handle_size) * (ray_gen_count + miss_count + hit_group_count) <= u64::MAX
}

/// Computes the table's layout from the group counts and the device's
/// shader group handle size.
pub fn sbt_layout(handle_size: u32, ray_gen_count: u64, miss_count: u64, hit_group_count: u64) -> (r:
    SbtLayout)
    requires
        layout_fits(handle_size, ray_gen_count as int, miss_count as int, hit_group_count as int),
    ensures
        r == layout_of(handle_size, ray_gen_count as int, miss_count as int, hit_group_count as int),
        r.miss_offset == r.ray_gen_entry_size * ray_gen_count,
        r.hit_group_offset == r.miss_offset + r.miss_entry_size * miss_count,
        r.ray_gen_entry_size % 16 == 0,
        r.miss_entry_size % 16 == 0,
        r.hit_group_entry_size % 16 == 0,
{
    let e = entry_size(handle_size);
    assert(e * ray_gen_count + e * miss_count + e * hit_group_count == e * (ray_gen_count
        + miss_count + hit_group_count)) by (nonlinear_arith);
    assert(e * ray_gen_count <= e * (ray_gen_count + miss_count + hit_group_count)) by (
    nonlinear_arith);
    assert(e * ray_gen_count + e * miss_count <= e * (ray_gen_count + miss_count
        + hit_group_count)) by (nonlinear_arith);
    let miss_offset = e * ray_gen_count;
    let hit_group_offset = miss_offset + e * miss_count;
    let size = hit_group_offset + e * hit_group_count;
    SbtLayout {
        ray_gen_entry_size: e,
        ray_gen_offset: 0,
        miss_entry_size: e,
        miss_offset,
        hit_group_entry_size: e,
        hit_group_offset,
        size,
    }
}

/// The offsets of the table's regions agree with its group counts: the miss
/// region starts after all ray-gen entries, the hit-group region after all
/// miss entries, and every stride is a multiple of 16 bytes.
pub proof fn lemma_sbt_offsets(
    handle_size: u32,
    ray_gen_count: int,
    miss_count: int,
    hit_group_count: int,
)
    requires
        0 <= ray_gen_count,
        0 <= miss_count,
        0 <= hit_group_count,
        layout_fits(handle_size, ray_gen_count, miss_count, hit_group_count),
    ensures
        ({
            let l = layout_of(handle_size, ray_gen_count, miss_count, hit_group_count);
            &&& l.ray_gen_offset == 0
            &&& l.miss_offset == l.ray_gen_entry_size * ray_gen_count
            &&& l.hit_group_offset == l.miss_offset + l.miss_entry_size * miss_count
            &&& l.size == l.hit_group_offset + l.hit_group_entry_size * hit_group_count
            &&& l.ray_gen_entry_size % 16 == 0
            &&& l.miss_entry_size % 16 == 0
            &&& l.hit_group_entry_size % 16 == 0
            &&& l.ray_gen_entry_size >= handle_size
        }),
{
    let e = entry_size_of(handle_size);
    assert(e % 16 == 0 && handle_size <= e < handle_size + 16) by (nonlinear_arith)
        requires
            e == (handle_size + 15) / 16 * 16,
    ;
    assert(0 <= e * ray_gen_count <= e * (ray_gen_count + miss_count + hit_group_count)) by (
    nonlinear_arith)
        requires
            e >= 0,
            0 <= ray_gen_count,
            0 <= miss_count,
            0 <= hit_group_count,
    ;
    assert(0 <= e * ray_gen_count + e * miss_count <= e * (ray_gen_count + miss_count
        + hit_group_count)) by (nonlinear_arith)
        requires
            e >= 0,
            0 <= ray_gen_count,
            0 <= miss_count,
            0 <= hit_group_count,
    ;
    assert(0 <= e * ray_gen_count + e * miss_count + e * hit_group_count == e * (ray_gen_count
        + miss_count + hit_group_count)) by (nonlinear_arith)
        requires
            e >= 0,
            0 <= ray_gen_count,
            0 <= miss_count,
            0 <= hit_group_count,
    ;
}

/// Byte `o` of the entry that holds the handle of shader group `group`: the
/// handle's bytes, then zero padding up to the stride.
pub open spec fn entry_byte(handles: Seq<u8>, handle_size: int, group: int, o: int) -> u8 {
    if o < handle_size {
        handles[group * handle_size + o]
    } else {
        0u8
    }
}

/// The position of byte `o` of slot `s` in a table of `entry`-byte entries.
pub open spec fn slot_pos(entry: int, s: int, o: int) -> int {
    s * entry + o
}

/// The handle of shader group `group` lies within the fetched handle bytes.
pub open spec fn group_fetched(handles: Seq<u8>, handle_size: int, group: int) -> bool {
    (group + 1) * handle_size <= handles.len()
}

/// `table` is the shader binding table whose slots hold, in order, the
/// handles of the groups `slots`.
pub open spec fn table_holds(table: Seq<u8>, handles: Seq<u8>, handle_size: u32, slots: Seq<u32>) -> bool {
    let e = entry_size_of(handle_size);
    &&& table.len() == e * slots.len()
    &&& forall|s: int, o: int|
        0 <= s < slots.len() && 0 <= o < e ==> #[trigger] table[slot_pos(e, s, o)] == entry_byte(
            handles,
            handle_size as int,
            slots[s] as int,
            o,
        )
}

proof fn lemma_slot_before(entry: int, s: int, o: int, n: int)
    requires
        0 <= s < n,
        0 <= o < entry,
    ensures
        0 <= slot_pos(entry, s, o) < n * entry,
        s < n - 1 ==> slot_pos(entry, s, o) < (n - 1) * entry,
{
    assert(0 <= s * entry + o < n * entry) by (nonlinear_arith)
        requires
            0 <= s < n,
            0 <= o < entry,
    ;
    assert(s < n - 1 ==> s * entry + o < (n - 1) * entry) by (nonlinear_arith)
        requires
            0 <= s < n,
            0 <= o < entry,
    ;
}

/// Appends one entry: the handle of `group` and zero padding up to `entry`
/// bytes.
fn push_entry(out: &mut Vec<u8>, handles: &Vec<u8>, handle_size: u32, entry: usize, group: u32)
    requires
        group_fetched(handles@, handle_size as int, group as int),
        handle_size <= entry,
        old(out).len() + entry <= usize::MAX,
    ensures
        final(out).len() == old(out).len() + entry,
        final(out)@.subrange(0, old(out).len() as int) == old(out)@,
        forall|o: int|
            0 <= o < entry ==> #[trigger] final(out)@[old(out).len() + o] == entry_byte(
                handles@,
                handle_size as int,
                group as int,
                o,
            ),
{
    let ghost start = out.len();
    let hs = handle_size as usize;
    proof {
        assert(0 <= group * handle_size <= handles.len() - handle_size) by (nonlinear_arith)
            requires
                (group + 1) * handle_size <= handles.len(),
        ;
    }
    let base = group as usize * hs;
    let mut o: usize = 0;
    while o < entry
        invariant
            out.len() == start + o,
            start + entry <= usize::MAX,
            o <= entry,
            hs == handle_size,
            hs <= entry,
            base == group * handle_size,
            base + hs <= handles.len(),
            out@.subrange(0, start as int) == old(out)@,
            forall|k: int|
                0 <= k < o ==> #[trigger] out@[start + k] == entry_byte(
                    handles@,
                    handle_size as int,
                    group as int,
                    k,
                ),
        decreases entry - o,
    {
        let b: u8 = if o < hs {
            handles[base + o]
        } else {
            0u8
        };
        let ghost before = out@;
        out.push(b);
        assert(out@.subrange(0, start as int) =~= before.subrange(0, start as int));
        assert forall|k: int| 0 <= k < o + 1 implies #[trigger] out@[start + k] == entry_byte(
            handles@,
            handle_size as int,
            group as int,
            k,
        ) by {
            if k < o {
                assert(out@[start + k] == before[start + k]);
            }
        }
        o = o + 1;
    }
}

/// Lays the handles of the groups `slots` out as a shader binding table with
/// 16-byte aligned entries; `handles` holds the handles of all the pipeline's
/// groups, as fetched in one driver call. Fails when a slot names a group
/// whose handle was not fetched.
pub fn sbt_contents(handles: &Vec<u8>, handle_size: u32, slots: &Vec<u32>) -> (r: Result<
    Vec<u8>,
    VulkanError,
>)
    requires
        entry_size_of(handle_size) * slots.len() <= usize::MAX,
    ensures
        r is Ok <==> forall|s: int|
            0 <= s < slots.len() ==> group_fetched(handles@, handle_size as int, #[trigger] slots@[s] as int),
        r matches Ok(t) ==> table_holds(t@, handles@, handle_size, slots@),
        r matches Err(e) ==> e is RayTracingError,
{
    let mut i: usize = 0;
    while i < slots.len()
        invariant
            i <= slots.len(),
            forall|s: int|
                0 <= s < i ==> group_fetched(handles@, handle_size as int, #[trigger] slots@[s] as int),
        decreases slots.len() - i,
    {
        let g = slots[i];
        let next: u64 = g as u64 + 1;
        let hs64: u64 = handle_size as u64;
        assert(next * hs64 == (g + 1) * handle_size);
        let len64: u64 = handles.len() as u64;
        let fetched: bool = match next.checked_mul(hs64) {
            Some(end) => {
                assert(end == next * hs64);
                end <= len64
            },
            None => {
                assert(next * hs64 > u64::MAX);
                false
            },
        };
        assert(fetched <==> group_fetched(handles@, handle_size as int, g as int));
        if !fetched {
            return Err(VulkanError::RayTracingError("shader group handle not fetched".to_string()));
        }
        i = i + 1;
    }
    let mut out: Vec<u8> = Vec::new();
    if slots.len() == 0 {
        assert(out@.len() == entry_size_of(handle_size) * slots.len());
        return Ok(out);
    }
    let e64 = entry_size(handle_size);
    proof {
        assert(entry_size_of(handle_size) <= entry_size_of(handle_size) * slots.len()) by (nonlinear_arith)
            requires
                slots.len() >= 1,
                entry_size_of(handle_size) >= 0,
        ;
    }
    let entry = e64 as usize;
    let mut n: usize = 0;
    while n < slots.len()
        invariant
            1 <= slots.len(),
            entry == entry_size_of(handle_size),
            handle_size <= entry,
            entry * slots.len() <= usize::MAX,
            n <= slots.len(),
            out.len() == n * entry,
            forall|s: int|
                0 <= s < slots.len() ==> group_fetched(handles@, handle_size as int, #[trigger] slots@[s] as int),
            forall|s: int, o: int|
                0 <= s < n && 0 <= o < entry ==> #[trigger] out@[slot_pos(entry as int, s, o)]
                    == entry_byte(handles@, handle_size as int, slots@[s] as int, o),
        decreases slots.len() - n,
    {
        proof {
            assert((n + 1) * entry <= slots.len() * entry) by (nonlinear_arith)
                requires
                    n < slots.len(),
                    entry >= 0,
            ;
            assert((n + 1) * entry == n * entry + entry) by (nonlinear_arith);
        }
        let ghost before = out@;
        push_entry(&mut out, handles, handle_size, entry, slots[n]);
        assert forall|s: int, o: int|
            0 <= s < n + 1 && 0 <= o < entry implies #[trigger] out@[slot_pos(entry as int, s, o)]
                == entry_byte(handles@, handle_size as int, slots@[s] as int, o) by {
            lemma_slot_before(entry as int, s, o, n + 1);
            if s < n {
                assert(slot_pos(entry as int, s, o) < n * entry);
                assert(out@.subrange(0, before.len() as int)[slot_pos(entry as int, s, o)] == out@[slot_pos(entry as int, s, o)]);
            } else {
                assert(slot_pos(entry as int, s, o) == before.len() + o);
            }
        }
        n = n + 1;
    }
    proof {
        assert(out@.len() == entry_size_of(handle_size) * slots.len()) by (nonlinear_arith)
            requires
                out@.len() == n * entry,
                n == slots.len(),
                entry == entry_size_of(handle_size),
        ;
    }
    Ok(out)
}

/// A shader binding table: its layout and the bytes to upload into its
/// host-visible buffer.
#[derive(Clone, Debug)]
pub struct ShaderBindingTable {
    pub layout: SbtLayout,
    pub data: Vec<u8>,
}

/// The regions handed to the trace-rays dispatch.
#[derive(Clone, Copy, Debug, PartialEq, Eq, Structural)]
pub struct TraceRaysRegions {
    pub ray_gen_offset: u64,
    pub miss_offset: u64,
    pub miss_stride: u64,
    pub hit_group_offset: u64,
    pub hit_group_stride: u64,
    pub width: u32,
    pub height: u32,
    pub depth: u32,
}

impl ShaderBindingTable {
    /// The arguments of a trace-rays dispatch over a `width` x `height`
    /// image, taken from the very layout the table was written with.
    pub fn trace_rays_regions(&self, width: u32, height: u32) -> (r: TraceRaysRegions)
        ensures
            r == (TraceRaysRegions {
                ray_gen_offset: self.layout.ray_gen_offset,
                miss_offset: self.layout.miss_offset,
                miss_stride: self.layout.miss_entry_size,
                hit_group_offset: self.layout.hit_group_offset,
                hit_group_stride: self.layout.hit_group_entry_size,
                width,
                height,
                depth: 1,
            }),
    {
        TraceRaysRegions {
            ray_gen_offset: self.layout.ray_gen_offset,
            miss_offset: self.layout.miss_offset,
            miss_stride: self.layout.miss_entry_size,
            hit_group_offset: self.layout.hit_group_offset,
            hit_group_stride: self.layout.hit_group_entry_size,
            width,
            height,
            depth: 1,
        }
    }
}

/// The groups of each region of the pipeline's table: ray generation; miss
/// and shadow miss; hit group and shadow hit group.
pub open spec fn sbt_slots(p: Pipeline) -> Seq<u32> {
    seq![
        p.ray_gen_index,
        p.miss_index,
        p.shadow_miss_index,
        p.hit_group_index,
        p.shadow_hit_group_index,
    ]
}

/// Builds the shader binding table of a ray-tracing pipeline.
pub struct ShaderBindingTableBuilder {
    pub handle_size: u32,
    pub pipeline: Pipeline,
}

impl ShaderBindingTableBuilder {
    /// `handle_size` is the device's shader group handle size.
    pub fn new(handle_size: u32, pipeline: Pipeline) -> (r: ShaderBindingTableBuilder)
        ensures
            r.handle_size == handle_size,
            r.pipeline == pipeline,
    {
        ShaderBindingTableBuilder { handle_size, pipeline }
    }

    /// How many group handles to fetch from the driver, starting at group 0.
    pub fn group_count(&self) -> (r: u32)
        requires
            self.pipeline.groups.len() <= u32::MAX,
        ensures
            r == self.pipeline.groups.len(),
    {
        self.pipeline.groups.len() as u32
    }

    /// Lays the table out (one ray-gen, two miss and two hit-group entries)
    /// and copies each group's handle, taken from `handles`, into its slot.
    pub fn build(&self, handles: &Vec<u8>) -> (r: Result<ShaderBindingTable, VulkanError>)
        requires
            entry_size_of(self.handle_size) * 5 <= usize::MAX,
        ensures
            r is Ok <==> forall|s: int|
                0 <= s < 5 ==> group_fetched(
                    handles@,
                    self.handle_size as int,
                    #[trigger] sbt_slots(self.pipeline)[s] as int,
                ),
            r matches Err(e) ==> e is RayTracingError,
            r matches Ok(t) ==> {
                &&& t.layout == layout_of(self.handle_size, 1, 2, 2)
                &&& table_holds(t.data@, handles@, self.handle_size, sbt_slots(self.pipeline))
            },
    {
        let p = &self.pipeline;
        let slots = vec![
            p.ray_gen_index,
            p.miss_index,
            p.shadow_miss_index,
            p.hit_group_index,
            p.shadow_hit_group_index,
        ];
        assert(slots@ =~= sbt_slots(self.pipeline));
        let layout = sbt_layout(self.handle_size, 1, 2, 2);
        let data = sbt_contents(handles, self.handle_size, &slots)?;
        Ok(ShaderBindingTable { layout, data })
    }
}

} // verus!
