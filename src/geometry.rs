//! A mesh on the device: the buffers its vertices, indices and materials
//! are uploaded into, and the ranges of them its geometry reads.
use vstd::prelude::*;

use crate::acceleration_structure::le_words;
use crate::errors::VulkanError;
use crate::memory::{
    create_info_of, plan_buffer_upload, staged_upload_of, BufferBuilder, BufferCreateInfo, BufferType,
    StagedUpload,
};

verus! {

/// The vertex and index ranges of a mesh within its buffers.
#[derive(Clone, Copy, Debug, PartialEq, Eq, Structural)]
pub struct GeometryLayout {
    pub vertex_count: u32,
    pub vertex_offset: u32,
    pub vertex_size: u32,
    pub index_count: u32,
    pub index_offset: u32,
}

/// How a mesh reaches the device: vertices and indices through staging
/// buffers into device-local buffers, materials written straight into a
/// host-visible storage buffer.
#[derive(Clone, Debug)]
pub struct GeometryUpload {
    pub vertex: StagedUpload,
    pub index: StagedUpload,
    /// The index buffer's bytes: each index as four little-endian bytes.
    pub index_data: Vec<u8>,
    pub material: BufferCreateInfo,
    pub layout: GeometryLayout,
}

/// Collects the raw vertex bytes (with their number of vertices), the
/// indices and the raw material bytes of one mesh.
#[derive(Clone, Debug)]
pub struct GeometryInstanceBuilder {
    pub vertices: Option<Vec<u8>>,
    pub vertices_count: usize,
    pub indices: Option<Vec<u32>>,
    pub materials: Option<Vec<u8>>,
}

/// The four-byte little-endian encoding of every index, in order.
pub fn index_bytes(indices: &Vec<u32>) -> (r: Vec<u8>)
    ensures
        r@ == le_words(indices@),
{
    let mut out: Vec<u8> = Vec::new();
    let mut i: usize = 0;
    while i < indices.len()
        invariant
            i <= indices.len(),
            out@ == le_words(indices@.subrange(0, i as int)),
        decreases indices.len() - i,
    {
        let x = indices[i];
        out.push((x & 0xff) as u8);
        out.push(((x >> 8u32) & 0xff) as u8);
        out.push(((x >> 16u32) & 0xff) as u8);
        out.push(((x >> 24u32) & 0xff) as u8);
        assert(indices@.subrange(0, i + 1).drop_last() =~= indices@.subrange(0, i as int));
        assert(out@ =~= le_words(indices@.subrange(0, i + 1)));
        i = i + 1;
    }
    assert(indices@.subrange(0, i as int) =~= indices@);
    out
}

impl GeometryInstanceBuilder {
    pub fn new() -> (r: GeometryInstanceBuilder)
        ensures
            r.vertices is None,
            r.vertices_count == 0,
            r.indices is None,
            r.materials is None,
    {
        GeometryInstanceBuilder { vertices: None, vertices_count: 0, indices: None, materials: None }
    }

    pub fn with_vertices(self, vertices: Vec<u8>, vertices_count: usize) -> (r: Self)
        ensures
            r.vertices == Some(vertices),
            r.vertices_count == vertices_count,
            r.indices == self.indices,
            r.materials == self.materials,
    {
        GeometryInstanceBuilder { vertices: Some(vertices), vertices_count, ..self }
    }

    pub fn with_indices(self, indices: Vec<u32>) -> (r: Self)
        ensures
            r.vertices == self.vertices,
            r.vertices_count == self.vertices_count,
            r.indices == Some(indices),
            r.materials == self.materials,
    {
        GeometryInstanceBuilder { indices: Some(indices), ..self }
    }

    pub fn with_materials(self, materials: Vec<u8>) -> (r: Self)
        ensures
            r.vertices == self.vertices,
            r.vertices_count == self.vertices_count,
            r.indices == self.indices,
            r.materials == Some(materials),
    {
        GeometryInstanceBuilder { materials: Some(materials), ..self }
    }

    /// The inputs are complete and their counts fit the device's 32-bit
    /// fields.
    pub open spec fn complete(&self) -> bool {
        &&& self.vertices matches Some(v) && v.len() as int / (self.vertices_count as int) <= u32::MAX
        &&& self.vertices_count > 0
        &&& self.vertices_count <= u32::MAX
        &&& self.indices matches Some(ix) && ix.len() <= u32::MAX
        &&& self.materials is Some
    }

    /// Plans the mesh's buffers; the vertex stride is the vertex bytes
    /// divided by the number of vertices, and the ranges start at offset 0.
    /// Fails when vertices, indices or materials are missing, when there are
    /// no vertices, or when a count exceeds 32 bits.
    pub fn build(&self) -> (r: Result<GeometryUpload, VulkanError>)
        ensures
            r is Ok <==> self.complete(),
            r matches Err(e) ==> e is VertexBufferCreationError,
            r matches Ok(g) ==> {
                let v = self.vertices->0;
                let ix = self.indices->0;
                &&& g.layout == (GeometryLayout {
                    vertex_count: self.vertices_count as u32,
                    vertex_offset: 0,
                    vertex_size: (v.len() as int / (self.vertices_count as int)) as u32,
                    index_count: ix.len() as u32,
                    index_offset: 0,
                })
                &&& g.vertex == staged_upload_of(BufferType::Vertex, v.len() as u64)
                &&& g.index == staged_upload_of(BufferType::Index, (4 * ix.len()) as u64)
                &&& g.index_data@ == le_words(ix@)
                &&& g.material == create_info_of(
                    BufferType::Storage,
                    self.materials->0.len() as u64,
                )
            },
    {
        let vertices = match &self.vertices {
            Some(v) => v,
            None => {
                return Err(VulkanError::VertexBufferCreationError("missing vertices".to_string()));
            },
        };
        let indices = match &self.indices {
            Some(ix) => ix,
            None => {
                return Err(VulkanError::VertexBufferCreationError("missing indices".to_string()));
            },
        };
        let materials = match &self.materials {
            Some(m) => m,
            None => {
                return Err(VulkanError::VertexBufferCreationError("missing materials".to_string()));
            },
        };
        if self.vertices_count == 0 || self.vertices_count > u32::MAX as usize {
            return Err(VulkanError::VertexBufferCreationError("bad vertex count".to_string()));
        }
        if indices.len() > u32::MAX as usize {
            return Err(VulkanError::VertexBufferCreationError("too many indices".to_string()));
        }
        let vertex_size = vertices.len() / self.vertices_count;
        if vertex_size > u32::MAX as usize {
            return Err(VulkanError::VertexBufferCreationError("vertex too large".to_string()));
        }
        let layout = GeometryLayout {
            vertex_count: self.vertices_count as u32,
            vertex_offset: 0,
            vertex_size: vertex_size as u32,
            index_count: indices.len() as u32,
            index_offset: 0,
        };
        let vertex = plan_buffer_upload(BufferType::Vertex, vertices.len() as u64);
        let index = plan_buffer_upload(BufferType::Index, indices.len() as u64 * 4);
        let material = BufferBuilder::new().with_type(BufferType::Storage).with_size(
            materials.len() as u64,
        ).create_info();
        let index_data = index_bytes(indices);
        Ok(GeometryUpload { vertex, index, index_data, material, layout })
    }
}

} // verus!
