//! Meshes as the engine reads them, and the GPU resources of one model.

use vstd::prelude::*;

verus! {

/// What the engine reads of a mesh: its vertex count and its triangle-list
/// indices. (The vertex attributes travel to the GPU untouched.)
pub struct Mesh {
    vertex_count: usize,
    indices: Vec<u32>,
}

/// The mathematical content of a mesh.
pub struct MeshView {
    pub vertex_count: nat,
    pub indices: Seq<u32>,
}

/// Every index refers to a vertex of the mesh.
pub open spec fn indices_in_bounds(vertex_count: nat, indices: Seq<u32>) -> bool {
    forall|k: int| 0 <= k < indices.len() ==> (#[trigger] indices[k]) < vertex_count
}

#[derive(Clone, Copy, PartialEq, Eq, Structural, Debug)]
pub enum MeshError {
    /// The index at `position` names no vertex.
    IndexOutOfRange { position: usize, index: u32 },
    /// More indices than one indexed draw can take.
    TooManyIndices,
}

impl View for Mesh {
    type V = MeshView;

    closed spec fn view(&self) -> MeshView {
        MeshView { vertex_count: self.vertex_count as nat, indices: self.indices@ }
    }
}

impl Mesh {
    pub open spec fn wf(&self) -> bool {
        &&& indices_in_bounds(self@.vertex_count, self@.indices)
        &&& self@.indices.len() <= u32::MAX
    }

    /// A mesh of `vertex_count` vertices drawn through `indices`; refused
    /// when an index names no vertex (the first such is reported) or when
    /// there are more indices than a draw can take.
    pub fn new(vertex_count: usize, indices: Vec<u32>) -> (r: Result<Mesh, MeshError>)
        ensures
            match r {
                Ok(m) => m.wf() && m@.vertex_count == vertex_count && m@.indices == indices@,
                Err(MeshError::TooManyIndices) => indices@.len() > u32::MAX,
                Err(MeshError::IndexOutOfRange { position, index }) => {
                    &&& indices@.len() <= u32::MAX
                    &&& position < indices@.len()
                    &&& index == indices@[position as int]
                    &&& index >= vertex_count
                    &&& indices_in_bounds(vertex_count as nat, indices@.subrange(0, position as int))
                },
            },
            r is Ok <==> (indices_in_bounds(vertex_count as nat, indices@) && indices@.len() <= u32::MAX),
    {
        if indices.len() > 0xFFFF_FFFF {
            return Err(MeshError::TooManyIndices);
        }
        let mut k: usize = 0;
        while k < indices.len()
            invariant
                k <= indices@.len(),
                indices@.len() <= u32::MAX,
                indices_in_bounds(vertex_count as nat, indices@.subrange(0, k as int)),
            decreases indices@.len() - k,
        {
            let index = indices[k];
            if index as usize >= vertex_count {
                assert(!indices_in_bounds(vertex_count as nat, indices@)) by {
                    assert(indices@[k as int] >= vertex_count);
                }
                return Err(MeshError::IndexOutOfRange { position: k, index });
            }
            assert(indices@.subrange(0, k + 1) =~= indices@.subrange(0, k as int).push(index));
            k = k + 1;
        }
        assert(indices@.subrange(0, k as int) =~= indices@);
        Ok(Mesh { vertex_count, indices })
    }

    /// The quad that every shape of the scene uses: four corners, two
    /// triangles.
    pub fn quad() -> (r: Mesh)
        ensures
            r.wf(),
            r@.vertex_count == 4,
            r@.indices == seq![0u32, 1, 2, 2, 3, 0],
    {
        let indices: Vec<u32> = vec![0, 1, 2, 2, 3, 0];
        let r = Mesh { vertex_count: 4, indices };
        assert(r@.indices =~= seq![0u32, 1, 2, 2, 3, 0]);
        r
    }

    pub fn vertex_count(&self) -> (r: usize)
        ensures
            r == self@.vertex_count,
    {
        self.vertex_count
    }

    pub fn indices(&self) -> (r: &Vec<u32>)
        ensures
            r@ == self@.indices,
    {
        &self.indices
    }

    /// The number of indices, which one indexed draw takes.
    pub fn index_count(&self) -> (r: u32)
        requires
            self.wf(),
        ensures
            r == self@.indices.len(),
    {
        self.indices.len() as u32
    }
}

/// The GPU resources of one model, as raw handles: vertex and index buffers
/// with their memory, and per swapchain image a uniform buffer, its memory
/// and a descriptor set from the model's own pool.
#[derive(Debug)]
pub struct ModelBuffers {
    pub vertex_buffer: u64,
    pub vertex_buffer_memory: u64,
    pub index_buffer: u64,
    pub index_buffer_memory: u64,
    pub index_count: u32,
    pub uniform_buffers: Vec<u64>,
    pub uniform_buffers_memory: Vec<u64>,
    pub descriptor_pool: u64,
    pub descriptor_sets: Vec<u64>,
}

#[derive(Clone, Copy, PartialEq, Eq, Structural, Debug)]
pub enum ModelError {
    /// A per-image collection does not hold one entry per swapchain image.
    PerImageCountMismatch,
}

impl ModelBuffers {
    /// One uniform buffer, one memory block and one descriptor set per image.
    pub open spec fn wf(&self, image_count: nat) -> bool {
        &&& self.uniform_buffers@.len() == image_count
        &&& self.uniform_buffers_memory@.len() == image_count
        &&& self.descriptor_sets@.len() == image_count
    }

    /// Gathers the uploaded resources of `mesh`; refused unless each per-image
    /// collection holds exactly `image_count` entries.
    pub fn new(
        mesh: &Mesh,
        vertex_buffer: u64,
        vertex_buffer_memory: u64,
        index_buffer: u64,
        index_buffer_memory: u64,
        uniform_buffers: Vec<u64>,
        uniform_buffers_memory: Vec<u64>,
        descriptor_pool: u64,
        descriptor_sets: Vec<u64>,
        image_count: usize,
    ) -> (r: Result<ModelBuffers, ModelError>)
        requires
            mesh.wf(),
        ensures
            r is Ok <==> (uniform_buffers@.len() == image_count && uniform_buffers_memory@.len()
                == image_count && descriptor_sets@.len() == image_count),
            r matches Ok(m) ==> {
                &&& m.wf(image_count as nat)
                &&& m.index_count == mesh@.indices.len()
                &&& m.vertex_buffer == vertex_buffer
                &&& m.vertex_buffer_memory == vertex_buffer_memory
                &&& m.index_buffer == index_buffer
                &&& m.index_buffer_memory == index_buffer_memory
                &&& m.uniform_buffers@ == uniform_buffers@
                &&& m.uniform_buffers_memory@ == uniform_buffers_memory@
                &&& m.descriptor_pool == descriptor_pool
                &&& m.descriptor_sets@ == descriptor_sets@
            },
    {
        if uniform_buffers.len() != image_count || uniform_buffers_memory.len() != image_count
            || descriptor_sets.len() != image_count {
            return Err(ModelError::PerImageCountMismatch);
        }
        Ok(
            ModelBuffers {
                vertex_buffer,
                vertex_buffer_memory,
                index_buffer,
                index_buffer_memory,
                index_count: mesh.index_count(),
                uniform_buffers,
                uniform_buffers_memory,
                descriptor_pool,
                descriptor_sets,
            },
        )
    }
}

} // verus!
