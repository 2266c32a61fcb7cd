//! Triangle meshes: vertex and index buffers consumed by the renderer.
//!
//! A mesh is immutable once built. Its invariant — indices come in
//! triples and every index names an existing vertex, and every
//! coordinate fits the fixed-point world bound — is established by the
//! validating constructor and relied on by every render call.

use vstd::prelude::*;

verus! {

use crate::math::Vec3x;

/// A vertex: a local-space position and a local-space normal. Producers
/// need not hand in unit normals; the renderer renormalizes.
#[derive(Clone, Copy, Debug)]
pub struct Vertex {
    /// Position in local model units.
    pub position: Vec3x,
    /// Normal direction associated with the vertex.
    pub normal: Vec3x,
}

impl Vertex {
    /// Both vectors within the coordinate bound.
    pub open spec fn wf(self) -> bool {
        self.position.wf() && self.normal.wf()
    }
}

/// Why a vertex/index buffer pair is not a valid mesh.
#[derive(Clone, Copy, Debug, PartialEq, Eq, Structural)]
pub enum MeshError {
    /// The index count is not a multiple of three.
    RaggedTriangles,
    /// Some index names no vertex.
    IndexOutOfBounds,
    /// Some vertex coordinate exceeds the world bound.
    CoordinateOutOfRange,
}

impl MeshError {
    /// A short description of the failure, for callers that report it.
    pub fn message(&self) -> (m: &'static str) {
        match self {
            MeshError::RaggedTriangles => "index count is not a multiple of three",
            MeshError::IndexOutOfBounds => "triangle index names no vertex",
            MeshError::CoordinateOutOfRange => "vertex coordinate out of range",
        }
    }
}

/// Every index names a vertex of the buffer.
pub open spec fn indices_ok_s(verts: Seq<Vertex>, idx: Seq<u32>) -> bool {
    forall|k: int| 0 <= k < idx.len() ==> (#[trigger] idx[k]) < verts.len()
}

/// Every vertex is within the coordinate bound.
pub open spec fn vertices_ok_s(verts: Seq<Vertex>) -> bool {
    forall|k: int| 0 <= k < verts.len() ==> (#[trigger] verts[k]).wf()
}

/// The mesh invariant over raw buffers: triangles are whole, indices are
/// in range, coordinates are representable.
pub open spec fn mesh_wf_s(verts: Seq<Vertex>, idx: Seq<u32>) -> bool {
    &&& idx.len() % 3 == 0
    &&& indices_ok_s(verts, idx)
    &&& vertices_ok_s(verts)
}

/// A triangle mesh: vertices plus indices consumed in consecutive
/// triples. May be shared read-only across many render calls.
#[derive(Debug)]
pub struct ObjMesh {
    /// The vertices, in local coordinates.
    pub vertices: Vec<Vertex>,
    /// Triangle indices, three per face.
    pub indices: Vec<u32>,
}

impl ObjMesh {
    /// The mesh invariant.
    pub open spec fn wf(self) -> bool {
        mesh_wf_s(self.vertices@, self.indices@)
    }

    /// The number of triangles.
    pub open spec fn tri_count(self) -> int {
        self.indices.len() as int / 3
    }

    /// Builds a mesh after validating the invariant. Returns the error
    /// for exactly the buffers that break it: a ragged index count
    /// first, then an out-of-range index, then an oversized coordinate.
    pub fn new(vertices: Vec<Vertex>, indices: Vec<u32>) -> (r: Result<ObjMesh, MeshError>)
        ensures
            r is Ok <==> mesh_wf_s(vertices@, indices@),
            r is Ok ==> r->Ok_0.vertices@ == vertices@ && r->Ok_0.indices@ == indices@,
            r == Err::<ObjMesh, MeshError>(MeshError::RaggedTriangles) <==> indices@.len() % 3
                != 0,
            r == Err::<ObjMesh, MeshError>(MeshError::IndexOutOfBounds) <==> indices@.len() % 3
                == 0 && !indices_ok_s(vertices@, indices@),
            r == Err::<ObjMesh, MeshError>(MeshError::CoordinateOutOfRange) <==> indices@.len() % 3
                == 0 && indices_ok_s(vertices@, indices@) && !vertices_ok_s(vertices@),
    {
        if indices.len() % 3 != 0 {
            return Err(MeshError::RaggedTriangles);
        }
        let vcount = vertices.len();
        let mut k: usize = 0;
        while k < indices.len()
            invariant
                k <= indices.len(),
                vcount == vertices.len(),
                indices.len() % 3 == 0,
                forall|j: int| 0 <= j < k ==> (#[trigger] indices@[j]) < vcount,
            decreases indices.len() - k,
        {
            if indices[k] as usize >= vcount {
                assert(!indices_ok_s(vertices@, indices@));
                return Err(MeshError::IndexOutOfBounds);
            }
            k = k + 1;
        }
        assert(indices_ok_s(vertices@, indices@));
        let mut v: usize = 0;
        while v < vertices.len()
            invariant
                v <= vertices.len(),
                indices.len() % 3 == 0,
                indices_ok_s(vertices@, indices@),
                forall|j: int| 0 <= j < v ==> (#[trigger] vertices@[j]).wf(),
            decreases vertices.len() - v,
        {
            if !vertices[v].position.is_wf() || !vertices[v].normal.is_wf() {
                assert(!vertices_ok_s(vertices@));
                return Err(MeshError::CoordinateOutOfRange);
            }
            v = v + 1;
        }
        assert(vertices_ok_s(vertices@));
        Ok(ObjMesh { vertices, indices })
    }
}

} // verus!
