//! Flattening: structured records into parallel arrays of primitive values.

use vstd::prelude::*;
use crate::mesh::{corners_in_range, Mesh, Triangle, Vertex};

verus! {

/// The position buffer of `verts`: three entries per vertex, vertex by
/// vertex, each vertex's components in the order x, y, z.
pub open spec fn flat_positions<T>(verts: Seq<Vertex<T>>) -> Seq<T> {
    Seq::new(3 * verts.len(), |i: int| verts[i / 3].pos[i % 3])
}

/// The normal buffer of `verts`, laid out as the position buffer is.
pub open spec fn flat_normals<T>(verts: Seq<Vertex<T>>) -> Seq<T> {
    Seq::new(3 * verts.len(), |i: int| verts[i / 3].norm[i % 3])
}

/// The index buffer of `triangles`: three entries per triangle, triangle by
/// triangle, each triangle's corners in winding order.
pub open spec fn flat_indices(triangles: Seq<Triangle>) -> Seq<u32> {
    Seq::new(3 * triangles.len(), |i: int| triangles[i / 3].verts[i % 3])
}

/// Every entry of `indices` is below `vert_count`.
pub open spec fn indices_below(indices: Seq<u32>, vert_count: int) -> bool {
    forall|i: int| 0 <= i < indices.len() ==> (#[trigger] indices[i]) < vert_count
}

/// What a `FlatMesh` holds, as three sequences.
pub struct FlatMeshView<T> {
    pub positions: Seq<T>,
    pub normals: Seq<T>,
    pub indices: Seq<u32>,
}

impl<T> FlatMeshView<T> {
    /// The buffers of `verts` and `triangles`.
    pub open spec fn of(verts: Seq<Vertex<T>>, triangles: Seq<Triangle>) -> Self {
        FlatMeshView {
            positions: flat_positions(verts),
            normals: flat_normals(verts),
            indices: flat_indices(triangles),
        }
    }

    /// Each buffer holds whole records, and the two vertex buffers agree on
    /// how many.
    pub open spec fn wf(&self) -> bool {
        &&& self.positions.len() % 3 == 0
        &&& self.normals.len() == self.positions.len()
        &&& self.indices.len() % 3 == 0
    }

    /// The number of vertices that the buffers hold.
    pub open spec fn vert_count(&self) -> nat {
        self.positions.len() / 3
    }

    /// The number of triangles that the buffers hold.
    pub open spec fn tri_count(&self) -> nat {
        self.indices.len() / 3
    }

    /// No index points past the vertices that the buffers hold.
    pub open spec fn indices_in_range(&self) -> bool {
        indices_below(self.indices, self.vert_count() as int)
    }
}

/// Three independently owned buffers that together hold one mesh.
///
/// A value of this type always holds whole records: the lengths of the
/// buffers are multiples of three and the vertex buffers are equally long.
#[derive(Debug)]
pub struct FlatMesh<T> {
    positions: Vec<T>,
    normals: Vec<T>,
    indices: Vec<u32>,
}

impl<T> View for FlatMesh<T> {
    type V = FlatMeshView<T>;

    closed spec fn view(&self) -> FlatMeshView<T> {
        FlatMeshView {
            positions: self.positions@,
            normals: self.normals@,
            indices: self.indices@,
        }
    }
}

/// An empty buffer with room for three entries per record, where that many
/// can be counted at all.
fn buffer_for<T>(records: usize) -> (buffer: Vec<T>)
    ensures
        buffer@ == Seq::<T>::empty(),
{
    match records.checked_mul(3) {
        Some(len) => Vec::with_capacity(len),
        None => Vec::new(),
    }
}

fn flatten_vertices<T: Copy>(verts: &Vec<Vertex<T>>) -> (buffers: (Vec<T>, Vec<T>))
    ensures
        buffers.0@ == flat_positions(verts@),
        buffers.1@ == flat_normals(verts@),
{
    let n: usize = verts.len();
    let mut positions: Vec<T> = buffer_for(n);
    let mut normals: Vec<T> = buffer_for(n);
    let mut v: usize = 0;
    while v < n
        invariant
            n == verts@.len(),
            v <= n,
            positions@ == flat_positions(verts@.take(v as int)),
            normals@ == flat_normals(verts@.take(v as int)),
        decreases n - v,
    {
        let vertex = &verts[v];
        positions.push(vertex.pos[0]);
        positions.push(vertex.pos[1]);
        positions.push(vertex.pos[2]);
        normals.push(vertex.norm[0]);
        normals.push(vertex.norm[1]);
        normals.push(vertex.norm[2]);
        v = v + 1;
        assert(positions@ == flat_positions(verts@.take(v as int)));
        assert(normals@ == flat_normals(verts@.take(v as int)));
    }
    assert(verts@.take(n as int) == verts@);
    (positions, normals)
}

fn flatten_triangles(triangles: &Vec<Triangle>) -> (indices: Vec<u32>)
    ensures
        indices@ == flat_indices(triangles@),
{
    let n: usize = triangles.len();
    let mut indices: Vec<u32> = buffer_for(n);
    let mut t: usize = 0;
    while t < n
        invariant
            n == triangles@.len(),
            t <= n,
            indices@ == flat_indices(triangles@.take(t as int)),
        decreases n - t,
    {
        let triangle = &triangles[t];
        indices.push(triangle.verts[0]);
        indices.push(triangle.verts[1]);
        indices.push(triangle.verts[2]);
        t = t + 1;
        assert(indices@ == flat_indices(triangles@.take(t as int)));
    }
    assert(triangles@.take(n as int) == triangles@);
    indices
}

/// The index buffer stays within the vertices exactly when the triangles do.
pub proof fn lemma_flat_indices_in_range(triangles: Seq<Triangle>, vert_count: int)
    ensures
        indices_below(flat_indices(triangles), vert_count) <==> corners_in_range(
            triangles,
            vert_count,
        ),
{
    let flat = flat_indices(triangles);
    if corners_in_range(triangles, vert_count) {
        assert forall|i: int| 0 <= i < flat.len() implies (#[trigger] flat[i]) < vert_count by {
            assert(triangles[i / 3].verts[i % 3] < vert_count);
        }
    }
    if indices_below(flat, vert_count) {
        assert forall|t: int, c: int| 0 <= t < triangles.len() && 0 <= c < 3 implies (
        #[trigger] triangles[t].verts[c]) < vert_count by {
            let i = 3 * t + c;
            assert(i / 3 == t && i % 3 == c);
            assert(flat[i] < vert_count);
        }
    }
}

impl<T> FlatMesh<T> {
    #[verifier::type_invariant]
    spec fn whole_records(&self) -> bool {
        self@.wf()
    }

    /// The position buffer.
    pub fn positions(&self) -> (positions: &Vec<T>)
        ensures
            positions@ == self@.positions,
            self@.wf(),
    {
        proof {
            use_type_invariant(self);
        }
        &self.positions
    }

    /// The normal buffer.
    pub fn normals(&self) -> (normals: &Vec<T>)
        ensures
            normals@ == self@.normals,
            self@.wf(),
    {
        proof {
            use_type_invariant(self);
        }
        &self.normals
    }

    /// The index buffer.
    pub fn indices(&self) -> (indices: &Vec<u32>)
        ensures
            indices@ == self@.indices,
            self@.wf(),
    {
        proof {
            use_type_invariant(self);
        }
        &self.indices
    }

    /// Gives the three buffers up: positions, normals, indices.
    pub fn into_buffers(self) -> (buffers: (Vec<T>, Vec<T>, Vec<u32>))
        ensures
            buffers.0@ == self@.positions,
            buffers.1@ == self@.normals,
            buffers.2@ == self@.indices,
            self@.wf(),
    {
        proof {
            use_type_invariant(&self);
        }
        (self.positions, self.normals, self.indices)
    }
}

/// Flattens `mesh` into its three buffers.
///
/// Vertex order, component order, triangle order and winding order are all
/// kept. The buffers are well formed whatever the mesh holds, and their
/// indices stay within the vertices exactly when those of the mesh do.
pub fn flatten<T: Copy>(mesh: &Mesh<T>) -> (flat: FlatMesh<T>)
    ensures
        flat@ == FlatMeshView::of(mesh.verts@, mesh.triangles@),
        flat@.wf(),
        flat@.vert_count() == mesh.verts@.len(),
        flat@.tri_count() == mesh.triangles@.len(),
        flat@.indices_in_range() <==> mesh.indices_in_range(),
{
    let (positions, normals) = flatten_vertices(&mesh.verts);
    let indices = flatten_triangles(&mesh.triangles);
    proof {
        lemma_flat_indices_in_range(mesh.triangles@, mesh.verts@.len() as int);
    }
    FlatMesh { positions, normals, indices }
}

} // verus!
