//! The transfer descriptor: the buffers of one mesh together with the counts
//! by which the host reads them and by which they are reclaimed.

use vstd::prelude::*;
use crate::flatten::{indices_below, lemma_flat_indices_in_range, FlatMesh, FlatMeshView};
use crate::mesh::{corners_in_range, Triangle, Vertex};

verus! {

/// What a `MeshSlice` holds: the three buffers and the two recorded counts.
pub struct MeshSliceView<T> {
    pub verts: Seq<T>,
    pub normals: Seq<T>,
    pub tris: Seq<u32>,
    pub vert_count: nat,
    pub tri_count: nat,
}

impl<T> MeshSliceView<T> {
    /// The descriptor of the buffers `flat`.
    pub open spec fn of(flat: FlatMeshView<T>) -> Self {
        MeshSliceView {
            verts: flat.positions,
            normals: flat.normals,
            tris: flat.indices,
            vert_count: flat.vert_count(),
            tri_count: flat.tri_count(),
        }
    }

    /// The counts are exact: three entries of each vertex buffer per vertex,
    /// three entries of the index buffer per triangle.
    pub open spec fn wf(&self) -> bool {
        &&& self.verts.len() == 3 * self.vert_count
        &&& self.normals.len() == 3 * self.vert_count
        &&& self.tris.len() == 3 * self.tri_count
    }

    /// No index points past the recorded vertex count.
    pub open spec fn indices_in_range(&self) -> bool {
        indices_below(self.tris, self.vert_count as int)
    }

    /// The vertices as a reader finds them who walks the two vertex buffers
    /// by the recorded vertex count.
    pub open spec fn read_vertices(&self) -> Seq<Vertex<T>> {
        Seq::new(
            self.vert_count,
            |v: int|
                Vertex {
                    pos: [self.verts[3 * v], self.verts[3 * v + 1], self.verts[3 * v + 2]],
                    norm: [self.normals[3 * v], self.normals[3 * v + 1], self.normals[3 * v + 2]],
                },
        )
    }

    /// The triangles as a reader finds them who walks the index buffer by the
    /// recorded triangle count.
    pub open spec fn read_triangles(&self) -> Seq<Triangle> {
        Seq::new(
            self.tri_count,
            |t: int|
                Triangle { verts: [self.tris[3 * t], self.tris[3 * t + 1], self.tris[3 * t + 2]] },
        )
    }
}

/// The lengths, in entries, by which the buffers behind a descriptor with
/// these counts are reclaimed: positions, normals, indices. There are none
/// where a length would not fit the machine's word.
pub open spec fn release_lengths_of(vert_count: nat, tri_count: nat) -> Option<(nat, nat, nat)> {
    if 3 * vert_count <= usize::MAX && 3 * tri_count <= usize::MAX {
        Some((3 * vert_count, 3 * vert_count, 3 * tri_count))
    } else {
        None
    }
}

/// The buffers of one mesh and the counts recorded for the host.
///
/// A value of this type is always exact: each vertex buffer holds three
/// entries per counted vertex and the index buffer three per counted
/// triangle.
#[derive(Debug)]
pub struct MeshSlice<T> {
    verts: Vec<T>,
    normals: Vec<T>,
    tris: Vec<u32>,
    vert_count: usize,
    tri_count: usize,
}

impl<T> View for MeshSlice<T> {
    type V = MeshSliceView<T>;

    closed spec fn view(&self) -> MeshSliceView<T> {
        MeshSliceView {
            verts: self.verts@,
            normals: self.normals@,
            tris: self.tris@,
            vert_count: self.vert_count as nat,
            tri_count: self.tri_count as nat,
        }
    }
}

impl<T> MeshSlice<T> {
    #[verifier::type_invariant]
    spec fn exact_counts(&self) -> bool {
        self@.wf()
    }

    /// Takes the buffers over and records their counts. Nothing is copied.
    pub fn new(flat: FlatMesh<T>) -> (slice: Self)
        ensures
            slice@ == MeshSliceView::of(flat@),
            slice@.wf(),
    {
        let (verts, normals, tris) = flat.into_buffers();
        let vert_count: usize = verts.len() / 3;
        let tri_count: usize = tris.len() / 3;
        MeshSlice { verts, normals, tris, vert_count, tri_count }
    }

    /// The recorded number of vertices.
    pub fn vert_count(&self) -> (count: usize)
        ensures
            count == self@.vert_count,
            self@.wf(),
    {
        proof {
            use_type_invariant(self);
        }
        self.vert_count
    }

    /// The recorded number of triangles.
    pub fn tri_count(&self) -> (count: usize)
        ensures
            count == self@.tri_count,
            self@.wf(),
    {
        proof {
            use_type_invariant(self);
        }
        self.tri_count
    }

    /// The position buffer.
    pub fn verts(&self) -> (verts: &Vec<T>)
        ensures
            verts@ == self@.verts,
            self@.wf(),
    {
        proof {
            use_type_invariant(self);
        }
        &self.verts
    }

    /// The normal buffer.
    pub fn normals(&self) -> (normals: &Vec<T>)
        ensures
            normals@ == self@.normals,
            self@.wf(),
    {
        proof {
            use_type_invariant(self);
        }
        &self.normals
    }

    /// The index buffer.
    pub fn tris(&self) -> (tris: &Vec<u32>)
        ensures
            tris@ == self@.tris,
            self@.wf(),
    {
        proof {
            use_type_invariant(self);
        }
        &self.tris
    }

    /// Takes the descriptor apart: positions, normals, indices, vertex count,
    /// triangle count.
    pub fn into_parts(self) -> (parts: (Vec<T>, Vec<T>, Vec<u32>, usize, usize))
        ensures
            parts.0@ == self@.verts,
            parts.1@ == self@.normals,
            parts.2@ == self@.tris,
            parts.3 == self@.vert_count,
            parts.4 == self@.tri_count,
            self@.wf(),
    {
        proof {
            use_type_invariant(&self);
        }
        (self.verts, self.normals, self.tris, self.vert_count, self.tri_count)
    }
}

/// The lengths by which the three buffers behind a descriptor are reclaimed,
/// from the counts that the descriptor records: three entries per vertex for
/// positions and for normals, three per triangle for indices.
///
/// Counts that no descriptor can record, because a length would not fit the
/// machine's word, give `None`.
pub fn release_lengths(vert_count: usize, tri_count: usize) -> (lengths: Option<
    (usize, usize, usize),
>)
    ensures
        match release_lengths_of(vert_count as nat, tri_count as nat) {
            Some(l) => lengths == Some((l.0 as usize, l.1 as usize, l.2 as usize)),
            None => lengths is None,
        },
{
    match (vert_count.checked_mul(3), tri_count.checked_mul(3)) {
        (Some(vertex_entries), Some(index_entries)) => Some(
            (vertex_entries, vertex_entries, index_entries),
        ),
        _ => None,
    }
}

/// A mesh whose triangles stay within its vertices has a descriptor that is
/// exact and whose indices stay within the recorded vertex count.
pub proof fn lemma_descriptor_of_mesh<T>(verts: Seq<Vertex<T>>, triangles: Seq<Triangle>)
    ensures
        ({
            let d = MeshSliceView::of(FlatMeshView::of(verts, triangles));
            &&& d.wf()
            &&& d.vert_count == verts.len()
            &&& d.tri_count == triangles.len()
            &&& d.verts.len() == 3 * d.vert_count
            &&& d.normals.len() == 3 * d.vert_count
            &&& d.tris.len() == 3 * d.tri_count
            &&& d.indices_in_range() <==> corners_in_range(triangles, verts.len() as int)
        }),
{
    lemma_flat_indices_in_range(triangles, verts.len() as int);
}

/// Reading a descriptor's buffers back by its recorded counts gives the
/// vertices and triangles that were flattened, in their order.
pub proof fn lemma_round_trip<T>(verts: Seq<Vertex<T>>, triangles: Seq<Triangle>)
    ensures
        MeshSliceView::of(FlatMeshView::of(verts, triangles)).read_vertices() == verts,
        MeshSliceView::of(FlatMeshView::of(verts, triangles)).read_triangles() == triangles,
{
    let d = MeshSliceView::of(FlatMeshView::of(verts, triangles));
    let vs = d.read_vertices();
    assert forall|v: int| 0 <= v < verts.len() implies vs[v] == verts[v] by {
        assert(vs[v].pos =~= verts[v].pos);
        assert(vs[v].norm =~= verts[v].norm);
    }
    assert(vs =~= verts);
    let ts = d.read_triangles();
    assert forall|t: int| 0 <= t < triangles.len() implies ts[t] == triangles[t] by {
        assert(ts[t].verts =~= triangles[t].verts);
    }
    assert(ts =~= triangles);
}

/// The lengths by which an exact descriptor's buffers are reclaimed are the
/// lengths that the buffers have.
pub proof fn lemma_release_lengths_exact<T>(d: MeshSliceView<T>)
    requires
        d.wf(),
        d.verts.len() <= usize::MAX,
        d.tris.len() <= usize::MAX,
    ensures
        release_lengths_of(d.vert_count, d.tri_count) == Some(
            (d.verts.len(), d.normals.len(), d.tris.len()),
        ),
{
}

} // verus!
