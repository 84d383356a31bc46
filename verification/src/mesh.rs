//! The mesh as the triangulation engine hands it over.

use vstd::prelude::*;

verus! {

/// One vertex of the surface: its position and the surface normal there,
/// each as three components in the order x, y, z.
#[derive(Debug)]
pub struct Vertex<T> {
    pub pos: [T; 3],
    pub norm: [T; 3],
}

/// One triangle: three indices into the vertex list, in winding order.
#[derive(Clone, Copy, Debug)]
pub struct Triangle {
    pub verts: [u32; 3],
}

/// An indexed triangle mesh over scalars of type `T`.
///
/// `T` is the width in which the host reads coordinates. A mesh computed in
/// a wider type is narrowed, component by component, before it is put here.
#[derive(Debug)]
pub struct Mesh<T> {
    pub verts: Vec<Vertex<T>>,
    pub triangles: Vec<Triangle>,
}

/// Every corner of every triangle in `triangles` names one of the first
/// `vert_count` vertices.
pub open spec fn corners_in_range(triangles: Seq<Triangle>, vert_count: int) -> bool {
    forall|t: int, c: int|
        0 <= t < triangles.len() && 0 <= c < 3 ==> (#[trigger] triangles[t].verts[c]) < vert_count
}

impl<T> Mesh<T> {
    /// The triangles refer only to vertices that the mesh holds.
    pub open spec fn indices_in_range(&self) -> bool {
        corners_in_range(self.triangles@, self.verts@.len() as int)
    }
}

} // verus!
