//! Hands a triangulated surface to a foreign host as three flat buffers.
//!
//! The mesh that a triangulation engine produces is a list of vertex records
//! and a list of triangle records. A host on the far side of a C boundary
//! wants three contiguous arrays instead: positions, normals and indices.
//! This crate holds the part of that hand-over that can be stated and proved:
//! the layout of the buffers, the counts recorded beside them, the lengths by
//! which they are later reclaimed, and the rule that a failed load publishes
//! nothing.

pub mod mesh;
pub mod flatten;
pub mod descriptor;
pub mod boundary;
