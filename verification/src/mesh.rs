use vstd::prelude::*;

verus! {

/// A mesh is a region descriptor into the renderer's global geometry arena:
/// how many indices to draw, where the first of them sits in the index
/// buffer, and the offset added to every index to reach the mesh's vertices
/// in the vertex buffer. Descriptors are plain values; cloning one lets two
/// entities share the same geometry.
#[derive(Clone, Copy, Debug, PartialEq, Eq, Structural)]
pub struct Mesh {
    pub index_count: u32,
    pub first_index: u32,
    pub vertex_offset: i32,
}

impl Mesh {
    pub fn new(index_count: u32, first_index: u32, vertex_offset: i32) -> (r: Self)
        ensures
            r.index_count == index_count,
            r.first_index == first_index,
            r.vertex_offset == vertex_offset,
    {
        Self { index_count, first_index, vertex_offset }
    }
}

} // verus!
