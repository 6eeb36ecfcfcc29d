//! The mesh: how a vertex is laid out and how vertices are put together
//! from the arrays of a loaded model.
//!
//! Coordinates are IEEE 754 single-precision numbers, carried as their bit
//! patterns.

use vstd::prelude::*;

verus! {

/// Bytes from one vertex to the next in a vertex buffer.
pub const VERTEX_STRIDE: usize = 32;

/// Bytes from one vertex to the next, as the pipeline counts them.
pub const VERTEX_STRIDE_BYTES: u32 = 32;

/// Alignment of the vertices in staging memory.
pub const VERTEX_ALIGNMENT: usize = 4;

/// Bytes of one index.
pub const INDEX_SIZE: usize = 4;

/// Alignment of the indices in staging memory.
pub const INDEX_ALIGNMENT: usize = 2;

/// Byte offset of the position within a vertex.
pub const POSITION_OFFSET: u32 = 0;

/// Byte offset of the color within a vertex.
pub const COLOR_OFFSET: u32 = 12;

/// Byte offset of the texture coordinate within a vertex.
pub const COORDS_OFFSET: u32 = 24;

/// The number one as a single-precision bit pattern.
pub const ONE: u32 = 0x3f80_0000;

/// A vertex: position, color and texture coordinate.
#[derive(Clone, Copy, Debug, PartialEq, Eq)]
pub struct Vertex {
    pub pos: (u32, u32, u32),
    pub color: (u32, u32, u32),
    pub coords: (u32, u32),
}

/// Vertex `i` of a model with flat positions and texture coordinates: three
/// positions and two coordinates each, colored white.
pub open spec fn vertex_at(positions: Seq<u32>, coords: Seq<u32>, i: int) -> Vertex {
    Vertex {
        pos: (positions[3 * i], positions[3 * i + 1], positions[3 * i + 2]),
        color: (ONE, ONE, ONE),
        coords: (coords[2 * i], coords[2 * i + 1]),
    }
}

/// The vertices of a model with flat positions and texture coordinates.
pub open spec fn vertices_of(positions: Seq<u32>, coords: Seq<u32>) -> Seq<Vertex> {
    Seq::new((positions.len() / 3) as nat, |i: int| vertex_at(positions, coords, i))
}

/// Puts the vertices of a loaded model together. Positions beyond the last
/// full triple are ignored. The indices pass through unchanged.
pub fn load_model(positions: &Vec<u32>, coords: &Vec<u32>, indices: Vec<u32>) -> (r: (
    Vec<Vertex>,
    Vec<u32>,
))
    requires
        2 * (positions@.len() / 3) <= coords@.len(),
    ensures
        r.0@ == vertices_of(positions@, coords@),
        r.1 == indices,
{
    let total = positions.len();
    let vertex_count = total / 3;
    let mut vertices: Vec<Vertex> = Vec::with_capacity(vertex_count);
    let mut i: usize = 0;
    while i < vertex_count
        invariant
            i <= vertex_count,
            total == positions@.len(),
            vertex_count == total / 3,
            2 * vertex_count <= coords@.len(),
            vertices@ == Seq::new(i as nat, |k: int| vertex_at(positions@, coords@, k)),
        decreases vertex_count - i,
    {
        let vertex = Vertex {
            pos: (positions[i * 3], positions[i * 3 + 1], positions[i * 3 + 2]),
            color: (ONE, ONE, ONE),
            coords: (coords[i * 2], coords[i * 2 + 1]),
        };
        vertices.push(vertex);
        assert(vertices@ =~= Seq::new((i + 1) as nat, |k: int| vertex_at(positions@, coords@, k)));
        i += 1;
    }
    (vertices, indices)
}

} // verus!
