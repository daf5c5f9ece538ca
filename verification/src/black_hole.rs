//! The attractor: a black disk at the origin that pulls every particle and is
//! itself never moved.

use crate::create_perfect_shape::is_ring;
use crate::mesh::{Mesh, MeshView};
use crate::scalar::ZERO;
use vstd::prelude::*;

verus! {

/// The number of corners of the attractor's disk.
pub const BLACK_HOLE_VERTICES: u32 = 30;

/// The number of indices in the attractor's fan.
pub const BLACK_HOLE_INDICES: u32 = 84;

/// The attractor's colour: black.
pub open spec fn black() -> [u32; 3] {
    [ZERO, ZERO, ZERO]
}

/// The attractor's shape, built once and never changed.
pub struct BlackHole {
    mesh: Mesh<BLACK_HOLE_VERTICES>,
}

impl View for BlackHole {
    type V = MeshView;

    closed spec fn view(&self) -> MeshView {
        self.mesh@
    }
}

impl BlackHole {
    /// Builds the attractor: a black disk of thirty corners, laid out by
    /// `place`.
    pub fn new<F: Fn(u32, u32) -> (u32, u32)>(place: &F) -> (hole: BlackHole)
        requires
            forall|i: u32|
                1 <= i <= BLACK_HOLE_VERTICES ==> call_requires(*place, (i, BLACK_HOLE_VERTICES)),
        ensures
            is_ring(place, BLACK_HOLE_VERTICES, black(), hole@.vertices),
            hole@.is_consistent(),
    {
        BlackHole { mesh: Mesh::new([ZERO, ZERO, ZERO], place) }
    }

    /// The contents of the vertex buffer, the contents of the index buffer and
    /// the number of indices to draw.
    pub fn get_buffers(&self) -> (out: (&Vec<u8>, &Vec<u8>, u32))
        ensures
            out.0@ == self@.vertex_buffer,
            out.1@ == self@.index_buffer,
            out.2 == self@.num_indices,
            self@.is_consistent(),
            self@.vertices.len() == BLACK_HOLE_VERTICES,
            out.0@.len() == 24 * BLACK_HOLE_VERTICES,
            out.1@.len() == 2 * BLACK_HOLE_INDICES,
            out.2 == BLACK_HOLE_INDICES,
    {
        (self.mesh.vertex_buffer(), self.mesh.index_buffer(), self.mesh.num_indices())
    }
}

} // verus!
