//! A generated shape together with the contents of its two buffers.

use crate::bytes::{cast_halves, is_half_image, is_word_image};
use crate::create_perfect_shape::{fan_indices, is_ring, CreatePerfectShape, INDEX_LIMIT};
use crate::layout::RECORD_WORDS;
use crate::vertex::{buffer_contents, record_words, Vertex};
use vstd::prelude::*;

verus! {

/// What a [`Mesh`] holds.
pub struct MeshView {
    pub vertices: Seq<Vertex>,
    pub indices: Seq<u16>,
    pub vertex_buffer: Seq<u8>,
    pub index_buffer: Seq<u8>,
    pub num_indices: u32,
}

impl MeshView {
    /// The buffers and the count are those of the vertices: the indices are the
    /// fan over them, each buffer is the memory image of its list, and the
    /// count is the length of the index list.
    pub open spec fn is_consistent(self) -> bool {
        &&& 3 <= self.vertices.len() <= INDEX_LIMIT
        &&& self.indices == fan_indices(self.vertices.len())
        &&& is_word_image(self.vertex_buffer, record_words(self.vertices))
        &&& is_half_image(self.index_buffer, self.indices)
        &&& self.num_indices == self.indices.len()
    }
}

/// A triangle fan over a ring of `N` vertices, with the bytes of its vertex
/// buffer and of its index buffer. It does not change once it is built, and
/// what it holds is always consistent.
pub struct Mesh<const N: u32> {
    vertices: Vec<Vertex>,
    indices: Vec<u16>,
    vertex_buffer: Vec<u8>,
    index_buffer: Vec<u8>,
    num_indices: u32,
}

impl<const N: u32> View for Mesh<N> {
    type V = MeshView;

    closed spec fn view(&self) -> MeshView {
        MeshView {
            vertices: self.vertices@,
            indices: self.indices@,
            vertex_buffer: self.vertex_buffer@,
            index_buffer: self.index_buffer@,
            num_indices: self.num_indices,
        }
    }
}

impl<const N: u32> Mesh<N> {
    #[verifier::type_invariant]
    spec fn well_formed(self) -> bool {
        self@.is_consistent() && self@.vertices.len() == N
    }

    /// Generates the disk of `N` corners in one colour and lays out its
    /// buffers. `place` is asked as in
    /// [`CreatePerfectShape::create_shape_optimized`].
    pub fn new<F: Fn(u32, u32) -> (u32, u32)>(color: [u32; 3], place: &F) -> (mesh: Mesh<N>)
        requires
            3 <= N <= INDEX_LIMIT,
            forall|i: u32, n: u32| 1 <= i <= n && n == N ==> call_requires(*place, (i, n)),
        ensures
            is_ring(place, N, color, mesh@.vertices),
            mesh@.is_consistent(),
    {
        let (vertices, indices) = CreatePerfectShape::create_shape_optimized(N, color, place);
        let vertex_buffer = buffer_contents(&vertices);
        let index_buffer = cast_halves(&indices);
        let num_indices: u32 = 3 * (N - 2);
        Mesh { vertices, indices, vertex_buffer, index_buffer, num_indices }
    }

    /// The ring of vertices.
    pub fn vertices(&self) -> (out: &Vec<Vertex>)
        ensures
            self@.is_consistent(),
            out@ == self@.vertices,
            out@.len() == N,
    {
        proof {
            use_type_invariant(self);
        }
        &self.vertices
    }

    /// The indices of the triangles, three for each: the fan over the ring.
    /// Every index names a vertex of the ring.
    pub fn indices(&self) -> (out: &Vec<u16>)
        ensures
            self@.is_consistent(),
            self@.vertices.len() == N,
            out@ == self@.indices,
            out@ == fan_indices(N as nat),
            forall|j: int| 0 <= j < out@.len() ==> out@[j] < N,
    {
        proof {
            use_type_invariant(self);
        }
        &self.indices
    }

    /// The contents of the vertex buffer: the memory image of the vertices,
    /// one record of six words for each.
    pub fn vertex_buffer(&self) -> (out: &Vec<u8>)
        ensures
            self@.is_consistent(),
            self@.vertices.len() == N,
            out@ == self@.vertex_buffer,
            is_word_image(out@, record_words(self@.vertices)),
            out@.len() == 4 * RECORD_WORDS * N,
    {
        proof {
            use_type_invariant(self);
        }
        &self.vertex_buffer
    }

    /// The contents of the index buffer: the memory image of the indices, two
    /// bytes for each.
    pub fn index_buffer(&self) -> (out: &Vec<u8>)
        ensures
            self@.is_consistent(),
            self@.vertices.len() == N,
            out@ == self@.index_buffer,
            is_half_image(out@, self@.indices),
            out@.len() == 2 * self@.num_indices,
    {
        proof {
            use_type_invariant(self);
        }
        &self.index_buffer
    }

    /// The number of indices that a draw of this mesh reads: three for each of
    /// its triangles, of which there are two fewer than vertices.
    pub fn num_indices(&self) -> (out: u32)
        ensures
            self@.is_consistent(),
            self@.vertices.len() == N,
            out == self@.num_indices,
            out == self@.indices.len(),
            out == 3 * (N - 2),
    {
        proof {
            use_type_invariant(self);
        }
        self.num_indices
    }
}

} // verus!
