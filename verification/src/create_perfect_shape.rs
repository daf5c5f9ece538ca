//! The generator of disk shapes: a ring of vertices and the triangle fan over
//! it.

use crate::scalar::ZERO;
use crate::vertex::Vertex;
use vstd::prelude::*;

verus! {

/// The largest number of vertices that a mesh can have: an index is kept in
/// 16 bits, and every vertex has to have one.
pub const INDEX_LIMIT: u32 = 0x1_0000;

/// Entry `j` of a fan's index list. Triangle `j / 3` joins vertex 0 to the
/// vertices `j / 3 + 1` and `j / 3 + 2`.
pub open spec fn fan_index(j: int) -> int {
    if j % 3 == 0 {
        0
    } else if j % 3 == 1 {
        j / 3 + 1
    } else {
        j / 3 + 2
    }
}

/// The index list of the triangle fan over `n` vertices, for an `n` from 3 to
/// `INDEX_LIMIT`: `n - 2` triangles, all of which share vertex 0.
pub open spec fn fan_indices(n: nat) -> Seq<u16> {
    Seq::new((3 * (n - 2)) as nat, |j: int| fan_index(j) as u16)
}

/// `vertex` is corner `k` of a ring of `n` vertices: `place` put it there as
/// step `k + 1` of `n`, in the plane, and it has the ring's colour.
pub open spec fn is_corner<F: Fn(u32, u32) -> (u32, u32)>(
    place: &F,
    n: u32,
    color: [u32; 3],
    k: int,
    vertex: Vertex,
) -> bool {
    &&& call_ensures(*place, ((k + 1) as u32, n), (vertex.position[0], vertex.position[1]))
    &&& vertex.position[2] == ZERO
    &&& vertex.color == color
}

/// `vertices` is the ring of `n` vertices that `place` lays out. The steps are
/// counted from 1, so the first vertex is one step away from angle zero and the
/// last one closes the circle.
pub open spec fn is_ring<F: Fn(u32, u32) -> (u32, u32)>(
    place: &F,
    n: u32,
    color: [u32; 3],
    vertices: Seq<Vertex>,
) -> bool {
    &&& vertices.len() == n
    &&& forall|k: int| 0 <= k < n ==> is_corner(place, n, color, k, #[trigger] vertices[k])
}

/// `place` gives one answer to each question.
pub open spec fn is_function<F: Fn(u32, u32) -> (u32, u32)>(place: &F) -> bool {
    forall|i: u32, n: u32, a: (u32, u32), b: (u32, u32)|
        call_ensures(*place, (i, n), a) && call_ensures(*place, (i, n), b) ==> a == b
}

/// The generator of disk shapes.
pub struct CreatePerfectShape;

impl CreatePerfectShape {
    /// Generates a disk of `num_vertices` corners in one colour: the ring of
    /// vertices, and the indices of the triangles that fill it.
    ///
    /// `place(i, n)` is asked for the plane coordinates of step `i` of `n` on
    /// the circle, once for each `i` from 1 to `num_vertices`, in that order.
    /// The triangles fan out from the first vertex of the ring, not from the
    /// centre of the disk.
    ///
    /// A shape has at least three corners, and no more than can be told apart
    /// by a 16-bit index.
    pub fn create_shape_optimized<F: Fn(u32, u32) -> (u32, u32)>(
        num_vertices: u32,
        color: [u32; 3],
        place: &F,
    ) -> (shape: (Vec<Vertex>, Vec<u16>))
        requires
            3 <= num_vertices <= INDEX_LIMIT,
            forall|i: u32| 1 <= i <= num_vertices ==> call_requires(*place, (i, num_vertices)),
        ensures
            is_ring(place, num_vertices, color, shape.0@),
            shape.1@ == fan_indices(num_vertices as nat),
    {
        let mut vertices: Vec<Vertex> = Vec::new();
        let mut k: u32 = 0;
        while k < num_vertices
            invariant
                k <= num_vertices,
                vertices@.len() == k,
                forall|i: u32| 1 <= i <= num_vertices ==> call_requires(*place, (i, num_vertices)),
                forall|j: int|
                    0 <= j < k ==> is_corner(
                        place,
                        num_vertices,
                        color,
                        j,
                        #[trigger] vertices@[j],
                    ),
            decreases num_vertices - k,
        {
            let (x, y) = place(k + 1, num_vertices);
            vertices.push(Vertex { position: [x, y, ZERO], color });
            k = k + 1;
        }
        let mut indices: Vec<u16> = Vec::new();
        let mut i: u32 = 1;
        while i < num_vertices - 1
            invariant
                3 <= num_vertices <= INDEX_LIMIT,
                1 <= i <= num_vertices - 1,
                indices@.len() == 3 * (i - 1),
                forall|j: int| 0 <= j < indices@.len() ==> indices@[j] == fan_index(j),
            decreases num_vertices - i,
        {
            indices.push(0);
            indices.push(i as u16);
            indices.push((i + 1) as u16);
            i = i + 1;
        }
        assert(indices@ =~= fan_indices(num_vertices as nat));
        (vertices, indices)
    }
}

/// Generation is a function of the vertex count and the colour: where `place`
/// gives one answer to each question, any two rings generated for the same
/// count and colour are the same, vertex for vertex. The index list is
/// `fan_indices` of the count, whatever `place` does.
pub proof fn lemma_generation_is_a_function<F: Fn(u32, u32) -> (u32, u32)>(
    place: &F,
    n: u32,
    color: [u32; 3],
    first: Seq<Vertex>,
    second: Seq<Vertex>,
)
    requires
        is_function(place),
        is_ring(place, n, color, first),
        is_ring(place, n, color, second),
    ensures
        first == second,
{
    assert forall|k: int| 0 <= k < n implies first[k] == second[k] by {
        assert(is_corner(place, n, color, k, first[k]));
        assert(is_corner(place, n, color, k, second[k]));
        assert(first[k].position =~= second[k].position);
    }
    assert(first =~= second);
}

/// In every generated mesh, triangle `t` is (0, `t` + 1, `t` + 2), for every
/// `t` from 0 to `n - 3`, and there are no other triangles.
pub proof fn lemma_fan_topology(n: nat, t: int)
    requires
        3 <= n <= INDEX_LIMIT,
        0 <= t < n - 2,
    ensures
        fan_indices(n).len() == 3 * (n - 2),
        fan_indices(n)[3 * t] == 0,
        fan_indices(n)[3 * t + 1] == t + 1,
        fan_indices(n)[3 * t + 2] == t + 2,
{
}

/// No index of a generated mesh exceeds `n - 1`: each names a vertex.
pub proof fn lemma_fan_in_bounds(n: nat, j: int)
    requires
        3 <= n <= INDEX_LIMIT,
        0 <= j < 3 * (n - 2),
    ensures
        fan_indices(n)[j] <= n - 1,
{
}

} // verus!
