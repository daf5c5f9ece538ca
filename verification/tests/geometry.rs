use particle_gravity::black_hole::{BlackHole, BLACK_HOLE_INDICES, BLACK_HOLE_VERTICES};
use particle_gravity::create_perfect_shape::{CreatePerfectShape, INDEX_LIMIT};
use particle_gravity::mesh::Mesh;
use particle_gravity::scalar::{ONE, ZERO};
use std::cell::RefCell;

/// Step `i` of `n` on the circle of radius 1/64.
fn on_circle(i: u32, n: u32) -> (u32, u32) {
    let angle = f32::to_radians(i as f32 * (90. / (n as f32 / 4.)));
    ((f32::cos(angle) / 64.0).to_bits(), (f32::sin(angle) / 64.0).to_bits())
}

fn close(bits: u32, expected: f32) -> bool {
    (f32::from_bits(bits) - expected).abs() < 1e-6
}

#[test]
fn square_has_four_corners_on_the_axes() {
    let (vertices, indices) = CreatePerfectShape::create_shape_optimized(4, [ONE, ZERO, ZERO], &on_circle);
    assert_eq!(vertices.len(), 4);
    let r = 1.0 / 64.0;
    let expected = [(0.0, r), (-r, 0.0), (0.0, -r), (r, 0.0)];
    for (vertex, (x, y)) in vertices.iter().zip(expected) {
        assert!(close(vertex.position[0], x));
        assert!(close(vertex.position[1], y));
        assert_eq!(vertex.position[2], ZERO);
        assert_eq!(vertex.color, [ONE, ZERO, ZERO]);
    }
    assert_eq!(indices, vec![0, 1, 2, 0, 2, 3]);
}

#[test]
fn first_vertex_is_one_step_past_angle_zero() {
    let (vertices, _) = CreatePerfectShape::create_shape_optimized(8, [ZERO, ZERO, ZERO], &on_circle);
    let r = 1.0f32 / 64.0;
    let diagonal = r * std::f32::consts::FRAC_1_SQRT_2;
    assert!(close(vertices[0].position[0], diagonal));
    assert!(close(vertices[0].position[1], diagonal));
    assert!(close(vertices[7].position[0], r));
    assert!(close(vertices[7].position[1], 0.0));
}

#[test]
fn place_is_asked_each_step_from_one_in_order() {
    let asked: RefCell<Vec<(u32, u32)>> = RefCell::new(Vec::new());
    let record = |i: u32, n: u32| {
        asked.borrow_mut().push((i, n));
        (i, 10 * i)
    };
    let (vertices, _) = CreatePerfectShape::create_shape_optimized(5, [7, 8, 9], &record);
    assert_eq!(*asked.borrow(), vec![(1, 5), (2, 5), (3, 5), (4, 5), (5, 5)]);
    for (k, vertex) in vertices.iter().enumerate() {
        let step = k as u32 + 1;
        assert_eq!(vertex.position, [step, 10 * step, ZERO]);
        assert_eq!(vertex.color, [7, 8, 9]);
    }
}

#[test]
fn triangle_is_the_smallest_shape() {
    let (vertices, indices) = CreatePerfectShape::create_shape_optimized(3, [ZERO, ZERO, ZERO], &on_circle);
    assert_eq!(vertices.len(), 3);
    assert_eq!(indices, vec![0, 1, 2]);
}

#[test]
fn generation_is_deterministic() {
    let first = CreatePerfectShape::create_shape_optimized(30, [ONE, ONE, ZERO], &on_circle);
    let second = CreatePerfectShape::create_shape_optimized(30, [ONE, ONE, ZERO], &on_circle);
    assert_eq!(first, second);
}

#[test]
fn every_triple_fans_out_from_vertex_zero() {
    for n in [3u32, 4, 8, 30, 100] {
        let (vertices, indices) = CreatePerfectShape::create_shape_optimized(n, [ZERO, ZERO, ZERO], &on_circle);
        assert_eq!(vertices.len(), n as usize);
        assert_eq!(indices.len(), 3 * (n as usize - 2));
        for (t, triple) in indices.chunks(3).enumerate() {
            assert_eq!(triple, [0, t as u16 + 1, t as u16 + 2]);
        }
        assert!(indices.iter().all(|&index| (index as u32) < n));
    }
}

#[test]
fn the_largest_shape_uses_every_index() {
    let flat = |_: u32, _: u32| (ZERO, ZERO);
    let (vertices, indices) = CreatePerfectShape::create_shape_optimized(INDEX_LIMIT, [ZERO, ZERO, ZERO], &flat);
    assert_eq!(INDEX_LIMIT, 65_536);
    assert_eq!(vertices.len(), 65_536);
    assert_eq!(indices.len(), 3 * 65_534);
    assert_eq!(indices[..3], [0, 1, 2]);
    assert_eq!(indices[3 * 65_533..], [0, 65_534, 65_535]);
    for (t, triple) in indices.chunks(3).enumerate() {
        assert_eq!(triple, [0, t as u16 + 1, t as u16 + 2]);
    }
}

#[test]
fn mesh_holds_the_generated_shape() {
    let mesh: Mesh<8> = Mesh::new([ONE, ZERO, ZERO], &on_circle);
    let (vertices, indices) = CreatePerfectShape::create_shape_optimized(8, [ONE, ZERO, ZERO], &on_circle);
    assert_eq!(*mesh.vertices(), vertices);
    assert_eq!(*mesh.indices(), indices);
    assert_eq!(mesh.num_indices(), 18);
    assert_eq!(mesh.vertex_buffer().len(), 8 * 24);
    assert_eq!(mesh.index_buffer().len(), 18 * 2);
}

#[test]
fn mesh_buffers_are_the_memory_of_its_lists() {
    let mesh: Mesh<5> = Mesh::new([4, 5, 6], &|i: u32, _: u32| (i, 0x0102_0304 * i));
    let mut vertex_bytes: Vec<u8> = Vec::new();
    for vertex in mesh.vertices() {
        for word in vertex.position.iter().chain(vertex.color.iter()) {
            vertex_bytes.extend_from_slice(&word.to_ne_bytes());
        }
    }
    assert_eq!(*mesh.vertex_buffer(), vertex_bytes);
    let mut index_bytes: Vec<u8> = Vec::new();
    for index in [0u16, 1, 2, 0, 2, 3, 0, 3, 4] {
        index_bytes.extend_from_slice(&index.to_ne_bytes());
    }
    assert_eq!(*mesh.index_buffer(), index_bytes);
}

#[test]
fn black_hole_is_a_black_disk_of_thirty_corners() {
    let hole = BlackHole::new(&on_circle);
    let (vertex_buffer, index_buffer, num_indices) = hole.get_buffers();
    assert_eq!(BLACK_HOLE_VERTICES, 30);
    assert_eq!(num_indices, 84);
    assert_eq!(num_indices, BLACK_HOLE_INDICES);
    assert_eq!(vertex_buffer.len(), 30 * 24);
    assert_eq!(index_buffer.len(), 84 * 2);
    let (vertices, indices) = CreatePerfectShape::create_shape_optimized(30, [ZERO, ZERO, ZERO], &on_circle);
    let mut vertex_bytes: Vec<u8> = Vec::new();
    for vertex in &vertices {
        assert_eq!(vertex.color, [0, 0, 0]);
        for word in vertex.position.iter().chain(vertex.color.iter()) {
            vertex_bytes.extend_from_slice(&word.to_ne_bytes());
        }
    }
    assert_eq!(*vertex_buffer, vertex_bytes);
    let index_bytes: Vec<u8> = indices.iter().flat_map(|index| index.to_ne_bytes()).collect();
    assert_eq!(*index_buffer, index_bytes);
}
