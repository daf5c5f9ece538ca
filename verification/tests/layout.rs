use particle_gravity::instance::InstanceRaw;
use particle_gravity::layout::{record_layout, VertexAttribute, VertexFormat, VertexStepMode, RECORD_WORDS};
use particle_gravity::frame::Pipeline;
use particle_gravity::utils::{
    Blend, Face, FrontFace, PolygonMode, PrimitiveTopology, Utils, COLOR_WRITES_ALL,
};
use particle_gravity::vertex::{buffer_contents, flatten, Vertex};

#[test]
fn vertex_layout_is_position_then_colour() {
    let layout = Vertex::desc();
    assert_eq!(layout.array_stride, 24);
    assert_eq!(layout.step_mode, VertexStepMode::Vertex);
    assert_eq!(
        layout.attributes,
        vec![
            VertexAttribute { format: VertexFormat::Float32x3, offset: 0, shader_location: 0 },
            VertexAttribute { format: VertexFormat::Float32x3, offset: 12, shader_location: 1 },
        ]
    );
}

#[test]
fn instance_layout_steps_per_instance_at_its_own_locations() {
    let layout = InstanceRaw::desc();
    assert_eq!(layout.array_stride, 24);
    assert_eq!(layout.step_mode, VertexStepMode::Instance);
    assert_eq!(
        layout.attributes,
        vec![
            VertexAttribute { format: VertexFormat::Float32x3, offset: 0, shader_location: 3 },
            VertexAttribute { format: VertexFormat::Float32x3, offset: 12, shader_location: 4 },
        ]
    );
}

#[test]
fn record_layout_is_packed() {
    let layout = record_layout(VertexStepMode::Vertex, 9);
    assert_eq!(VertexFormat::Float32x3.size(), 12);
    let mut end = 0;
    for attribute in &layout.attributes {
        assert_eq!(attribute.offset, end);
        end += attribute.format.size();
    }
    assert_eq!(layout.array_stride, end);
    assert_eq!(layout.array_stride, 4 * RECORD_WORDS as u64);
    assert_eq!(layout.attributes[0].shader_location, 9);
    assert_eq!(layout.attributes[1].shader_location, 10);
}

#[test]
fn records_are_laid_out_one_after_the_other() {
    let vertices = vec![
        Vertex { position: [1, 2, 3], color: [4, 5, 6] },
        Vertex { position: [7, 8, 9], color: [10, 11, 12] },
    ];
    assert_eq!(flatten(&vertices), vec![1, 2, 3, 4, 5, 6, 7, 8, 9, 10, 11, 12]);
    assert_eq!(flatten(&Vec::<Vertex>::new()), Vec::<u32>::new());
}

#[test]
fn buffer_contents_are_the_memory_of_the_words() {
    let vertices = vec![Vertex { position: [0x3F80_0000, 0xBF00_0000, 0], color: [0x0102_0304, 5, 6] }];
    let bytes = buffer_contents(&vertices);
    assert_eq!(bytes.len(), 24);
    let mut expected: Vec<u8> = Vec::new();
    for word in [0x3F80_0000u32, 0xBF00_0000, 0, 0x0102_0304, 5, 6] {
        expected.extend_from_slice(&word.to_ne_bytes());
    }
    assert_eq!(bytes, expected);
    assert_eq!(&bytes[12..16], &0x0102_0304u32.to_ne_bytes());
    assert!(buffer_contents(&Vec::<InstanceRaw>::new()).is_empty());
}

#[test]
fn instance_pipeline_reads_the_shape_and_the_particles() {
    let descriptor = Pipeline::Instances.descriptor();
    assert_eq!(descriptor.shader_path, "./shaders/instance_shader.wgsl");
    assert_eq!(descriptor.buffers, vec![Vertex::desc(), InstanceRaw::desc()]);
    assert_eq!(Pipeline::Instances.shader_path(), "./shaders/instance_shader.wgsl");
    assert_eq!(Pipeline::Instances.buffers(), vec![Vertex::desc(), InstanceRaw::desc()]);
}

#[test]
fn black_hole_pipeline_reads_the_shape_alone() {
    let descriptor = Pipeline::BlackHole.descriptor();
    assert_eq!(descriptor.shader_path, "./shaders/black_hole_shader.wgsl");
    assert_eq!(descriptor.buffers, vec![Vertex::desc()]);
}

#[test]
fn pipelines_share_their_fixed_settings() {
    let descriptor = Utils::create_pipeline("some/shader.wgsl", vec![Vertex::desc()]);
    assert_eq!(descriptor.shader_path, "some/shader.wgsl");
    assert_eq!(descriptor.vertex_entry_point, "vs_main");
    assert_eq!(descriptor.fragment_entry_point, "fs_main");
    assert_eq!(descriptor.topology, PrimitiveTopology::TriangleList);
    assert_eq!(descriptor.front_face, FrontFace::Ccw);
    assert_eq!(descriptor.cull_mode, Some(Face::Back));
    assert_eq!(descriptor.polygon_mode, PolygonMode::Fill);
    assert_eq!(descriptor.color_targets, 1);
    assert_eq!(descriptor.blend, Blend::Replace);
    assert_eq!(descriptor.write_mask, COLOR_WRITES_ALL);
    assert_eq!(COLOR_WRITES_ALL, 0b1111);
    assert_eq!(descriptor.bind_group_layouts, 0);
    assert_eq!(descriptor.push_constant_ranges, 0);
    assert!(!descriptor.depth);
    assert!(!descriptor.unclipped_depth);
    assert!(!descriptor.conservative);
    assert_eq!(descriptor.sample_count, 1);
    assert_eq!(descriptor.sample_mask, !0);
    assert!(!descriptor.alpha_to_coverage_enabled);
    for pipeline in [Pipeline::Instances, Pipeline::BlackHole] {
        let other = pipeline.descriptor();
        assert_eq!(other.front_face, FrontFace::Ccw);
        assert_eq!(other.cull_mode, Some(Face::Back));
        assert!(!other.depth);
    }
}
