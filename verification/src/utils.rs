//! The two render pipelines, described as plain values for the caller to hand
//! to the graphics device.

use crate::instance::InstanceRaw;
use crate::layout::{is_record_layout, VertexBufferLayout, VertexStepMode};
use crate::frame::Pipeline;
use crate::vertex::Vertex;
use vstd::prelude::*;

verus! {

/// How the vertices of a draw are put together.
#[derive(Clone, Copy, Debug, PartialEq, Eq)]
pub enum PrimitiveTopology {
    PointList,
    LineList,
    LineStrip,
    TriangleList,
    TriangleStrip,
}

/// The winding that marks the front of a triangle.
#[derive(Clone, Copy, Debug, PartialEq, Eq)]
pub enum FrontFace {
    Ccw,
    Cw,
}

/// A side of a triangle.
#[derive(Clone, Copy, Debug, PartialEq, Eq)]
pub enum Face {
    Front,
    Back,
}

/// How a triangle is filled.
#[derive(Clone, Copy, Debug, PartialEq, Eq)]
pub enum PolygonMode {
    Fill,
    Line,
    Point,
}

/// How a fragment's colour is combined with what the target holds.
#[derive(Clone, Copy, Debug, PartialEq, Eq)]
pub enum Blend {
    /// The fragment replaces what was there, in colour and in alpha.
    Replace,
}

/// Every channel of a colour target: red, green, blue and alpha, one bit for
/// each.
pub const COLOR_WRITES_ALL: u32 = 0xF;

/// A render pipeline, as far as the simulation decides it. The format of its
/// colour targets is the surface's, which the caller knows.
#[derive(Debug, PartialEq, Eq)]
pub struct RenderPipelineDescriptor<'a> {
    /// Where the text of the shader is found.
    pub shader_path: &'a str,
    pub vertex_entry_point: &'static str,
    pub fragment_entry_point: &'static str,
    /// The layouts of the vertex buffers, by slot.
    pub buffers: Vec<VertexBufferLayout>,
    pub topology: PrimitiveTopology,
    pub front_face: FrontFace,
    pub cull_mode: Option<Face>,
    pub polygon_mode: PolygonMode,
    /// The number of colour targets that the fragment shader writes.
    pub color_targets: u32,
    pub blend: Blend,
    /// The channels of a target that are written, one bit for each.
    pub write_mask: u32,
    /// The number of bind group layouts that the shaders use.
    pub bind_group_layouts: u32,
    /// The number of push constant ranges that the shaders use.
    pub push_constant_ranges: u32,
    /// Whether the pipeline has a depth buffer.
    pub depth: bool,
    pub unclipped_depth: bool,
    pub conservative: bool,
    /// The number of samples per pixel.
    pub sample_count: u32,
    /// The samples that are written: one bit for each.
    pub sample_mask: u64,
    pub alpha_to_coverage_enabled: bool,
}

/// The settings that both pipelines share: a list of triangles with their
/// front counter-clockwise and their backs culled, filled, written to one
/// target in all channels over what was there, without bindings, without
/// depth, one sample per pixel.
pub open spec fn has_fixed_settings(descriptor: RenderPipelineDescriptor) -> bool {
    &&& descriptor.vertex_entry_point@ == "vs_main"@
    &&& descriptor.fragment_entry_point@ == "fs_main"@
    &&& descriptor.topology == PrimitiveTopology::TriangleList
    &&& descriptor.front_face == FrontFace::Ccw
    &&& descriptor.cull_mode == Some(Face::Back)
    &&& descriptor.polygon_mode == PolygonMode::Fill
    &&& descriptor.color_targets == 1
    &&& descriptor.blend == Blend::Replace
    &&& descriptor.write_mask == COLOR_WRITES_ALL
    &&& descriptor.bind_group_layouts == 0
    &&& descriptor.push_constant_ranges == 0
    &&& !descriptor.depth
    &&& !descriptor.unclipped_depth
    &&& !descriptor.conservative
    &&& descriptor.sample_count == 1
    &&& descriptor.sample_mask == u64::MAX
    &&& !descriptor.alpha_to_coverage_enabled
}

/// `buffers` are the vertex buffers of `pipeline`, by slot: the shape's
/// vertices in slot 0 and, for the particles, one record for each particle in
/// slot 1.
pub open spec fn are_buffers_of(pipeline: Pipeline, buffers: Seq<VertexBufferLayout>) -> bool {
    match pipeline {
        Pipeline::Instances => {
            &&& buffers.len() == 2
            &&& is_record_layout(buffers[0], VertexStepMode::Vertex, 0)
            &&& is_record_layout(buffers[1], VertexStepMode::Instance, 3)
        },
        Pipeline::BlackHole => {
            &&& buffers.len() == 1
            &&& is_record_layout(buffers[0], VertexStepMode::Vertex, 0)
        },
    }
}

/// The path of the shader of `pipeline`.
pub open spec fn shader_path_of(pipeline: Pipeline) -> Seq<char> {
    match pipeline {
        Pipeline::Instances => "./shaders/instance_shader.wgsl"@,
        Pipeline::BlackHole => "./shaders/black_hole_shader.wgsl"@,
    }
}

impl Pipeline {
    /// Where the text of this pipeline's shader is found.
    pub fn shader_path(&self) -> (path: &'static str)
        ensures
            path@ == shader_path_of(*self),
    {
        match self {
            Pipeline::Instances => "./shaders/instance_shader.wgsl",
            Pipeline::BlackHole => "./shaders/black_hole_shader.wgsl",
        }
    }

    /// The layouts of this pipeline's vertex buffers, by slot.
    pub fn buffers(&self) -> (buffers: Vec<VertexBufferLayout>)
        ensures
            are_buffers_of(*self, buffers@),
    {
        let mut buffers: Vec<VertexBufferLayout> = Vec::new();
        buffers.push(Vertex::desc());
        match self {
            Pipeline::Instances => {
                buffers.push(InstanceRaw::desc());
            },
            Pipeline::BlackHole => {},
        }
        buffers
    }

    /// The description of this pipeline.
    pub fn descriptor(&self) -> (descriptor: RenderPipelineDescriptor<'static>)
        ensures
            descriptor.shader_path@ == shader_path_of(*self),
            are_buffers_of(*self, descriptor.buffers@),
            has_fixed_settings(descriptor),
    {
        Utils::create_pipeline(self.shader_path(), self.buffers())
    }
}

/// The maker of pipeline descriptions.
pub struct Utils;

impl Utils {
    /// Describes the render pipeline that runs the shader at `shader_path`
    /// over the given vertex buffers.
    pub fn create_pipeline<'a>(
        shader_path: &'a str,
        buffers: Vec<VertexBufferLayout>,
    ) -> (descriptor: RenderPipelineDescriptor<'a>)
        ensures
            descriptor.shader_path@ == shader_path@,
            descriptor.buffers == buffers,
            has_fixed_settings(descriptor),
    {
        RenderPipelineDescriptor {
            shader_path,
            vertex_entry_point: "vs_main",
            fragment_entry_point: "fs_main",
            buffers,
            topology: PrimitiveTopology::TriangleList,
            front_face: FrontFace::Ccw,
            cull_mode: Some(Face::Back),
            polygon_mode: PolygonMode::Fill,
            color_targets: 1,
            blend: Blend::Replace,
            write_mask: COLOR_WRITES_ALL,
            bind_group_layouts: 0,
            push_constant_ranges: 0,
            depth: false,
            unclipped_depth: false,
            conservative: false,
            sample_count: 1,
            sample_mask: u64::MAX,
            alpha_to_coverage_enabled: false,
        }
    }
}

} // verus!
