//! How the records of a vertex buffer are described to a render pipeline.

use vstd::prelude::*;

verus! {

/// The number of 32-bit words in one record: a position and a colour, three
/// words each.
pub const RECORD_WORDS: usize = 6;

/// The type of one vertex attribute.
#[derive(Clone, Copy, Debug, PartialEq, Eq)]
pub enum VertexFormat {
    /// Three single-precision components.
    Float32x3,
}

impl VertexFormat {
    /// The number of bytes that an attribute of this format occupies.
    pub open spec fn spec_size(self) -> u64 {
        12
    }

    /// The number of bytes that an attribute of this format occupies.
    pub fn size(&self) -> (bytes: u64)
        ensures
            bytes == self.spec_size(),
    {
        match self {
            VertexFormat::Float32x3 => 12,
        }
    }
}

/// Whether a buffer advances once per vertex or once per instance.
#[derive(Clone, Copy, Debug, PartialEq, Eq)]
pub enum VertexStepMode {
    Vertex,
    Instance,
}

/// One input of the vertex shader: where in the record it lies and which
/// shader location receives it.
#[derive(Clone, Copy, Debug, PartialEq, Eq)]
pub struct VertexAttribute {
    pub format: VertexFormat,
    pub offset: u64,
    pub shader_location: u32,
}

/// The layout of one vertex buffer.
#[derive(Debug, PartialEq, Eq)]
pub struct VertexBufferLayout {
    /// The distance in bytes from one record to the next.
    pub array_stride: u64,
    pub step_mode: VertexStepMode,
    pub attributes: Vec<VertexAttribute>,
}

/// The attributes lie back to back from offset 0 in the order given.
pub open spec fn is_packed(attributes: Seq<VertexAttribute>) -> bool {
    forall|k: int|
        0 <= k < attributes.len() ==> (#[trigger] attributes[k]).offset == (if k == 0 {
            0
        } else {
            attributes[k - 1].offset + attributes[k - 1].format.spec_size()
        })
}

/// The first byte after the last attribute.
pub open spec fn end_of(attributes: Seq<VertexAttribute>) -> int {
    if attributes.len() == 0 {
        0
    } else {
        attributes.last().offset + attributes.last().format.spec_size()
    }
}

/// The attributes of a record that holds a position and then a colour, read
/// at the shader locations `first` and `first + 1`.
pub open spec fn record_attributes(first: u32) -> Seq<VertexAttribute> {
    seq![
        VertexAttribute { format: VertexFormat::Float32x3, offset: 0, shader_location: first },
        VertexAttribute {
            format: VertexFormat::Float32x3,
            offset: 12,
            shader_location: (first + 1) as u32,
        },
    ]
}

/// `layout` describes records of a position and then a colour, advanced as
/// `step_mode` says and read at the shader locations `first` and `first + 1`.
pub open spec fn is_record_layout(
    layout: VertexBufferLayout,
    step_mode: VertexStepMode,
    first: u32,
) -> bool {
    &&& layout.array_stride == 4 * RECORD_WORDS
    &&& layout.step_mode == step_mode
    &&& layout.attributes@ == record_attributes(first)
}

/// Builds the layout of a buffer of position-and-colour records.
pub fn record_layout(step_mode: VertexStepMode, first: u32) -> (layout: VertexBufferLayout)
    requires
        first < u32::MAX,
    ensures
        is_record_layout(layout, step_mode, first),
{
    let position = VertexAttribute {
        format: VertexFormat::Float32x3,
        offset: 0,
        shader_location: first,
    };
    let colour = VertexAttribute {
        format: VertexFormat::Float32x3,
        offset: position.offset + position.format.size(),
        shader_location: first + 1,
    };
    let mut attributes: Vec<VertexAttribute> = Vec::new();
    attributes.push(position);
    attributes.push(colour);
    assert(attributes@ =~= record_attributes(first));
    VertexBufferLayout { array_stride: colour.offset + colour.format.size(), step_mode, attributes }
}

/// A record layout leaves no gap: its attributes lie back to back, and the
/// stride is the first byte after the last of them, which is the size of the
/// record's words.
pub proof fn lemma_record_layout_is_packed(
    layout: VertexBufferLayout,
    step_mode: VertexStepMode,
    first: u32,
)
    requires
        is_record_layout(layout, step_mode, first),
    ensures
        is_packed(layout.attributes@),
        end_of(layout.attributes@) == layout.array_stride,
        layout.array_stride == 4 * RECORD_WORDS,
{
}

} // verus!
