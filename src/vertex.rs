//! Vertices as they are uploaded to the GPU, and the buffer layout that tells
//! the vertex stage how to read them.
use vstd::prelude::*;

verus! {

/// Bytes in one 32-bit float component.
pub const FLOAT_BYTES: u64 = 4;

/// One vertex of the mesh. Every component is the bit pattern of an IEEE-754
/// single-precision float, exactly as it is laid out in the vertex buffer.
#[derive(Clone, Copy, Debug)]
pub struct Vertex {
    pub position: [u32; 3],
    pub tex_coords: [u32; 2],
}

/// The shape of one vertex attribute.
#[derive(Clone, Copy, Debug, PartialEq, Eq, Structural)]
pub enum VertexFormat {
    Float32x2,
    Float32x3,
}

/// How often the pipeline moves on to the next element of a buffer.
#[derive(Clone, Copy, Debug, PartialEq, Eq, Structural)]
pub enum VertexStepMode {
    Vertex,
    Instance,
}

/// One attribute of a vertex: where it starts, where the shader reads it,
/// and its shape.
#[derive(Clone, Copy, Debug, PartialEq, Eq, Structural)]
pub struct VertexAttribute {
    pub offset: u64,
    pub shader_location: u32,
    pub format: VertexFormat,
}

/// How a vertex buffer is laid out in memory.
#[derive(Clone, Debug)]
pub struct VertexBufferLayout {
    pub array_stride: u64,
    pub step_mode: VertexStepMode,
    pub attributes: Vec<VertexAttribute>,
}

/// Number of float components of a format.
pub open spec fn components(f: VertexFormat) -> int {
    match f {
        VertexFormat::Float32x2 => 2,
        VertexFormat::Float32x3 => 3,
    }
}

/// Byte size of a format.
pub open spec fn format_bytes(f: VertexFormat) -> int {
    components(f) * FLOAT_BYTES
}

/// Byte size of one vertex: three position floats and two texture floats.
pub open spec fn vertex_stride() -> int {
    (3 + 2) * FLOAT_BYTES
}

impl VertexFormat {
    /// Byte size of one attribute of this format.
    pub fn size(&self) -> (r: u64)
        ensures
            r == format_bytes(*self),
    {
        match self {
            VertexFormat::Float32x2 => 2 * FLOAT_BYTES,
            VertexFormat::Float32x3 => 3 * FLOAT_BYTES,
        }
    }
}

impl VertexBufferLayout {
    /// The layout is the one the vertex shader expects: the position, three
    /// floats at byte 0 and location 0, then the texture coordinates, two
    /// floats right after it at location 1, one vertex per step.
    pub open spec fn is_vertex_layout(&self) -> bool {
        &&& self.array_stride == vertex_stride()
        &&& self.step_mode == VertexStepMode::Vertex
        &&& self.attributes@.len() == 2
        &&& self.attributes@[0].offset == 0
        &&& self.attributes@[0].shader_location == 0
        &&& self.attributes@[0].format == VertexFormat::Float32x3
        &&& self.attributes@[1].offset == 3 * FLOAT_BYTES
        &&& self.attributes@[1].shader_location == 1
        &&& self.attributes@[1].format == VertexFormat::Float32x2
    }
}

impl Vertex {
    /// The buffer layout of `Vertex`.
    pub fn desc() -> (r: VertexBufferLayout)
        ensures
            r.is_vertex_layout(),
    {
        let position = VertexFormat::Float32x3;
        let tex_coords = VertexFormat::Float32x2;
        let position_bytes = position.size();
        let stride = position_bytes + tex_coords.size();
        let mut attributes: Vec<VertexAttribute> = Vec::new();
        attributes.push(VertexAttribute { offset: 0, shader_location: 0, format: position });
        attributes.push(VertexAttribute { offset: position_bytes, shader_location: 1, format: tex_coords });
        VertexBufferLayout { array_stride: stride, step_mode: VertexStepMode::Vertex, attributes }
    }

    /// The components of the vertex in buffer order: position, then texture
    /// coordinates.
    pub open spec fn words(&self) -> Seq<u32> {
        self.position@ + self.tex_coords@
    }
}

/// Attribute 0 of the layout covers exactly the bytes before attribute 1, and
/// the two attributes together fill one vertex stride with no gap.
pub proof fn lemma_layout_packed(l: VertexBufferLayout)
    requires
        l.is_vertex_layout(),
    ensures
        l.attributes@[0].offset + format_bytes(l.attributes@[0].format) == l.attributes@[1].offset,
        l.attributes@[1].offset + format_bytes(l.attributes@[1].format) == l.array_stride,
        l.attributes@[1].offset == 3 * FLOAT_BYTES,
{
}

} // verus!
