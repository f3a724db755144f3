//! The fixed-function state of the one render pipeline, and the layout of
//! the resources that its fragment stage reads.
use vstd::prelude::*;
use crate::vertex::{Vertex, VertexBufferLayout};

verus! {

/// How vertices are assembled into primitives.
#[derive(Clone, Copy, Debug, PartialEq, Eq, Structural)]
pub enum Topology {
    PointList,
    LineList,
    TriangleList,
    TriangleStrip,
}

/// The winding order of a triangle's front face.
#[derive(Clone, Copy, Debug, PartialEq, Eq, Structural)]
pub enum FrontFace {
    Ccw,
    Cw,
}

/// Which faces are not drawn.
#[derive(Clone, Copy, Debug, PartialEq, Eq, Structural)]
pub enum CullMode {
    Nothing,
    Front,
    Back,
}

/// How triangles are rasterised.
#[derive(Clone, Copy, Debug, PartialEq, Eq, Structural)]
pub enum PolygonMode {
    Fill,
    Line,
    Point,
}

/// How the fragment colour is combined with the target.
#[derive(Clone, Copy, Debug, PartialEq, Eq, Structural)]
pub enum BlendMode {
    /// The fragment colour replaces what was there, alpha included.
    Replace,
    AlphaBlending,
}

/// What a binding of the bind group holds.
#[derive(Clone, Copy, Debug, PartialEq, Eq, Structural)]
pub enum BindingKind {
    /// A filterable float 2D texture, not multisampled.
    SampledTexture2d,
    /// A filtering sampler.
    FilteringSampler,
}

/// One entry of the bind-group layout.
#[derive(Clone, Copy, Debug, PartialEq, Eq, Structural)]
pub struct BindingEntry {
    pub binding: u32,
    pub kind: BindingKind,
    /// Seen by the fragment stage only.
    pub fragment_only: bool,
}

/// Everything of the render pipeline but the shader and the target format.
#[derive(Clone, Debug)]
pub struct PipelineSettings {
    pub topology: Topology,
    pub front_face: FrontFace,
    pub cull_mode: CullMode,
    pub polygon_mode: PolygonMode,
    pub blend: BlendMode,
    pub depth_test: bool,
    pub sample_count: u32,
    pub vertex_layout: VertexBufferLayout,
    pub bindings: Vec<BindingEntry>,
}

impl PipelineSettings {
    /// Counter-clockwise triangle lists with back faces culled, filled,
    /// replaced into the target with one sample and no depth test; one
    /// vertex buffer of `Vertex`; binding 0 the texture and binding 1 its
    /// sampler, both for the fragment stage.
    pub open spec fn is_textured_mesh_pipeline(&self) -> bool {
        &&& self.topology == Topology::TriangleList
        &&& self.front_face == FrontFace::Ccw
        &&& self.cull_mode == CullMode::Back
        &&& self.polygon_mode == PolygonMode::Fill
        &&& self.blend == BlendMode::Replace
        &&& !self.depth_test
        &&& self.sample_count == 1
        &&& self.vertex_layout.is_vertex_layout()
        &&& self.bindings@ == seq![
            BindingEntry { binding: 0, kind: BindingKind::SampledTexture2d, fragment_only: true },
            BindingEntry { binding: 1, kind: BindingKind::FilteringSampler, fragment_only: true },
        ]
    }

    /// The settings of the pipeline that draws the textured mesh.
    pub fn textured_mesh() -> (r: PipelineSettings)
        ensures
            r.is_textured_mesh_pipeline(),
    {
        let mut bindings: Vec<BindingEntry> = Vec::new();
        bindings.push(BindingEntry { binding: 0, kind: BindingKind::SampledTexture2d, fragment_only: true });
        bindings.push(BindingEntry { binding: 1, kind: BindingKind::FilteringSampler, fragment_only: true });
        let r = PipelineSettings {
            topology: Topology::TriangleList,
            front_face: FrontFace::Ccw,
            cull_mode: CullMode::Back,
            polygon_mode: PolygonMode::Fill,
            blend: BlendMode::Replace,
            depth_test: false,
            sample_count: 1,
            vertex_layout: Vertex::desc(),
            bindings,
        };
        assert(r.bindings@ =~= seq![
            BindingEntry { binding: 0, kind: BindingKind::SampledTexture2d, fragment_only: true },
            BindingEntry { binding: 1, kind: BindingKind::FilteringSampler, fragment_only: true },
        ]);
        r
    }
}

} // verus!
