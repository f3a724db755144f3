use textured_mesh::pipeline::{
    BindingEntry, BindingKind, BlendMode, CullMode, FrontFace, PipelineSettings, PolygonMode, Topology,
};

#[test]
fn textured_mesh_pipeline_fixed_function_state() {
    let p = PipelineSettings::textured_mesh();
    assert_eq!(p.topology, Topology::TriangleList);
    assert_eq!(p.front_face, FrontFace::Ccw);
    assert_eq!(p.cull_mode, CullMode::Back);
    assert_eq!(p.polygon_mode, PolygonMode::Fill);
    assert_eq!(p.blend, BlendMode::Replace);
    assert!(!p.depth_test);
    assert_eq!(p.sample_count, 1);
    assert_eq!(p.vertex_layout.array_stride, 20);
    assert_eq!(p.vertex_layout.attributes[1].offset, 12);
}

#[test]
fn textured_mesh_pipeline_binds_texture_then_sampler() {
    let p = PipelineSettings::textured_mesh();
    assert_eq!(
        p.bindings,
        vec![
            BindingEntry { binding: 0, kind: BindingKind::SampledTexture2d, fragment_only: true },
            BindingEntry { binding: 1, kind: BindingKind::FilteringSampler, fragment_only: true },
        ]
    );
}
