use scene_core::pipeline::{
    BindGroupLayout, BlendMode, ColorTargetState, CompareFunction, DepthStencilState, Face,
    FrontFace, MultisampleState, PipelineLayout, PolygonMode, PrimitiveState, PrimitiveTopology,
    RenderPipeline, Shader, VertexLayout,
};

fn model_layout() -> PipelineLayout {
    RenderPipeline::create_pipeline_layout(vec![
        BindGroupLayout::Texture,
        BindGroupLayout::Camera,
        BindGroupLayout::Light,
    ])
}

#[test]
fn layout_keeps_the_groups_in_order() {
    let layout = model_layout();
    assert_eq!(layout.label, "Render Pipeline Layout");
    assert_eq!(
        layout.bind_group_layouts,
        vec![BindGroupLayout::Texture, BindGroupLayout::Camera, BindGroupLayout::Light]
    );
    assert_eq!(layout.push_constant_ranges, 0);
}

#[test]
fn layout_may_be_empty() {
    let layout = RenderPipeline::create_pipeline_layout(Vec::new());
    assert_eq!(layout.bind_group_layouts, Vec::<BindGroupLayout>::new());
    assert_eq!(layout.push_constant_ranges, 0);
}

#[test]
fn pipeline_follows_the_fixed_policy() {
    let pipeline = RenderPipeline::new(
        model_layout(),
        wgpu::TextureFormat::Bgra8UnormSrgb,
        Some(wgpu::TextureFormat::Depth32Float),
        vec![VertexLayout::Mesh, VertexLayout::InstanceMatrix],
        Shader::Model,
    );
    assert_eq!(
        pipeline,
        RenderPipeline {
            label: "Render Pipeline",
            layout: model_layout(),
            shader: Shader::Model,
            vertex_entry_point: "vs_main",
            fragment_entry_point: "fs_main",
            vertex_layouts: vec![VertexLayout::Mesh, VertexLayout::InstanceMatrix],
            target: ColorTargetState {
                format: wgpu::TextureFormat::Bgra8UnormSrgb,
                blend: BlendMode::Replace,
                write_mask: 0b1111,
            },
            primitive: PrimitiveState {
                topology: PrimitiveTopology::TriangleList,
                strip_index_format: None,
                front_face: FrontFace::Ccw,
                cull_mode: Some(Face::Back),
                polygon_mode: PolygonMode::Fill,
                unclipped_depth: false,
                conservative: false,
            },
            depth_stencil: Some(DepthStencilState {
                format: wgpu::TextureFormat::Depth32Float,
                depth_write_enabled: true,
                depth_compare: CompareFunction::Less,
                stencil_enabled: false,
                depth_bias: 0,
            }),
            multisample: MultisampleState {
                count: 1,
                mask: u64::MAX,
                alpha_to_coverage_enabled: false,
            },
            multiview: None,
        }
    );
}

#[test]
fn pipeline_without_depth_format_has_no_depth_state() {
    let pipeline = RenderPipeline::new(
        RenderPipeline::create_pipeline_layout(vec![BindGroupLayout::Camera, BindGroupLayout::Light]),
        wgpu::TextureFormat::Rgba8UnormSrgb,
        None,
        vec![VertexLayout::Mesh],
        Shader::Light,
    );
    assert_eq!(pipeline.depth_stencil, None);
    assert_eq!(pipeline.shader, Shader::Light);
    assert_eq!(pipeline.vertex_layouts, vec![VertexLayout::Mesh]);
    assert_eq!(pipeline.target.format, wgpu::TextureFormat::Rgba8UnormSrgb);
    assert_eq!(pipeline.target.blend, BlendMode::Replace);
    assert_eq!(pipeline.primitive.cull_mode, Some(Face::Back));
    assert_eq!(pipeline.multisample.count, 1);
}

#[test]
fn pipeline_carries_its_formats_through() {
    for (color, depth) in [
        (wgpu::TextureFormat::Bgra8Unorm, wgpu::TextureFormat::Depth24Plus),
        (wgpu::TextureFormat::Rgba16Float, wgpu::TextureFormat::Depth32Float),
    ] {
        let pipeline =
            RenderPipeline::new(model_layout(), color, Some(depth), vec![VertexLayout::Mesh], Shader::Model);
        assert_eq!(pipeline.target.format, color);
        assert_eq!(pipeline.depth_stencil.unwrap().format, depth);
    }
}
