//! What a render pipeline of the scene is made with.
//!
//! Rasterisation is not configurable: triangle lists, counter-clockwise front
//! faces, back faces culled, filled polygons, one sample per pixel, colour
//! written as it comes. A pipeline with a depth format writes depth and keeps
//! the nearer fragment. Only the formats, the vertex layouts, the bind group
//! layouts and the shader differ between pipelines.

use vstd::prelude::*;

verus! {

/// `wgpu::TextureFormat`, the format of a texture. Nothing is claimed of it:
/// its values are handed on as they come.
#[verifier::external_type_specification]
#[verifier::external_body]
pub struct ExTextureFormat(wgpu::TextureFormat);

/// The three kinds of resource sets that the shaders read.
#[derive(Clone, Copy, Debug, PartialEq, Eq, Structural)]
pub enum BindGroupLayout {
    /// The diffuse texture with its sampler, then the normal map with its sampler.
    Texture,
    /// One 4x4 matrix.
    Camera,
    /// Position and colour, each padded to four components.
    Light,
}

/// The two streams of vertex data.
#[derive(Clone, Copy, Debug, PartialEq, Eq, Structural)]
pub enum VertexLayout {
    /// One entry per vertex of the mesh.
    Mesh,
    /// One 4x4 model matrix per instance.
    InstanceMatrix,
}

/// The two shader programs.
#[derive(Clone, Copy, Debug, PartialEq, Eq, Structural)]
pub enum Shader {
    /// Lights and textures the model.
    Model,
    /// Shows where the light is.
    Light,
}

#[derive(Clone, Copy, Debug, PartialEq, Eq, Structural)]
pub enum PrimitiveTopology {
    PointList,
    LineList,
    LineStrip,
    TriangleList,
    TriangleStrip,
}

#[derive(Clone, Copy, Debug, PartialEq, Eq, Structural)]
pub enum FrontFace {
    Ccw,
    Cw,
}

#[derive(Clone, Copy, Debug, PartialEq, Eq, Structural)]
pub enum Face {
    Front,
    Back,
}

#[derive(Clone, Copy, Debug, PartialEq, Eq, Structural)]
pub enum PolygonMode {
    Fill,
    Line,
    Point,
}

#[derive(Clone, Copy, Debug, PartialEq, Eq, Structural)]
pub enum IndexFormat {
    Uint16,
    Uint32,
}

#[derive(Clone, Copy, Debug, PartialEq, Eq, Structural)]
pub enum CompareFunction {
    Never,
    Less,
    Equal,
    LessEqual,
    Greater,
    NotEqual,
    GreaterEqual,
    Always,
}

/// How a fragment's colour meets the colour already there.
#[derive(Clone, Copy, Debug, PartialEq, Eq, Structural)]
pub enum BlendMode {
    /// The new colour replaces the old one.
    Replace,
    /// The new colour is laid over the old one by its alpha.
    AlphaBlending,
}

/// How triangles are assembled and which of them are drawn.
#[derive(Clone, Copy, Debug, PartialEq, Eq, Structural)]
pub struct PrimitiveState {
    pub topology: PrimitiveTopology,
    pub strip_index_format: Option<IndexFormat>,
    pub front_face: FrontFace,
    pub cull_mode: Option<Face>,
    pub polygon_mode: PolygonMode,
    pub unclipped_depth: bool,
    pub conservative: bool,
}

/// How many samples a pixel has.
#[derive(Clone, Copy, Debug, PartialEq, Eq, Structural)]
pub struct MultisampleState {
    pub count: u32,
    pub mask: u64,
    pub alpha_to_coverage_enabled: bool,
}

/// How depth is tested and written.
#[derive(Debug, PartialEq)]
pub struct DepthStencilState {
    pub format: wgpu::TextureFormat,
    pub depth_write_enabled: bool,
    pub depth_compare: CompareFunction,
    pub stencil_enabled: bool,
    pub depth_bias: i32,
}

/// The one colour target of a pipeline.
#[derive(Debug, PartialEq)]
pub struct ColorTargetState {
    pub format: wgpu::TextureFormat,
    pub blend: BlendMode,
    /// One bit per channel: red, green, blue, alpha.
    pub write_mask: u32,
}

/// The resource sets that a pipeline's shaders read, by group number.
#[derive(Debug, PartialEq)]
pub struct PipelineLayout {
    pub label: &'static str,
    pub bind_group_layouts: Vec<BindGroupLayout>,
    pub push_constant_ranges: u32,
}

/// All that a pipeline is built from.
#[derive(Debug, PartialEq)]
pub struct RenderPipeline {
    pub label: &'static str,
    pub layout: PipelineLayout,
    pub shader: Shader,
    pub vertex_entry_point: &'static str,
    pub fragment_entry_point: &'static str,
    pub vertex_layouts: Vec<VertexLayout>,
    pub target: ColorTargetState,
    pub primitive: PrimitiveState,
    pub depth_stencil: Option<DepthStencilState>,
    pub multisample: MultisampleState,
    pub multiview: Option<u32>,
}

/// The fixed way of assembling and culling triangles.
pub open spec fn fixed_primitive() -> PrimitiveState {
    PrimitiveState {
        topology: PrimitiveTopology::TriangleList,
        strip_index_format: None,
        front_face: FrontFace::Ccw,
        cull_mode: Some(Face::Back),
        polygon_mode: PolygonMode::Fill,
        unclipped_depth: false,
        conservative: false,
    }
}

/// One sample per pixel, every sample written.
pub open spec fn fixed_multisample() -> MultisampleState {
    MultisampleState { count: 1, mask: 0xffff_ffff_ffff_ffff, alpha_to_coverage_enabled: false }
}

/// The depth state for `format`: depth written, the nearer fragment kept, no
/// stencil, no bias.
pub open spec fn fixed_depth(format: wgpu::TextureFormat) -> DepthStencilState {
    DepthStencilState {
        format,
        depth_write_enabled: true,
        depth_compare: CompareFunction::Less,
        stencil_enabled: false,
        depth_bias: 0,
    }
}

/// The colour target for `format`: colour replaced, all four channels written.
pub open spec fn fixed_target(format: wgpu::TextureFormat) -> ColorTargetState {
    ColorTargetState { format, blend: BlendMode::Replace, write_mask: 0xf }
}

impl PipelineLayout {
    /// The layout offers `groups` as groups 0, 1, 2 and so on, and no push
    /// constants.
    pub open spec fn is_made_of(&self, groups: Seq<BindGroupLayout>) -> bool {
        &&& self.label@ == "Render Pipeline Layout"@
        &&& self.bind_group_layouts@ == groups
        &&& self.push_constant_ranges == 0
    }
}

impl RenderPipeline {
    /// The pipeline follows the fixed policy, for the given formats and parts.
    pub open spec fn is_built_from(
        &self,
        layout: PipelineLayout,
        color_format: wgpu::TextureFormat,
        depth_format: Option<wgpu::TextureFormat>,
        vertex_layouts: Seq<VertexLayout>,
        shader: Shader,
    ) -> bool {
        &&& self.label@ == "Render Pipeline"@
        &&& self.layout == layout
        &&& self.shader == shader
        &&& self.vertex_entry_point@ == "vs_main"@
        &&& self.fragment_entry_point@ == "fs_main"@
        &&& self.vertex_layouts@ == vertex_layouts
        &&& self.target == fixed_target(color_format)
        &&& self.primitive == fixed_primitive()
        &&& self.depth_stencil == match depth_format {
            Some(format) => Some(fixed_depth(format)),
            None => None,
        }
        &&& self.multisample == fixed_multisample()
        &&& self.multiview == None::<u32>
    }

    /// Puts a pipeline together from its layout, formats, vertex layouts and
    /// shader, under the fixed policy.
    pub fn new(
        layout: PipelineLayout,
        color_format: wgpu::TextureFormat,
        depth_format: Option<wgpu::TextureFormat>,
        vertex_layouts: Vec<VertexLayout>,
        shader: Shader,
    ) -> (pipeline: RenderPipeline)
        ensures
            pipeline.is_built_from(layout, color_format, depth_format, vertex_layouts@, shader),
    {
        let depth_stencil = match depth_format {
            Some(format) => Some(
                DepthStencilState {
                    format,
                    depth_write_enabled: true,
                    depth_compare: CompareFunction::Less,
                    stencil_enabled: false,
                    depth_bias: 0,
                },
            ),
            None => None,
        };
        RenderPipeline {
            label: "Render Pipeline",
            layout,
            shader,
            vertex_entry_point: "vs_main",
            fragment_entry_point: "fs_main",
            vertex_layouts,
            target: ColorTargetState { format: color_format, blend: BlendMode::Replace, write_mask: 0xf },
            primitive: PrimitiveState {
                topology: PrimitiveTopology::TriangleList,
                strip_index_format: None,
                front_face: FrontFace::Ccw,
                cull_mode: Some(Face::Back),
                polygon_mode: PolygonMode::Fill,
                unclipped_depth: false,
                conservative: false,
            },
            depth_stencil,
            multisample: MultisampleState {
                count: 1,
                mask: 0xffff_ffff_ffff_ffff,
                alpha_to_coverage_enabled: false,
            },
            multiview: None,
        }
    }

    /// The layout that offers `bind_group_layouts` as groups 0, 1, 2 and so on,
    /// with no push constants.
    pub fn create_pipeline_layout(bind_group_layouts: Vec<BindGroupLayout>) -> (layout:
        PipelineLayout)
        ensures
            layout.is_made_of(bind_group_layouts@),
            layout.bind_group_layouts == bind_group_layouts,
    {
        PipelineLayout { label: "Render Pipeline Layout", bind_group_layouts, push_constant_ranges: 0 }
    }
}

} // verus!
