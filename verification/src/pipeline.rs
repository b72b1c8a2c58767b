//! The pipelines to create: which shaders, groups and targets each is built from,
//! and the settings that all of them share.

use vstd::prelude::*;

use crate::layout::Pipeline;
use crate::surface::chosen_format;
use crate::surface::TextureFormat;
use crate::vector::ZERO;

verus! {

/// The shader modules.
#[derive(Clone, Copy, Debug, PartialEq, Eq, Structural)]
pub enum Shader {
    Particle,
    Mass,
    Compute,
}

impl Shader {
    /// The file that the module is compiled from.
    pub fn source(self) -> (path: &'static str)
        ensures
            path@ == match self {
                Shader::Particle => "shaders/particle_shader.wgsl"@,
                Shader::Mass => "shaders/mass_shader.wgsl"@,
                Shader::Compute => "shaders/compute.wgsl"@,
            },
    {
        match self {
            Shader::Particle => "shaders/particle_shader.wgsl",
            Shader::Mass => "shaders/mass_shader.wgsl",
            Shader::Compute => "shaders/compute.wgsl",
        }
    }
}

/// How the vertices of a buffer are laid out. Layouts other than that of the
/// models are told apart by a number that the caller picks.
#[derive(Clone, Copy, Debug, PartialEq, Eq, Structural)]
pub enum VertexLayout {
    Model,
    Other(u32),
}

/// How vertices are joined.
#[derive(Clone, Copy, Debug, PartialEq, Eq, Structural)]
pub enum PrimitiveTopology {
    PointList,
    LineList,
    LineStrip,
    TriangleList,
    TriangleStrip,
}

/// Which winding faces the camera.
#[derive(Clone, Copy, Debug, PartialEq, Eq, Structural)]
pub enum FrontFace {
    Ccw,
    Cw,
}

/// A side of a triangle.
#[derive(Clone, Copy, Debug, PartialEq, Eq, Structural)]
pub enum Face {
    Front,
    Back,
}

/// How triangles are filled.
#[derive(Clone, Copy, Debug, PartialEq, Eq, Structural)]
pub enum PolygonMode {
    Fill,
    Line,
    Point,
}

/// Which values pass against the one that is there.
#[derive(Clone, Copy, Debug, PartialEq, Eq, Structural)]
pub enum CompareFunction {
    Never,
    Less,
    Equal,
    LessEqual,
    Greater,
    NotEqual,
    GreaterEqual,
    Always,
}

/// The format of the depth texture.
#[derive(Clone, Copy, Debug, PartialEq, Eq, Structural)]
pub enum DepthFormat {
    Depth24Plus,
    Depth32Float,
}

/// How wide the indices of a strip are.
#[derive(Clone, Copy, Debug, PartialEq, Eq, Structural)]
pub enum IndexFormat {
    Uint16,
    Uint32,
}

/// What happens to a stencil value.
#[derive(Clone, Copy, Debug, PartialEq, Eq, Structural)]
pub enum StencilOperation {
    Keep,
    Zero,
    Replace,
    Invert,
    IncrementClamp,
    DecrementClamp,
    IncrementWrap,
    DecrementWrap,
}

/// The stencil test of one side of a triangle.
#[derive(Clone, Copy, Debug, PartialEq, Eq, Structural)]
pub struct StencilFace {
    pub test: CompareFunction,
    pub fail_op: StencilOperation,
    pub depth_fail_op: StencilOperation,
    pub pass_op: StencilOperation,
}

/// The stencil test.
#[derive(Clone, Copy, Debug, PartialEq, Eq, Structural)]
pub struct Stencil {
    pub front: StencilFace,
    pub back: StencilFace,
    pub read_mask: u32,
    pub write_mask: u32,
}

/// What is added to a depth; the last two are bit patterns.
#[derive(Clone, Copy, Debug, PartialEq, Eq, Structural)]
pub struct DepthBias {
    pub constant: i32,
    pub slope_scale: u32,
    pub clamp: u32,
}

/// How a fragment is mixed with what is there.
#[derive(Clone, Copy, Debug, PartialEq, Eq, Structural)]
pub enum Blend {
    Replace,
    AlphaBlending,
    PremultipliedAlphaBlending,
}

/// Which channels are written.
#[derive(Clone, Copy, Debug, PartialEq, Eq, Structural)]
pub struct ColorWrites {
    pub red: bool,
    pub green: bool,
    pub blue: bool,
    pub alpha: bool,
}

/// A texture that fragments are written to.
#[derive(Clone, Copy, Debug, PartialEq, Eq, Structural)]
pub struct ColorTarget {
    pub format: TextureFormat,
    pub blend: Option<Blend>,
    pub write_mask: ColorWrites,
}

/// A render pipeline to create.
#[derive(Debug)]
pub struct RenderPipelinePlan {
    pub label: Option<&'static str>,
    pub layout: Pipeline,
    pub vertex_module: Shader,
    pub vertex_entry: &'static str,
    pub vertex_zero_initialize_workgroup_memory: bool,
    pub vertex_buffers: Vec<VertexLayout>,
    pub fragment_module: Shader,
    pub fragment_entry: &'static str,
    pub fragment_zero_initialize_workgroup_memory: bool,
    pub targets: Vec<Option<ColorTarget>>,
    pub topology: PrimitiveTopology,
    pub strip_index_format: Option<IndexFormat>,
    pub front_face: FrontFace,
    pub cull_mode: Option<Face>,
    pub polygon_mode: PolygonMode,
    pub unclipped_depth: bool,
    pub conservative: bool,
    pub depth_format: DepthFormat,
    pub depth_write: bool,
    pub depth_test: CompareFunction,
    pub stencil: Stencil,
    pub depth_bias: DepthBias,
    pub sample_count: u32,
    pub sample_mask: u64,
    pub alpha_to_coverage: bool,
    /// The number of the pipeline cache that it is built with.
    pub cache: Option<u32>,
    pub multiview_mask: Option<u32>,
}

/// The compute pipeline to create.
#[derive(Clone, Copy, Debug)]
pub struct ComputePipelinePlan {
    pub label: &'static str,
    pub layout: Pipeline,
    pub module: Shader,
    pub entry: &'static str,
    /// The number of the pipeline cache that it is built with.
    pub cache: Option<u32>,
}

/// The label of a pipeline.
pub open spec fn pipeline_label(pipeline: Pipeline) -> Seq<char> {
    match pipeline {
        Pipeline::Particles => "Particle Pipeline"@,
        Pipeline::Masses => "MASS PIPELINE"@,
        Pipeline::Compute => "compute pipeline"@,
    }
}

impl Pipeline {
    /// The label to create the pipeline with.
    pub fn label(self) -> (label: &'static str)
        ensures
            label@ == pipeline_label(self),
    {
        match self {
            Pipeline::Particles => "Particle Pipeline",
            Pipeline::Masses => "MASS PIPELINE",
            Pipeline::Compute => "compute pipeline",
        }
    }

    /// The label of the pipeline's layout.
    pub open spec fn layout_name(self) -> Seq<char> {
        match self {
            Pipeline::Particles => "Render Pipeline Layout"@,
            Pipeline::Masses => "Light Pipeline"@,
            Pipeline::Compute => "compute pipeline layout"@,
        }
    }

    /// The label to create the pipeline's layout with.
    pub fn layout_label(self) -> (label: &'static str)
        ensures
            label@ == self.layout_name(),
    {
        match self {
            Pipeline::Particles => "Render Pipeline Layout",
            Pipeline::Masses => "Light Pipeline",
            Pipeline::Compute => "compute pipeline layout",
        }
    }

    /// The module that every stage of the pipeline is built from.
    pub open spec fn built_from(self) -> Shader {
        match self {
            Pipeline::Particles => Shader::Particle,
            Pipeline::Masses => Shader::Mass,
            Pipeline::Compute => Shader::Compute,
        }
    }
}

/// A stencil test that everything passes and that leaves everything alone.
pub open spec fn ignored_stencil() -> Stencil {
    let face = StencilFace {
        test: CompareFunction::Always,
        fail_op: StencilOperation::Keep,
        depth_fail_op: StencilOperation::Keep,
        pass_op: StencilOperation::Keep,
    };
    Stencil { front: face, back: face, read_mask: 0, write_mask: 0 }
}

/// Nothing is added to a depth.
pub open spec fn no_depth_bias() -> DepthBias {
    DepthBias { constant: 0, slope_scale: ZERO, clamp: ZERO }
}

impl RenderPipelinePlan {
    /// The settings that all render pipelines share: the entry points, filled
    /// counterclockwise triangles that are never culled, one sample, a depth
    /// test that keeps what is nearest, and no stencil test, depth bias, cache
    /// or multiview.
    pub open spec fn is_standard(self) -> bool {
        &&& self.vertex_entry@ == "vs_main"@
        &&& self.fragment_entry@ == "fs_main"@
        &&& !self.vertex_zero_initialize_workgroup_memory
        &&& !self.fragment_zero_initialize_workgroup_memory
        &&& self.topology == PrimitiveTopology::TriangleList
        &&& self.strip_index_format is None
        &&& self.front_face == FrontFace::Ccw
        &&& self.cull_mode is None
        &&& self.polygon_mode == PolygonMode::Fill
        &&& !self.unclipped_depth
        &&& !self.conservative
        &&& self.depth_format == DepthFormat::Depth32Float
        &&& self.depth_write
        &&& self.depth_test == CompareFunction::Less
        &&& self.stencil == ignored_stencil()
        &&& self.depth_bias == no_depth_bias()
        &&& self.sample_count == 1
        &&& self.sample_mask == u64::MAX
        &&& !self.alpha_to_coverage
        &&& self.cache is None
        &&& self.multiview_mask is None
    }
}

/// A render pipeline with the shared settings and this layout, whose vertex
/// stage runs `vs_module` on `vertex_buffers` and whose fragment stage runs
/// `fs_module` into `targets`.
pub fn create_render_pipeline(
    layout: Pipeline,
    vs_module: Shader,
    fs_module: Shader,
    vertex_buffers: Vec<VertexLayout>,
    targets: Vec<Option<ColorTarget>>,
    label: Option<&'static str>,
) -> (plan: RenderPipelinePlan)
    ensures
        plan.is_standard(),
        plan.label == label,
        plan.layout == layout,
        plan.vertex_module == vs_module,
        plan.fragment_module == fs_module,
        plan.vertex_buffers@ == vertex_buffers@,
        plan.targets@ == targets@,
{
    let face = StencilFace {
        test: CompareFunction::Always,
        fail_op: StencilOperation::Keep,
        depth_fail_op: StencilOperation::Keep,
        pass_op: StencilOperation::Keep,
    };
    RenderPipelinePlan {
        label,
        layout,
        vertex_module: vs_module,
        vertex_entry: "vs_main",
        vertex_zero_initialize_workgroup_memory: false,
        vertex_buffers,
        fragment_module: fs_module,
        fragment_entry: "fs_main",
        fragment_zero_initialize_workgroup_memory: false,
        targets,
        topology: PrimitiveTopology::TriangleList,
        strip_index_format: None,
        front_face: FrontFace::Ccw,
        cull_mode: None,
        polygon_mode: PolygonMode::Fill,
        unclipped_depth: false,
        conservative: false,
        depth_format: DepthFormat::Depth32Float,
        depth_write: true,
        depth_test: CompareFunction::Less,
        stencil: Stencil { front: face, back: face, read_mask: 0, write_mask: 0 },
        depth_bias: DepthBias { constant: 0, slope_scale: ZERO, clamp: ZERO },
        sample_count: 1,
        sample_mask: 0xffff_ffff_ffff_ffff,
        alpha_to_coverage: false,
        cache: None,
        multiview_mask: None,
    }
}

/// The compute pipeline: its module's entry point, and no cache.
pub fn compute_pipeline_plan() -> (plan: ComputePipelinePlan)
    ensures
        plan.label@ == pipeline_label(Pipeline::Compute),
        plan.layout == Pipeline::Compute,
        plan.module == Pipeline::Compute.built_from(),
        plan.entry@ == "main"@,
        plan.cache is None,
{
    ComputePipelinePlan {
        label: Pipeline::Compute.label(),
        layout: Pipeline::Compute,
        module: Shader::Compute,
        entry: "main",
        cache: None,
    }
}

/// The two models that are drawn.
#[derive(Clone, Copy, Debug, PartialEq, Eq, Structural)]
pub enum ModelKind {
    Particles,
    Masses,
}

impl ModelKind {
    /// The pipeline that draws the model.
    pub open spec fn drawn_by(self) -> Pipeline {
        match self {
            ModelKind::Particles => Pipeline::Particles,
            ModelKind::Masses => Pipeline::Masses,
        }
    }

    /// The pipeline that draws the model.
    pub fn pipeline(self) -> (pipeline: Pipeline)
        ensures
            pipeline == self.drawn_by(),
    {
        match self {
            ModelKind::Particles => Pipeline::Particles,
            ModelKind::Masses => Pipeline::Masses,
        }
    }

    /// The file that the model is loaded from.
    pub fn asset(self) -> (path: &'static str)
        ensures
            path@ == match self {
                ModelKind::Particles => "assets/simpleParticle.obj"@,
                ModelKind::Masses => "assets/sphere.obj"@,
            },
    {
        match self {
            ModelKind::Particles => "assets/simpleParticle.obj",
            ModelKind::Masses => "assets/sphere.obj",
        }
    }

    /// The pipeline to create for the model: both stages come from one module,
    /// the vertices are those of the models, and the one target is always of
    /// the preferred format.
    pub fn pipeline_plan(self) -> (plan: RenderPipelinePlan)
        ensures
            plan.is_standard(),
            plan.layout == self.drawn_by(),
            plan.vertex_module == self.drawn_by().built_from(),
            plan.fragment_module == self.drawn_by().built_from(),
            plan.vertex_buffers@ == seq![VertexLayout::Model],
            plan.targets@ == seq![Some(preferred_target())],
            plan.label matches Some(label) && label@ == pipeline_label(self.drawn_by()),
    {
        let pipeline = self.pipeline();
        let module = match self {
            ModelKind::Particles => Shader::Particle,
            ModelKind::Masses => Shader::Mass,
        };
        let mut vertex_buffers: Vec<VertexLayout> = Vec::new();
        vertex_buffers.push(VertexLayout::Model);
        let mut targets: Vec<Option<ColorTarget>> = Vec::new();
        targets.push(
            Some(
                ColorTarget {
                    format: TextureFormat::Bgra8UnormSrgb,
                    blend: None,
                    write_mask: ColorWrites { red: true, green: true, blue: true, alpha: true },
                },
            ),
        );
        create_render_pipeline(
            pipeline,
            module,
            module,
            vertex_buffers,
            targets,
            Some(pipeline.label()),
        )
    }
}

/// What the render pipelines write: the preferred format, without blending, in
/// all channels.
pub open spec fn preferred_target() -> ColorTarget {
    ColorTarget {
        format: TextureFormat::Bgra8UnormSrgb,
        blend: None,
        write_mask: ColorWrites { red: true, green: true, blue: true, alpha: true },
    }
}

/// The render pipelines write what the surface is set up for exactly when the
/// surface offers the preferred format.
pub proof fn law_target_matches_surface(formats: Seq<TextureFormat>)
    requires
        formats.len() > 0,
    ensures
        preferred_target().format == chosen_format(formats) <==> formats.contains(
            TextureFormat::Bgra8UnormSrgb,
        ),
{
    assert(formats.contains(formats[0]));
}

} // verus!
