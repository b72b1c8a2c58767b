//! What a call of each operation that sets things up gives, said of what it was
//! called with.

use vstd::prelude::*;

use crate::buffers::BufferPlan;
use crate::buffers::BufferRole;
use crate::bytes::is_stored;
use crate::bytes::law_load_gives_back_store;
use crate::bytes::ByteOrder;
use crate::frame::clear_all;
use crate::frame::compute_pass;
use crate::frame::Attachments;
use crate::frame::ModelInfo;
use crate::frame::PassCommand;
use crate::layout::BindingType;
use crate::layout::BufferBinding;
use crate::layout::GroupLayout;
use crate::layout::LayoutEntry;
use crate::layout::Pipeline;
use crate::layout::ShaderStages;
use crate::pipeline::compute_pipeline_plan;
use crate::pipeline::create_render_pipeline;
use crate::pipeline::ColorTarget;
use crate::pipeline::CompareFunction;
use crate::pipeline::ComputePipelinePlan;
use crate::pipeline::DepthFormat;
use crate::pipeline::FrontFace;
use crate::pipeline::ModelKind;
use crate::pipeline::PolygonMode;
use crate::pipeline::PrimitiveTopology;
use crate::pipeline::RenderPipelinePlan;
use crate::pipeline::Shader;
use crate::pipeline::StencilOperation;
use crate::pipeline::VertexLayout;
use crate::surface::PresentMode;
use crate::surface::SurfaceCapabilities;
use crate::surface::SurfaceConfig;
use crate::surface::TextureFormat;
use crate::uniforms::Uniforms;
use crate::vector::Matrix4;
use crate::vector::Vector3;
use crate::vector::Vector4;

verus! {

/// The bits of zero are clear; an identity has the bits of one on its diagonal
/// and those of zero elsewhere.
pub proof fn law_zero_and_identity(v: Vector3, m: Matrix4)
    requires
        call_ensures(Vector3::zero, (), v),
        call_ensures(Matrix4::identity, (), m),
    ensures
        v.x == 0 && v.y == 0 && v.z == 0,
        m.x == (Vector4 { x: 0x3f80_0000, y: 0, z: 0, w: 0 }),
        m.y == (Vector4 { x: 0, y: 0x3f80_0000, z: 0, w: 0 }),
        m.z == (Vector4 { x: 0, y: 0, z: 0x3f80_0000, w: 0 }),
        m.w == (Vector4 { x: 0, y: 0, z: 0, w: 0x3f80_0000 }),
{
}

/// Uniforms start with an identity for a projection and zero for all else.
pub proof fn law_new_uniforms(u: Uniforms, identity: Matrix4)
    requires
        call_ensures(Uniforms::new, (), u),
        call_ensures(Matrix4::identity, (), identity),
    ensures
        u == (Uniforms {
            view_proj: identity,
            n_masses: 0,
            n_particles_requested: 0,
            n_particles: 0,
            g: 0,
            delta_time: 0,
            push: 0,
            reset: 0,
            frame: 0,
            cam_pos: Vector3 { x: 0, y: 0, z: 0 },
            padding: 0,
            random: Vector3 { x: 0, y: 0, z: 0 },
            padding2: 0,
        }),
{
}

/// A new projection is taken over, and nothing else changes.
pub proof fn law_update_view_proj(u: &mut Uniforms, view_proj: Matrix4)
    requires
        call_ensures(Uniforms::update_view_proj, (u, view_proj), ()),
    ensures
        final(u).view_proj == view_proj,
        final(u).n_masses == old(u).n_masses,
        final(u).n_particles_requested == old(u).n_particles_requested,
        final(u).n_particles == old(u).n_particles,
        final(u).g == old(u).g,
        final(u).delta_time == old(u).delta_time,
        final(u).push == old(u).push,
        final(u).reset == old(u).reset,
        final(u).frame == old(u).frame,
        final(u).cam_pos == old(u).cam_pos,
        final(u).padding == old(u).padding,
        final(u).random == old(u).random,
        final(u).padding2 == old(u).padding2,
{
}

/// Where every number of the uniforms stands among their words.
pub proof fn law_words_of_uniforms(u: &Uniforms, words: Vec<u32>)
    requires
        call_ensures(Uniforms::to_words, (u,), words),
    ensures
        words@ == u.words(),
        words@ == seq![
            u.view_proj.x.x,
            u.view_proj.x.y,
            u.view_proj.x.z,
            u.view_proj.x.w,
            u.view_proj.y.x,
            u.view_proj.y.y,
            u.view_proj.y.z,
            u.view_proj.y.w,
            u.view_proj.z.x,
            u.view_proj.z.y,
            u.view_proj.z.z,
            u.view_proj.z.w,
            u.view_proj.w.x,
            u.view_proj.w.y,
            u.view_proj.w.z,
            u.view_proj.w.w,
            u.n_masses,
            u.n_particles_requested,
            u.n_particles,
            u.g,
            u.delta_time,
            u.push,
            u.reset,
            u.frame,
            u.cam_pos.x,
            u.cam_pos.y,
            u.cam_pos.z,
            u.padding,
            u.random.x,
            u.random.y,
            u.random.z,
            u.padding2,
        ],
{
}

/// Bytes in which words are stored: four for each word, and either all of them
/// with the lowest byte first or all of them with the highest byte first.
pub proof fn law_stored_words_can_be_read(bytes: Seq<u8>, words: Seq<u32>)
    requires
        is_stored(bytes, words),
    ensures
        bytes.len() == 4 * words.len(),
        (forall|i: int|
            #![trigger words[i]]
            0 <= i < words.len() ==> words[i] == bytes[4 * i] + 256 * bytes[4 * i + 1] + 65536
                * bytes[4 * i + 2] + 16777216 * bytes[4 * i + 3]) || (forall|i: int|
            #![trigger words[i]]
            0 <= i < words.len() ==> words[i] == bytes[4 * i + 3] + 256 * bytes[4 * i + 2] + 65536
                * bytes[4 * i + 1] + 16777216 * bytes[4 * i]),
{
    if bytes == crate::bytes::stored_bytes(ByteOrder::Little, words) {
        assert forall|i: int| #![trigger words[i]] 0 <= i < words.len() implies words[i] == bytes[4
            * i] + 256 * bytes[4 * i + 1] + 65536 * bytes[4 * i + 2] + 16777216 * bytes[4 * i
            + 3] by {
            law_load_gives_back_store(ByteOrder::Little, words, i);
        }
    } else {
        assert forall|i: int| #![trigger words[i]] 0 <= i < words.len() implies words[i] == bytes[4
            * i + 3] + 256 * bytes[4 * i + 2] + 65536 * bytes[4 * i + 1] + 16777216 * bytes[4
            * i] by {
            law_load_gives_back_store(ByteOrder::Big, words, i);
        }
    }
}

/// The bytes of the uniforms are those of their words.
pub proof fn law_bytes_of_uniforms(u: &Uniforms, words: Vec<u32>, bytes: Vec<u8>)
    requires
        call_ensures(Uniforms::to_words, (u,), words),
        call_ensures(Uniforms::to_bytes, (u,), bytes),
    ensures
        is_stored(bytes@, words@),
        bytes@.len() == 128,
{
}

/// The first buffers: the uniforms exactly as large as their bytes, the masses
/// as large as four of them, particles and random numbers with a header and room
/// for 1024, and an indirect draw's arguments. Each may be used as it is used,
/// and in no other way.
pub proof fn law_first_buffers(role: BufferRole, plan: BufferPlan)
    requires
        call_ensures(BufferRole::first_plan, (role,), plan),
    ensures
        role is Uniforms ==> plan.label@ == "Uniform Buffer"@ && plan.size == 128,
        role is Particles ==> plan.label@ == "Instance Buffer"@ && plan.size == 8 + 1024 * 32,
        role is Random ==> plan.label@ == "Random Buffer"@ && plan.size == 8 + 1024 * 4,
        role is Masses ==> plan.label@ == "Instance Buffer"@ && plan.size == 4 * 16,
        role is Indirect ==> plan.label@ == "indirect_buffer"@ && plan.size == 20,
        plan.usage.uniform <==> role is Uniforms,
        plan.usage.storage <==> !(role is Uniforms),
        !plan.usage.vertex,
        plan.usage.indirect <==> role is Indirect,
        plan.usage.copy_src <==> role is Particles,
        plan.usage.copy_dst <==> role is Uniforms || role is Masses,
{
}

/// How the surface is set up: for drawing to alone, as large as the window, in
/// the preferred format or else the first one offered, without waiting where the
/// surface can do that, and with the first blending that is offered.
pub proof fn law_surface_setup(
    offered: &SurfaceCapabilities,
    width: u32,
    height: u32,
    config: SurfaceConfig,
)
    requires
        call_ensures(SurfaceConfig::select, (offered, width, height), config),
        offered.formats@.len() > 0,
        offered.alpha_modes@.len() > 0,
    ensures
        config.width == width,
        config.height == height,
        config.usage.render_attachment,
        !config.usage.copy_src && !config.usage.copy_dst,
        !config.usage.texture_binding && !config.usage.storage_binding,
        offered.formats@.contains(TextureFormat::Bgra8UnormSrgb) ==> config.format
            == TextureFormat::Bgra8UnormSrgb,
        !offered.formats@.contains(TextureFormat::Bgra8UnormSrgb) ==> config.format
            == offered.formats@[0],
        config.view_formats@ == seq![config.format],
        config.present_mode == PresentMode::Mailbox <==> offered.present_modes@.contains(
            PresentMode::Mailbox,
        ),
        config.present_mode == PresentMode::Immediate <==> (offered.present_modes@.contains(
            PresentMode::Immediate,
        ) && !offered.present_modes@.contains(PresentMode::Mailbox)),
        config.present_mode == PresentMode::Fifo <==> (!offered.present_modes@.contains(
            PresentMode::Immediate,
        ) && !offered.present_modes@.contains(PresentMode::Mailbox)),
        config.alpha_mode == offered.alpha_modes@[0],
        config.desired_maximum_frame_latency == 2,
{
}

/// Every binding of every layout: what stands there and which stages see it.
pub proof fn law_layout_entries(layout: GroupLayout, entries: Vec<LayoutEntry>)
    requires
        call_ensures(GroupLayout::layout_entries, (layout,), entries),
    ensures
        entries@ == layout.bindings(),
        ({
            let fragment = ShaderStages { vertex: false, fragment: true, compute: false };
            let both = ShaderStages { vertex: true, fragment: false, compute: true };
            let compute = ShaderStages { vertex: false, fragment: false, compute: true };
            let write = BindingType::StorageBuffer { read_only: false };
            let read = BindingType::StorageBuffer { read_only: true };
            &&& layout is Texture ==> entries@ == seq![
                LayoutEntry { binding: 0, visibility: fragment, ty: BindingType::Texture },
                LayoutEntry { binding: 1, visibility: fragment, ty: BindingType::Sampler },
            ]
            &&& layout is Uniforms ==> entries@ == seq![
                LayoutEntry { binding: 0, visibility: both, ty: BindingType::UniformBuffer },
            ]
            &&& layout is Particles ==> entries@ == seq![
                LayoutEntry { binding: 0, visibility: both, ty: write },
                LayoutEntry { binding: 1, visibility: compute, ty: read },
            ]
            &&& layout is Masses ==> entries@ == seq![
                LayoutEntry { binding: 0, visibility: both, ty: read },
            ]
        }),
{
}

/// Every stage sees what it uses. Whatever the compute pipeline holds in a slot
/// is visible to the compute shader. What the render pipelines hold is visible
/// to their fragments where it is a material, and else to their vertices, but
/// for the random numbers, which only the compute shader reads.
pub proof fn law_stages_see_what_they_use(pipeline: Pipeline, slot: int, i: int)
    requires
        0 <= slot < pipeline.slots().len(),
        0 <= i < pipeline.slots()[slot].bindings().len(),
    ensures
        ({
            let layout = pipeline.slots()[slot];
            let seen = layout.bindings()[i].visibility;
            &&& pipeline is Compute ==> seen.compute
            &&& !(pipeline is Compute) && layout is Texture ==> seen.fragment
            &&& !(pipeline is Compute) && layout is Uniforms ==> seen.vertex
            &&& !(pipeline is Compute) && layout is Masses ==> seen.vertex
            &&& !(pipeline is Compute) && layout is Particles && i == 0 ==> seen.vertex
            &&& layout is Particles && i == 1 ==> !seen.vertex && !seen.fragment
        }),
{
}

/// The pipelines hold, slot by slot, what their shaders declare.
pub proof fn law_group_layouts(pipeline: Pipeline, layouts: Vec<GroupLayout>)
    requires
        call_ensures(Pipeline::group_layouts, (pipeline,), layouts),
    ensures
        layouts@ == pipeline.slots(),
        layouts@.len() == 3,
        pipeline is Compute ==> {
            &&& layouts@[0] == GroupLayout::Uniforms
            &&& layouts@[1] == GroupLayout::Particles
            &&& layouts@[2] == GroupLayout::Masses
        },
        !(pipeline is Compute) ==> {
            &&& layouts@[0] == GroupLayout::Texture
            &&& layouts@[1] == GroupLayout::Uniforms
        },
        pipeline is Particles ==> layouts@[2] == GroupLayout::Particles,
        pipeline is Masses ==> layouts@[2] == GroupLayout::Masses,
{
}

/// The buffers of each group: from their start, the uniforms and the masses as
/// many bytes as they take, the others whole.
pub proof fn law_buffer_bindings(layout: GroupLayout, entries: Vec<BufferBinding>)
    requires
        call_ensures(GroupLayout::buffer_bindings, (layout,), entries),
    ensures
        entries@ == layout.buffers(),
        layout is Texture ==> entries@.len() == 0,
        layout is Uniforms ==> entries@ == seq![
            BufferBinding { binding: 0, buffer: BufferRole::Uniforms, offset: 0, size: Some(128) },
        ],
        layout is Particles ==> entries@ == seq![
            BufferBinding { binding: 0, buffer: BufferRole::Particles, offset: 0, size: None },
            BufferBinding { binding: 1, buffer: BufferRole::Random, offset: 0, size: None },
        ],
        layout is Masses ==> entries@ == seq![
            BufferBinding { binding: 0, buffer: BufferRole::Masses, offset: 0, size: Some(64) },
        ],
{
}

/// The labels of the layouts and of the groups.
pub proof fn law_group_labels(
    layout: GroupLayout,
    layout_label: &'static str,
    group_label: Option<&'static str>,
)
    requires
        call_ensures(GroupLayout::layout_label, (layout,), layout_label),
        call_ensures(GroupLayout::group_label, (layout,), group_label),
    ensures
        layout is Texture ==> layout_label@ == "texture_bind_group_layout"@,
        layout is Uniforms ==> layout_label@ == "uniform_bind_group_layout"@,
        layout is Particles || layout is Masses ==> layout_label@ == "instance_bind_group_layout"@,
        group_label is None <==> layout is Texture,
        layout is Uniforms ==> group_label->0@ == "uniform_bind_group"@,
        layout is Particles || layout is Masses ==> group_label->0@ == "instance_bind_group"@,
{
}

/// The labels of the pipelines and of their layouts.
pub proof fn law_pipeline_labels(
    pipeline: Pipeline,
    label: &'static str,
    layout_label: &'static str,
)
    requires
        call_ensures(Pipeline::label, (pipeline,), label),
        call_ensures(Pipeline::layout_label, (pipeline,), layout_label),
    ensures
        pipeline is Particles ==> label@ == "Particle Pipeline"@,
        pipeline is Masses ==> label@ == "MASS PIPELINE"@,
        pipeline is Compute ==> label@ == "compute pipeline"@,
        pipeline is Particles ==> layout_label@ == "Render Pipeline Layout"@,
        pipeline is Masses ==> layout_label@ == "Light Pipeline"@,
        pipeline is Compute ==> layout_label@ == "compute pipeline layout"@,
{
}

/// The files of the shaders and of the models.
pub proof fn law_files(
    shader: Shader,
    source: &'static str,
    model: ModelKind,
    asset: &'static str,
)
    requires
        call_ensures(Shader::source, (shader,), source),
        call_ensures(ModelKind::asset, (model,), asset),
    ensures
        shader is Particle ==> source@ == "shaders/particle_shader.wgsl"@,
        shader is Mass ==> source@ == "shaders/mass_shader.wgsl"@,
        shader is Compute ==> source@ == "shaders/compute.wgsl"@,
        model is Particles ==> asset@ == "assets/simpleParticle.obj"@,
        model is Masses ==> asset@ == "assets/sphere.obj"@,
{
}

/// A render pipeline holds each part in its place: the vertex stage its module
/// and its buffers, the fragment stage its module and its targets.
pub proof fn law_render_pipeline_parts(
    layout: Pipeline,
    vs_module: Shader,
    fs_module: Shader,
    vertex_buffers: Vec<VertexLayout>,
    targets: Vec<Option<ColorTarget>>,
    label: Option<&'static str>,
    plan: RenderPipelinePlan,
)
    requires
        call_ensures(
            create_render_pipeline,
            (layout, vs_module, fs_module, vertex_buffers, targets, label),
            plan,
        ),
    ensures
        plan.label == label,
        plan.layout == layout,
        plan.vertex_module == vs_module,
        plan.fragment_module == fs_module,
        plan.vertex_buffers@ == vertex_buffers@,
        plan.targets@ == targets@,
        plan.is_standard(),
{
}

/// What every render pipeline is set to.
pub proof fn law_render_pipeline_settings(plan: RenderPipelinePlan)
    requires
        plan.is_standard(),
    ensures
        plan.vertex_entry@ == "vs_main"@,
        plan.fragment_entry@ == "fs_main"@,
        !plan.vertex_zero_initialize_workgroup_memory,
        !plan.fragment_zero_initialize_workgroup_memory,
        plan.topology == PrimitiveTopology::TriangleList,
        plan.strip_index_format is None,
        plan.front_face == FrontFace::Ccw,
        plan.cull_mode is None,
        plan.polygon_mode == PolygonMode::Fill,
        !plan.unclipped_depth,
        !plan.conservative,
        plan.depth_format == DepthFormat::Depth32Float,
        plan.depth_write,
        plan.depth_test == CompareFunction::Less,
        plan.stencil.front == plan.stencil.back,
        plan.stencil.front.test == CompareFunction::Always,
        plan.stencil.front.fail_op == StencilOperation::Keep,
        plan.stencil.front.depth_fail_op == StencilOperation::Keep,
        plan.stencil.front.pass_op == StencilOperation::Keep,
        plan.stencil.read_mask == 0,
        plan.stencil.write_mask == 0,
        plan.depth_bias.constant == 0,
        plan.depth_bias.slope_scale == 0,
        plan.depth_bias.clamp == 0,
        plan.sample_count == 1,
        plan.sample_mask == 0xffff_ffff_ffff_ffff,
        !plan.alpha_to_coverage,
        plan.cache is None,
        plan.multiview_mask is None,
{
}

/// The pipeline of each model: its own layout, label and module, the models'
/// vertices, and one target of the preferred format that is written in all
/// channels and not blended.
pub proof fn law_model_pipelines(model: ModelKind, pipeline: Pipeline, plan: RenderPipelinePlan)
    requires
        call_ensures(ModelKind::pipeline, (model,), pipeline),
        call_ensures(ModelKind::pipeline_plan, (model,), plan),
    ensures
        plan.is_standard(),
        plan.layout == pipeline,
        model is Particles ==> pipeline is Particles,
        model is Masses ==> pipeline is Masses,
        plan.vertex_module == plan.fragment_module,
        model is Particles ==> plan.vertex_module is Particle,
        model is Masses ==> plan.vertex_module is Mass,
        plan.label is Some,
        model is Particles ==> plan.label->0@ == "Particle Pipeline"@,
        model is Masses ==> plan.label->0@ == "MASS PIPELINE"@,
        plan.vertex_buffers@ == seq![VertexLayout::Model],
        plan.targets@.len() == 1,
        plan.targets@[0] matches Some(target) && {
            &&& target.format == TextureFormat::Bgra8UnormSrgb
            &&& target.blend is None
            &&& target.write_mask.red && target.write_mask.green
            &&& target.write_mask.blue && target.write_mask.alpha
        },
{
}

/// The compute pipeline: its own layout, label and module.
pub proof fn law_compute_pipeline(plan: ComputePipelinePlan)
    requires
        call_ensures(compute_pipeline_plan, (), plan),
    ensures
        plan.label@ == "compute pipeline"@,
        plan.layout == Pipeline::Compute,
        plan.module == Shader::Compute,
        plan.entry@ == "main"@,
        plan.cache is None,
{
}

/// What the render pass clears and keeps.
pub proof fn law_attachments(attachments: Attachments)
    requires
        call_ensures(clear_all, (), attachments),
    ensures
        attachments.clear_color.red == 0,
        attachments.clear_color.green == 0,
        attachments.clear_color.blue == 0,
        attachments.clear_color.alpha == 0,
        attachments.store_color,
        attachments.clear_depth == 0x3f80_0000,
        attachments.store_depth,
{
}

/// A compute pass ends in the one dispatch it makes, of enough groups of 256.
pub proof fn law_compute_pass(n: u32, commands: Vec<PassCommand>)
    requires
        call_ensures(compute_pass, (n,), commands),
    ensures
        commands@.len() == 5,
        forall|k: int| 0 <= k < 4 ==> !(#[trigger] commands@[k] is Dispatch),
        commands@[4] matches PassCommand::Dispatch { x, y, z } && {
            &&& n < 256 * x
            &&& 256 * (x - 1) <= n
            &&& y == 1
            &&& z == 1
        },
{
}

/// A model is dressed exactly when no mesh wears a material that it has not.
pub proof fn law_is_dressed(model: &ModelInfo, dressed: bool)
    requires
        call_ensures(ModelInfo::is_dressed, (model,), dressed),
    ensures
        dressed <==> (forall|i: int|
            0 <= i < model.meshes@.len() ==> (#[trigger] model.meshes@[i]).material
                < model.materials),
{
    if forall|i: int|
        0 <= i < model.meshes@.len() ==> (#[trigger] model.meshes@[i]).material < model.materials {
        assert forall|i: int| 0 <= i < model@.meshes.len() implies (
        #[trigger] model@.meshes[i]).material < model@.materials by {
            assert(model.meshes@[i].material < model.materials);
        }
    } else {
        let i = choose|i: int|
            0 <= i < model.meshes@.len() && (#[trigger] model.meshes@[i]).material
                >= model.materials;
        assert(model@.meshes[i].material >= model@.materials);
    }
}

} // verus!
