use gravity_particles::buffers::BufferRole;
use gravity_particles::buffers::BufferUsage;
use gravity_particles::pipeline::create_render_pipeline;
use gravity_particles::layout::BindingType;
use gravity_particles::layout::BufferBinding;
use gravity_particles::pipeline::ColorTarget;
use gravity_particles::pipeline::DepthFormat;
use gravity_particles::pipeline::FrontFace;
use gravity_particles::layout::GroupLayout;
use gravity_particles::pipeline::ModelKind;
use gravity_particles::layout::Pipeline;
use gravity_particles::pipeline::PolygonMode;
use gravity_particles::pipeline::PrimitiveTopology;
use gravity_particles::layout::ShaderStages;
use gravity_particles::pipeline::compute_pipeline_plan;
use gravity_particles::pipeline::Blend;
use gravity_particles::pipeline::ColorWrites;
use gravity_particles::pipeline::CompareFunction;
use gravity_particles::pipeline::DepthBias;
use gravity_particles::pipeline::Shader;
use gravity_particles::pipeline::Stencil;
use gravity_particles::pipeline::StencilFace;
use gravity_particles::pipeline::StencilOperation;
use gravity_particles::pipeline::VertexLayout;
use gravity_particles::surface::AlphaMode;
use gravity_particles::surface::PresentMode;
use gravity_particles::surface::SurfaceCapabilities;
use gravity_particles::surface::SurfaceConfig;
use gravity_particles::surface::TextureFormat;
use gravity_particles::surface::TextureUsage;

fn offered(
    formats: Vec<TextureFormat>,
    present_modes: Vec<PresentMode>,
    alpha_modes: Vec<AlphaMode>,
) -> SurfaceCapabilities {
    SurfaceCapabilities { formats, present_modes, alpha_modes }
}

#[test]
fn preferred_format_is_taken_wherever_it_stands() {
    let config = SurfaceConfig::select(
        &offered(
            vec![TextureFormat::Other(0), TextureFormat::Other(1), TextureFormat::Bgra8UnormSrgb],
            vec![PresentMode::Fifo],
            vec![AlphaMode::Opaque, AlphaMode::Inherit],
        ),
        640,
        480,
    );
    assert_eq!(config.format, TextureFormat::Bgra8UnormSrgb);
    assert_eq!(config.view_formats, vec![TextureFormat::Bgra8UnormSrgb]);
    assert_eq!(config.alpha_mode, AlphaMode::Opaque);
    assert_eq!((config.width, config.height), (640, 480));
    assert_eq!(config.desired_maximum_frame_latency, 2);
    assert_eq!(
        config.usage,
        TextureUsage {
            copy_src: false,
            copy_dst: false,
            texture_binding: false,
            storage_binding: false,
            render_attachment: true,
        }
    );
}

#[test]
fn first_format_is_taken_where_the_preferred_one_is_missing() {
    let config = SurfaceConfig::select(
        &offered(
            vec![TextureFormat::Other(7), TextureFormat::Other(1)],
            vec![],
            vec![AlphaMode::PreMultiplied],
        ),
        1,
        0,
    );
    assert_eq!(config.format, TextureFormat::Other(7));
    assert_eq!(config.view_formats, vec![TextureFormat::Other(7)]);
    assert_eq!(config.alpha_mode, AlphaMode::PreMultiplied);
}

#[test]
fn present_modes_are_tried_in_order() {
    let choose = |modes: Vec<PresentMode>| {
        SurfaceConfig::select(
            &offered(vec![TextureFormat::Other(0)], modes, vec![AlphaMode::Auto]),
            1,
            1,
        )
        .present_mode
    };
    assert_eq!(
        choose(vec![PresentMode::Fifo, PresentMode::Immediate, PresentMode::Mailbox]),
        PresentMode::Mailbox
    );
    assert_eq!(
        choose(vec![PresentMode::Fifo, PresentMode::FifoRelaxed, PresentMode::Immediate]),
        PresentMode::Immediate
    );
    assert_eq!(choose(vec![PresentMode::FifoRelaxed, PresentMode::Fifo]), PresentMode::Fifo);
    assert_eq!(choose(vec![]), PresentMode::Fifo);
}

#[test]
fn first_buffers_have_their_sizes_and_uses() {
    let none = BufferUsage {
        uniform: false,
        storage: false,
        vertex: false,
        indirect: false,
        copy_src: false,
        copy_dst: false,
    };
    let uniforms = BufferRole::Uniforms.first_plan();
    assert_eq!((uniforms.label, uniforms.size), ("Uniform Buffer", 128));
    assert_eq!(uniforms.usage, BufferUsage { uniform: true, copy_dst: true, ..none });
    let particles = BufferRole::Particles.first_plan();
    assert_eq!((particles.label, particles.size), ("Instance Buffer", 32776));
    assert_eq!(particles.usage, BufferUsage { storage: true, copy_src: true, ..none });
    let random = BufferRole::Random.first_plan();
    assert_eq!((random.label, random.size), ("Random Buffer", 4104));
    assert_eq!(random.usage, BufferUsage { storage: true, ..none });
    let masses = BufferRole::Masses.first_plan();
    assert_eq!((masses.label, masses.size), ("Instance Buffer", 64));
    assert_eq!(masses.usage, BufferUsage { storage: true, copy_dst: true, ..none });
    let indirect = BufferRole::Indirect.first_plan();
    assert_eq!((indirect.label, indirect.size), ("indirect_buffer", 20));
    assert_eq!(indirect.usage, BufferUsage { storage: true, indirect: true, ..none });
}

#[test]
fn indirect_arguments_have_the_size_of_the_graphics_library() {
    assert_eq!(
        BufferRole::Indirect.first_plan().size as usize,
        std::mem::size_of::<wgpu::util::DrawIndexedIndirectArgs>()
    );
}

#[test]
fn groups_fill_their_layouts() {
    let both = ShaderStages { vertex: true, fragment: false, compute: true };
    let entries = GroupLayout::Particles.layout_entries();
    assert_eq!(entries.len(), 2);
    assert_eq!(entries[0].visibility, both);
    assert_eq!(entries[0].ty, BindingType::StorageBuffer { read_only: false });
    assert_eq!(entries[1].binding, 1);
    assert_eq!(
        entries[1].visibility,
        ShaderStages { vertex: false, fragment: false, compute: true }
    );
    assert_eq!(entries[1].ty, BindingType::StorageBuffer { read_only: true });
    assert_eq!(
        GroupLayout::Particles.buffer_bindings(),
        vec![
            BufferBinding { binding: 0, buffer: BufferRole::Particles, offset: 0, size: None },
            BufferBinding { binding: 1, buffer: BufferRole::Random, offset: 0, size: None },
        ]
    );
    assert_eq!(
        GroupLayout::Uniforms.buffer_bindings(),
        vec![BufferBinding { binding: 0, buffer: BufferRole::Uniforms, offset: 0, size: Some(128) }]
    );
    assert_eq!(
        GroupLayout::Masses.buffer_bindings(),
        vec![BufferBinding { binding: 0, buffer: BufferRole::Masses, offset: 0, size: Some(64) }]
    );
    assert_eq!(GroupLayout::Uniforms.layout_entries()[0].ty, BindingType::UniformBuffer);
    assert_eq!(
        GroupLayout::Masses.layout_entries()[0].ty,
        BindingType::StorageBuffer { read_only: true }
    );
    let texture = GroupLayout::Texture.layout_entries();
    assert_eq!((texture[0].ty, texture[1].ty), (BindingType::Texture, BindingType::Sampler));
    assert!(texture.iter().all(|e| e.visibility.fragment && !e.visibility.vertex));
    assert!(GroupLayout::Texture.buffer_bindings().is_empty());
}

#[test]
fn pipelines_expect_their_groups() {
    assert_eq!(
        Pipeline::Particles.group_layouts(),
        vec![GroupLayout::Texture, GroupLayout::Uniforms, GroupLayout::Particles]
    );
    assert_eq!(
        Pipeline::Masses.group_layouts(),
        vec![GroupLayout::Texture, GroupLayout::Uniforms, GroupLayout::Masses]
    );
    assert_eq!(
        Pipeline::Compute.group_layouts(),
        vec![GroupLayout::Uniforms, GroupLayout::Particles, GroupLayout::Masses]
    );
    assert_eq!(Pipeline::Compute.label(), "compute pipeline");
}

#[test]
fn whole_surface_setup_is_chosen() {
    let config = SurfaceConfig::select(
        &offered(
            vec![TextureFormat::Other(0), TextureFormat::Bgra8UnormSrgb],
            vec![PresentMode::Fifo, PresentMode::Immediate, PresentMode::Mailbox],
            vec![AlphaMode::Opaque, AlphaMode::Inherit],
        ),
        800,
        600,
    );
    assert!(config.usage.render_attachment);
    assert_eq!(config.format, TextureFormat::Bgra8UnormSrgb);
    assert_eq!((config.width, config.height), (800, 600));
    assert_eq!(config.present_mode, PresentMode::Mailbox);
    assert_eq!(config.alpha_mode, AlphaMode::Opaque);
    assert_eq!(config.view_formats, vec![TextureFormat::Bgra8UnormSrgb]);
    assert_eq!(config.desired_maximum_frame_latency, 2);
}

fn all_channels() -> ColorWrites {
    ColorWrites { red: true, green: true, blue: true, alpha: true }
}

#[test]
fn render_pipeline_puts_each_part_in_its_place() {
    let other = ColorTarget {
        format: TextureFormat::Other(3),
        blend: Some(Blend::AlphaBlending),
        write_mask: ColorWrites { alpha: false, ..all_channels() },
    };
    let plan = create_render_pipeline(
        Pipeline::Masses,
        Shader::Mass,
        Shader::Particle,
        vec![VertexLayout::Other(7), VertexLayout::Model],
        vec![None, Some(other)],
        None,
    );
    assert_eq!(plan.label, None);
    assert_eq!(plan.layout, Pipeline::Masses);
    assert_eq!(plan.vertex_module, Shader::Mass);
    assert_eq!(plan.fragment_module, Shader::Particle);
    assert_eq!(plan.vertex_buffers, vec![VertexLayout::Other(7), VertexLayout::Model]);
    assert_eq!(plan.targets, vec![None, Some(other)]);
}

#[test]
fn render_pipelines_share_their_settings() {
    let plan =
        create_render_pipeline(Pipeline::Particles, Shader::Particle, Shader::Particle, vec![], vec![], None);
    assert_eq!((plan.vertex_entry, plan.fragment_entry), ("vs_main", "fs_main"));
    assert!(!plan.vertex_zero_initialize_workgroup_memory);
    assert!(!plan.fragment_zero_initialize_workgroup_memory);
    assert_eq!(plan.topology, PrimitiveTopology::TriangleList);
    assert_eq!(plan.strip_index_format, None);
    assert_eq!(plan.front_face, FrontFace::Ccw);
    assert_eq!(plan.cull_mode, None);
    assert_eq!(plan.polygon_mode, PolygonMode::Fill);
    assert!(!plan.unclipped_depth && !plan.conservative && !plan.alpha_to_coverage);
    assert_eq!(plan.depth_format, DepthFormat::Depth32Float);
    assert!(plan.depth_write);
    assert_eq!(plan.depth_test, CompareFunction::Less);
    let face = StencilFace {
        test: CompareFunction::Always,
        fail_op: StencilOperation::Keep,
        depth_fail_op: StencilOperation::Keep,
        pass_op: StencilOperation::Keep,
    };
    assert_eq!(plan.stencil, Stencil { front: face, back: face, read_mask: 0, write_mask: 0 });
    assert_eq!(
        plan.depth_bias,
        DepthBias { constant: 0, slope_scale: 0.0f32.to_bits(), clamp: 0.0f32.to_bits() }
    );
    assert_eq!((plan.sample_count, plan.sample_mask), (1, !0));
    assert_eq!((plan.cache, plan.multiview_mask), (None, None));
}

#[test]
fn shared_settings_are_the_defaults_of_the_graphics_library() {
    let stencil = wgpu::StencilState::default();
    assert_eq!(stencil.front, stencil.back);
    assert_eq!(stencil.front.compare, wgpu::CompareFunction::Always);
    assert_eq!(stencil.front.fail_op, wgpu::StencilOperation::Keep);
    assert_eq!(stencil.front.depth_fail_op, wgpu::StencilOperation::Keep);
    assert_eq!(stencil.front.pass_op, wgpu::StencilOperation::Keep);
    assert_eq!((stencil.read_mask, stencil.write_mask), (0, 0));
    let bias = wgpu::DepthBiasState::default();
    assert_eq!((bias.constant, bias.slope_scale, bias.clamp), (0, 0.0, 0.0));
}

#[test]
fn both_models_have_a_pipeline() {
    let target = ColorTarget {
        format: TextureFormat::Bgra8UnormSrgb,
        blend: None,
        write_mask: all_channels(),
    };
    let particles = ModelKind::Particles.pipeline_plan();
    assert_eq!(particles.label, Some("Particle Pipeline"));
    assert_eq!(particles.layout, Pipeline::Particles);
    assert_eq!(particles.vertex_module, Shader::Particle);
    assert_eq!(particles.fragment_module, Shader::Particle);
    assert_eq!(particles.vertex_buffers, vec![VertexLayout::Model]);
    assert_eq!(particles.targets, vec![Some(target)]);
    let masses = ModelKind::Masses.pipeline_plan();
    assert_eq!(masses.label, Some("MASS PIPELINE"));
    assert_eq!(masses.layout, Pipeline::Masses);
    assert_eq!(masses.vertex_module, Shader::Mass);
    assert_eq!(masses.fragment_module, Shader::Mass);
    assert_eq!(masses.vertex_buffers, vec![VertexLayout::Model]);
    assert_eq!(masses.targets, vec![Some(target)]);
    assert_eq!(ModelKind::Particles.asset(), "assets/simpleParticle.obj");
    assert_eq!(ModelKind::Masses.asset(), "assets/sphere.obj");
}

#[test]
fn compute_pipeline_runs_its_own_module() {
    let plan = compute_pipeline_plan();
    assert_eq!(plan.label, "compute pipeline");
    assert_eq!(plan.layout, Pipeline::Compute);
    assert_eq!(plan.module, Shader::Compute);
    assert_eq!(plan.entry, "main");
    assert_eq!(plan.cache, None);
}

#[test]
fn shaders_and_layouts_have_their_names() {
    assert_eq!(Shader::Particle.source(), "shaders/particle_shader.wgsl");
    assert_eq!(Shader::Mass.source(), "shaders/mass_shader.wgsl");
    assert_eq!(Shader::Compute.source(), "shaders/compute.wgsl");
    assert_eq!(Pipeline::Particles.layout_label(), "Render Pipeline Layout");
    assert_eq!(Pipeline::Masses.layout_label(), "Light Pipeline");
    assert_eq!(Pipeline::Compute.layout_label(), "compute pipeline layout");
    assert_eq!(GroupLayout::Texture.layout_label(), "texture_bind_group_layout");
    assert_eq!(GroupLayout::Uniforms.layout_label(), "uniform_bind_group_layout");
    assert_eq!(GroupLayout::Particles.layout_label(), "instance_bind_group_layout");
    assert_eq!(GroupLayout::Masses.layout_label(), "instance_bind_group_layout");
    assert_eq!(GroupLayout::Texture.group_label(), None);
    assert_eq!(GroupLayout::Uniforms.group_label(), Some("uniform_bind_group"));
    assert_eq!(GroupLayout::Particles.group_label(), Some("instance_bind_group"));
    assert_eq!(GroupLayout::Masses.group_label(), Some("instance_bind_group"));
}
