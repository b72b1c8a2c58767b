use gravity_particles::buffers::BufferRole;
use gravity_particles::buffers::BufferUsage;
use gravity_particles::events::DeviceEvent;
use gravity_particles::events::ElementState;
use gravity_particles::events::FrameInput;
use gravity_particles::events::FrameReport;
use gravity_particles::events::InputEffect;
use gravity_particles::events::KeyCode;
use gravity_particles::events::MouseDelta;
use gravity_particles::events::OrbitPoint;
use gravity_particles::events::PhysicalSize;
use gravity_particles::events::RenderAction;
use gravity_particles::events::SurfaceStatus;
use gravity_particles::events::WindowEvent;
use gravity_particles::frame::BindGroup;
use gravity_particles::frame::Color;
use gravity_particles::frame::FramePlan;
use gravity_particles::frame::Mesh;
use gravity_particles::frame::ModelInfo;
use gravity_particles::frame::PassCommand;
use gravity_particles::growth::BoundGroup;
use gravity_particles::growth::CopyJob;
use gravity_particles::growth::ParticleBuffer;
use gravity_particles::layout::GroupLayout;
use gravity_particles::layout::Pipeline;
use gravity_particles::pipeline::ModelKind;
use gravity_particles::state::words_of;
use gravity_particles::state::State;
use gravity_particles::surface::AlphaMode;
use gravity_particles::surface::PresentMode;
use gravity_particles::surface::SurfaceCapabilities;
use gravity_particles::surface::SurfaceConfig;
use gravity_particles::surface::TextureFormat;
use gravity_particles::uniforms::Uniforms;
use gravity_particles::vector::Matrix4;
use gravity_particles::vector::Vector3;
use gravity_particles::vector::Vector4;
use gravity_particles::vector::ONE;
use gravity_particles::vector::ZERO;

fn word_at(bytes: &[u8], index: usize) -> u32 {
    let mut four = [0u8; 4];
    four.copy_from_slice(&bytes[4 * index..4 * index + 4]);
    u32::from_ne_bytes(four)
}

const RESET_WORD: usize = 22;
const PUSH_WORD: usize = 21;
const FRAME_WORD: usize = 23;
const REQUESTED_WORD: usize = 17;
const PARTICLES_WORD: usize = 18;

fn projection(k: u32) -> Matrix4 {
    let column = Vector4 { x: k, y: k, z: k, w: k };
    Matrix4 { x: column, y: column, z: column, w: column }
}

fn started(particle_number: i32) -> State {
    let capabilities = SurfaceCapabilities {
        formats: vec![TextureFormat::Bgra8UnormSrgb],
        present_modes: vec![PresentMode::Fifo],
        alpha_modes: vec![AlphaMode::Auto],
    };
    let particle_model =
        ModelInfo { meshes: vec![Mesh { material: 0, num_elements: 6 }], materials: 1 };
    let mass_model = ModelInfo {
        meshes: vec![
            Mesh { material: 1, num_elements: 30 },
            Mesh { material: 0, num_elements: 36 },
        ],
        materials: 2,
    };
    State::new(
        SurfaceConfig::select(&capabilities, 800, 600),
        particle_number,
        projection(5),
        particle_model,
        mass_model,
    )
}

fn frame_input() -> FrameInput {
    FrameInput {
        delta_time: 0.016f32.to_bits(),
        g: 2.5f32.to_bits(),
        view_proj: projection(9),
        cam_pos: Vector3 { x: 1, y: 2, z: 3 },
        random: Vector3 { x: 4, y: 5, z: 6 },
        orbit: vec![
            OrbitPoint { x: 10, z: 20 },
            OrbitPoint { x: 11, z: 21 },
            OrbitPoint { x: 12, z: 22 },
            OrbitPoint { x: 13, z: 23 },
        ],
    }
}

fn press(state: &mut State, key: KeyCode) -> InputEffect {
    let response =
        state.input(&WindowEvent::KeyboardInput { state: ElementState::Pressed, key });
    assert!(response.handled);
    response.effect
}

fn release(state: &mut State, key: KeyCode) -> InputEffect {
    let response =
        state.input(&WindowEvent::KeyboardInput { state: ElementState::Released, key });
    assert!(response.handled);
    response.effect
}

fn drawn(state: &mut State) -> FramePlan {
    match state.render(SurfaceStatus::Success) {
        RenderAction::Draw(plan) => plan,
        other => panic!("not drawn: {:?}", other),
    }
}

#[test]
fn starts_with_nothing_but_the_request() {
    let state = started(5000);
    assert_eq!(
        state.uniforms,
        Uniforms {
            view_proj: projection(5),
            n_particles_requested: 5000,
            ..Uniforms::new()
        }
    );
    assert_eq!(state.particle_buffer, ParticleBuffer { id: 0, size: 32776 });
    assert!(state.jobs.is_empty());
    assert!(!state.print && !state.growing && !state.suspend_updates);
    assert_eq!((state.surface_config.width, state.surface_config.height), (800, 600));
}

#[test]
fn starts_with_four_masses_at_rest() {
    let state = started(0);
    let scales = [-1.0f32 / 100.0, 8.0 / 100.0, -3.0 / 100.0, 7.0 / 100.0];
    assert_eq!(state.masses.len(), 4);
    for (mass, scale) in state.masses.iter().zip(scales) {
        assert_eq!(*mass, Vector4 { x: ZERO, y: ZERO, z: ZERO, w: scale.to_bits() });
    }
    let bytes = state.mass_bytes();
    assert_eq!(bytes.len(), 64);
    assert_eq!(word_at(&bytes, 7), 0.08f32.to_bits());
}

#[test]
fn negative_request_wraps_round_and_cannot_be_met() {
    let state = started(-1);
    assert_eq!(state.uniforms.n_particles_requested, u32::MAX);
    assert!(!state.can_update());
    assert_eq!(started(i32::MIN).uniforms.n_particles_requested, 0x8000_0000);
}

#[test]
fn requests_have_a_limit() {
    let largest = (u32::MAX - 8) / 32;
    assert!(started(largest as i32).can_update());
    assert!(!started(largest as i32 + 1).can_update());
    let mut last = started(0);
    last.uniforms.frame = u32::MAX;
    assert!(!last.can_update());
}

#[test]
fn resizing_changes_the_size_alone() {
    let mut state = started(1);
    state.resize(PhysicalSize { width: 1, height: 2 });
    state.resize(PhysicalSize { width: 1920, height: 0 });
    assert_eq!((state.surface_config.width, state.surface_config.height), (1920, 0));
    assert_eq!(state.surface_config.format, TextureFormat::Bgra8UnormSrgb);
    assert_eq!(state.surface_config.present_mode, PresentMode::Fifo);
}

#[test]
fn only_the_mouse_turns_the_camera() {
    let state = started(1);
    let delta = MouseDelta { x: 1.5f64.to_bits(), y: (-2.0f64).to_bits() };
    assert_eq!(state.device_input(&DeviceEvent::MouseMotion { delta }), Some(delta));
    assert_eq!(state.device_input(&DeviceEvent::Other), None);
}

#[test]
fn keys_ask_for_effects_when_pressed() {
    let mut state = started(1);
    assert_eq!(press(&mut state, KeyCode::KeyC), InputEffect::ResetCamera);
    assert_eq!(
        press(&mut state, KeyCode::NumpadAdd),
        InputEffect::ScaleGravity { factor: 1.05f32.to_bits() }
    );
    assert_eq!(
        press(&mut state, KeyCode::NumpadSubtract),
        InputEffect::ScaleGravity { factor: 0.95f32.to_bits() }
    );
    assert_eq!(press(&mut state, KeyCode::Other), InputEffect::Nothing);
    for key in [KeyCode::KeyC, KeyCode::NumpadAdd, KeyCode::NumpadSubtract, KeyCode::KeyR] {
        assert_eq!(release(&mut state, key), InputEffect::Nothing);
    }
    assert_eq!(state.uniforms, started(1).uniforms);
}

#[test]
fn switches_undo_themselves() {
    let mut state = started(1);
    assert_eq!(press(&mut state, KeyCode::KeyU), InputEffect::Nothing);
    assert!(state.suspend_updates);
    release(&mut state, KeyCode::KeyU);
    assert!(state.suspend_updates);
    press(&mut state, KeyCode::KeyU);
    assert!(!state.suspend_updates);
    press(&mut state, KeyCode::KeyG);
    assert!(state.growing);
    release(&mut state, KeyCode::KeyG);
    press(&mut state, KeyCode::KeyG);
    assert!(!state.growing);
}

#[test]
fn printing_lasts_while_the_key_is_held() {
    let mut state = started(1);
    press(&mut state, KeyCode::KeyP);
    assert!(state.print);
    press(&mut state, KeyCode::KeyP);
    assert!(state.print);
    release(&mut state, KeyCode::KeyP);
    assert!(!state.print);
}

#[test]
fn printing_follows_its_key_through_everything_else() {
    let mut state = started(1);
    press(&mut state, KeyCode::KeyP);
    press(&mut state, KeyCode::KeyG);
    release(&mut state, KeyCode::KeyG);
    state.resize(PhysicalSize { width: 3, height: 4 });
    assert!(state.update(&frame_input()).report.is_some());
    drawn(&mut state);
    assert!(state.update(&frame_input()).report.is_some());
    release(&mut state, KeyCode::KeyP);
    press(&mut state, KeyCode::KeyR);
    assert!(state.update(&frame_input()).report.is_none());
}

#[test]
fn switches_count_presses_through_everything_else() {
    let mut state = started(1);
    for pressed in 1..6 {
        press(&mut state, KeyCode::KeyG);
        release(&mut state, KeyCode::KeyG);
        press(&mut state, KeyCode::KeyU);
        state.update(&frame_input());
        drawn(&mut state);
        assert_eq!(state.growing, pressed % 2 == 1);
        assert_eq!(state.suspend_updates, pressed % 2 == 1);
    }
}

#[test]
fn surface_follows_the_window_through_everything_else() {
    let mut state = started(1);
    state.resize(PhysicalSize { width: 1, height: 2 });
    state.update(&frame_input());
    state.resize(PhysicalSize { width: 3, height: 4 });
    drawn(&mut state);
    press(&mut state, KeyCode::KeyC);
    assert_eq!((state.surface_config.width, state.surface_config.height), (3, 4));
    assert!(state.surface_config.usage.render_attachment);
}

#[test]
fn words_of_masses_follow_one_another() {
    let masses =
        vec![Vector4 { x: 1, y: 2, z: 3, w: 4 }, Vector4 { x: 5, y: 6, z: 7, w: 0x0102_0304 }];
    assert_eq!(words_of(&masses), vec![1, 2, 3, 4, 5, 6, 7, 0x0102_0304]);
    assert!(words_of(&vec![]).is_empty());
}

#[test]
fn mass_bytes_are_in_the_order_of_the_machine() {
    let mut state = started(1);
    state.masses[1].x = 0x0102_0304;
    assert_eq!(state.mass_bytes()[16..20], 0x0102_0304u32.to_ne_bytes());
}

#[test]
fn copies_start_at_the_buffer_of_the_last_drawn_frame() {
    let mut state = started(2000);
    state.update(&frame_input());
    drawn(&mut state);
    let at_draw = state.particle_buffer;
    for request in [5000u32, 20_000] {
        state.uniforms.n_particles_requested = request;
        state.update(&frame_input());
        state.render(SurfaceStatus::Timeout);
    }
    assert_eq!(state.jobs[0].source, at_draw.id);
    assert_eq!(state.jobs[0].size, at_draw.size);
    assert!(state.jobs.iter().all(|job| job.source >= at_draw.id));
    assert_eq!(state.jobs[1].destination, state.particle_buffer.id);
}

#[test]
fn other_events_are_left_to_others() {
    let mut state = started(1);
    let response = state.input(&WindowEvent::Other);
    assert!(!response.handled);
    assert_eq!(response.effect, InputEffect::Nothing);
    assert_eq!(state.uniforms, started(1).uniforms);
}

#[test]
fn update_uploads_before_it_counts() {
    let mut state = started(300);
    let update = state.update(&frame_input());
    let bytes = &update.uniform_bytes;
    assert_eq!(bytes.len(), 128);
    assert_eq!(word_at(bytes, 0), 9);
    assert_eq!(word_at(bytes, 16), 4);
    assert_eq!(word_at(bytes, REQUESTED_WORD), 300);
    assert_eq!(word_at(bytes, PARTICLES_WORD), 0);
    assert_eq!(word_at(bytes, 19), 2.5f32.to_bits());
    assert_eq!(word_at(bytes, 20), 0.016f32.to_bits());
    assert_eq!(word_at(bytes, FRAME_WORD), 0);
    assert_eq!([word_at(bytes, 24), word_at(bytes, 25), word_at(bytes, 26)], [1, 2, 3]);
    assert_eq!(word_at(bytes, 27), 0);
    assert_eq!([word_at(bytes, 28), word_at(bytes, 29), word_at(bytes, 30)], [4, 5, 6]);
    assert_eq!(state.uniforms.n_particles, 256);
    assert_eq!(state.uniforms.frame, 1);
    assert_eq!(update.report, None);
    assert!(update.growth.is_none());
}

#[test]
fn uploads_fill_their_buffers() {
    let mut state = started(1);
    let update = state.update(&frame_input());
    assert_eq!(update.uniform_bytes.len() as u64, BufferRole::Uniforms.first_plan().size);
    assert_eq!(update.mass_bytes.len() as u64, BufferRole::Masses.first_plan().size);
}

#[test]
fn requested_particles_fit_in_the_buffer() {
    let mut state = started(70_000);
    for _ in 0..3 {
        let update = state.update(&frame_input());
        let requested = word_at(&update.uniform_bytes, REQUESTED_WORD) as u64;
        assert!(8 + 32 * requested < state.particle_buffer.size);
        assert!(8 + 32 * (state.uniforms.n_particles as u64) < state.particle_buffer.size);
    }
}

#[test]
fn masses_move_in_their_plane() {
    let mut state = started(1);
    let before = state.masses.clone();
    let update = state.update(&frame_input());
    for i in 0..4 {
        assert_eq!(
            state.masses[i],
            Vector4 { x: 10 + i as u32, z: 20 + i as u32, ..before[i] }
        );
        assert_eq!(word_at(&update.mass_bytes, 4 * i), 10 + i as u32);
        assert_eq!(word_at(&update.mass_bytes, 4 * i + 2), 20 + i as u32);
        assert_eq!(word_at(&update.mass_bytes, 4 * i + 3), before[i].w);
    }
    assert_eq!(update.mass_bytes.len(), 64);
}

#[test]
fn population_reaches_the_request_and_stays() {
    let mut state = started(600);
    let mut seen = Vec::new();
    for _ in 0..5 {
        state.update(&frame_input());
        seen.push(state.uniforms.n_particles);
    }
    assert_eq!(seen, vec![256, 512, 600, 600, 600]);
    assert_eq!(state.uniforms.frame, 5);
}

#[test]
fn population_does_not_mind_what_happens_between_updates() {
    let mut state = started(600);
    state.update(&frame_input());
    press(&mut state, KeyCode::KeyU);
    state.resize(PhysicalSize { width: 3, height: 4 });
    state.update(&frame_input());
    drawn(&mut state);
    release(&mut state, KeyCode::KeyG);
    press(&mut state, KeyCode::KeyR);
    assert_eq!(state.uniforms.n_particles, 512);
    state.update(&frame_input());
    assert_eq!(state.uniforms.n_particles, 600);
    assert_eq!(state.uniforms.frame, 3);
}

#[test]
fn reset_and_push_wait_for_the_next_update() {
    let mut state = started(1);
    press(&mut state, KeyCode::KeyR);
    press(&mut state, KeyCode::KeyB);
    release(&mut state, KeyCode::KeyR);
    state.resize(PhysicalSize { width: 3, height: 4 });
    drawn(&mut state);
    state.input(&WindowEvent::Other);
    let first = state.update(&frame_input());
    assert_eq!(word_at(&first.uniform_bytes, RESET_WORD), 1);
    assert_eq!(word_at(&first.uniform_bytes, PUSH_WORD), 1.0f32.to_bits());
    press(&mut state, KeyCode::KeyG);
    drawn(&mut state);
    let second = state.update(&frame_input());
    assert_eq!(word_at(&second.uniform_bytes, RESET_WORD), 0);
    assert_eq!(word_at(&second.uniform_bytes, PUSH_WORD), 0);
}

#[test]
fn growing_adds_one_and_forgets_the_request() {
    let mut state = started(100_000);
    state.update(&frame_input());
    assert_eq!(state.uniforms.n_particles, 256);
    press(&mut state, KeyCode::KeyG);
    let update = state.update(&frame_input());
    assert_eq!(word_at(&update.uniform_bytes, REQUESTED_WORD), 257);
    assert_eq!(state.uniforms.n_particles, 257);
    assert_eq!(state.uniforms.n_particles_requested, 257);
    state.update(&frame_input());
    assert_eq!(state.uniforms.n_particles, 258);
}

#[test]
fn reset_and_push_last_one_frame() {
    let mut state = started(1);
    press(&mut state, KeyCode::KeyR);
    press(&mut state, KeyCode::KeyB);
    assert_eq!(state.uniforms.push, ONE);
    let first = state.update(&frame_input());
    assert_eq!(word_at(&first.uniform_bytes, RESET_WORD), 1);
    assert_eq!(word_at(&first.uniform_bytes, PUSH_WORD), 1.0f32.to_bits());
    let second = state.update(&frame_input());
    assert_eq!(word_at(&second.uniform_bytes, RESET_WORD), 0);
    assert_eq!(word_at(&second.uniform_bytes, PUSH_WORD), 0);
    assert_eq!(word_at(&second.uniform_bytes, FRAME_WORD), 1);
}

#[test]
fn report_shows_what_there_was_before_the_frame() {
    let mut state = started(10);
    press(&mut state, KeyCode::KeyP);
    let first = state.update(&frame_input());
    assert_eq!(first.report, Some(FrameReport { marker: '-', n_particles: 0 }));
    press(&mut state, KeyCode::KeyG);
    let second = state.update(&frame_input());
    assert_eq!(second.report, Some(FrameReport { marker: '+', n_particles: 10 }));
}

#[test]
fn buffer_grows_when_it_is_just_full() {
    let mut full = started(1024);
    let growth = full.grow_particles_buffer().unwrap();
    assert_eq!(growth.id, 1);
    assert_eq!(growth.plan.label, "particles buffer");
    assert_eq!(growth.plan.size, 32776 * 3 / 2);
    assert_eq!(
        growth.plan.usage,
        BufferUsage {
            uniform: false,
            storage: true,
            vertex: true,
            indirect: false,
            copy_src: true,
            copy_dst: true,
        }
    );
    assert_eq!(full.particle_buffer, ParticleBuffer { id: 1, size: 49164 });
    assert_eq!(full.jobs, vec![CopyJob { source: 0, destination: 1, size: 32776 }]);
    let rebound = BoundGroup { layout: GroupLayout::Particles, particle_buffer: 1 };
    assert_eq!(growth.group, rebound);
    assert_eq!(growth.group_label, "particles bind group");
    assert_eq!(full.particle_group, rebound);
    assert!(full.grow_particles_buffer().is_none());
    assert_eq!(full.particle_group, rebound);

    let mut roomy = started(1023);
    assert!(roomy.grow_particles_buffer().is_none());
    assert_eq!(roomy.particle_buffer, ParticleBuffer { id: 0, size: 32776 });
    assert_eq!(
        roomy.particle_group,
        BoundGroup { layout: GroupLayout::Particles, particle_buffer: 0 }
    );
}

#[test]
fn growth_leaves_headroom_for_half_as_many_again() {
    let mut state = started(2000);
    assert!(state.grow_particles_buffer().is_some());
    state.uniforms.n_particles_requested = 3000;
    assert!(state.grow_particles_buffer().is_none());
    state.uniforms.n_particles_requested = 3001;
    assert!(state.grow_particles_buffer().is_some());
}

#[test]
fn largest_request_gets_a_buffer_beyond_four_gigabytes() {
    let mut state = started(134_217_727);
    let growth = state.grow_particles_buffer().unwrap();
    assert_eq!(growth.plan.size, 6_442_450_908);
}

fn run(memory: &mut Vec<Vec<u8>>, jobs: &[CopyJob]) {
    for job in jobs {
        let carried = memory[job.source as usize][..job.size as usize].to_vec();
        memory[job.destination as usize][..job.size as usize].copy_from_slice(&carried);
    }
}

#[test]
fn particles_survive_growth_while_no_frame_is_drawn() {
    let mut state = started(2000);
    let first: Vec<u8> = (0..32776u32).map(|i| (i % 251) as u8).collect();
    let mut memory = vec![first.clone()];
    for request in [2000u32, 5000, 20_000] {
        state.uniforms.n_particles_requested = request;
        let growth = state.update(&frame_input()).growth.unwrap();
        assert_eq!(growth.id as usize, memory.len());
        memory.push(vec![0u8; growth.plan.size as usize]);
        assert_eq!(state.particle_group.particle_buffer, state.particle_buffer.id);
        match state.render(SurfaceStatus::Occluded) {
            RenderAction::Skip => {}
            other => panic!("not skipped: {:?}", other),
        }
    }
    let plan = drawn(&mut state);
    assert_eq!(plan.copies.len(), 3);
    for job in &plan.copies {
        assert_eq!(job.size % 4, 0);
        assert!(job.size as usize <= memory[job.source as usize].len());
        assert!(job.size as usize <= memory[job.destination as usize].len());
    }
    run(&mut memory, &plan.copies);
    assert_eq!(memory[3][..32776], first[..]);
    assert!(drawn(&mut state).copies.is_empty());
}

#[test]
fn unavailable_surface_leaves_the_frame_out() {
    let mut state = started(2000);
    state.update(&frame_input());
    let jobs = state.jobs.clone();
    assert_eq!(jobs.len(), 1);
    for status in [SurfaceStatus::Suboptimal, SurfaceStatus::Outdated] {
        assert!(matches!(state.render(status), RenderAction::Reconfigure));
    }
    for status in [SurfaceStatus::Timeout, SurfaceStatus::Occluded] {
        assert!(matches!(state.render(status), RenderAction::Skip));
    }
    assert_eq!(state.jobs, jobs);
}

#[test]
fn frame_moves_then_draws_particles_then_masses() {
    let mut state = started(300);
    state.update(&frame_input());
    let plan = drawn(&mut state);
    assert!(plan.copies.is_empty());
    assert_eq!(
        plan.attachments.clear_color,
        Color {
            red: 0.0f64.to_bits(),
            green: 0.0f64.to_bits(),
            blue: 0.0f64.to_bits(),
            alpha: 0.0f64.to_bits(),
        }
    );
    assert_eq!(plan.attachments.clear_depth, 1.0f32.to_bits());
    assert!(plan.attachments.store_color && plan.attachments.store_depth);
    assert_eq!(
        plan.compute,
        vec![
            PassCommand::SetPipeline { pipeline: Pipeline::Compute },
            PassCommand::SetBindGroup { slot: 0, group: BindGroup::Uniforms },
            PassCommand::SetBindGroup { slot: 1, group: BindGroup::Particles },
            PassCommand::SetBindGroup { slot: 2, group: BindGroup::Masses },
            PassCommand::Dispatch { x: 2, y: 1, z: 1 },
        ]
    );
    let mesh = |model: ModelKind, index: usize, material: usize, own: BindGroup| {
        vec![
            PassCommand::SetVertexBuffer { model, mesh: index },
            PassCommand::SetIndexBuffer { model, mesh: index },
            PassCommand::SetBindGroup {
                slot: 0,
                group: BindGroup::Material { model, material },
            },
            PassCommand::SetBindGroup { slot: 1, group: BindGroup::Uniforms },
            PassCommand::SetBindGroup { slot: 2, group: own },
        ]
    };
    let mut expected = vec![PassCommand::SetPipeline { pipeline: Pipeline::Particles }];
    expected.extend(mesh(ModelKind::Particles, 0, 0, BindGroup::Particles));
    expected.push(PassCommand::DrawIndexed { indices: 6, instances: 256 });
    expected.push(PassCommand::SetPipeline { pipeline: Pipeline::Masses });
    expected.extend(mesh(ModelKind::Masses, 0, 1, BindGroup::Masses));
    expected.push(PassCommand::DrawIndexed { indices: 30, instances: 4 });
    expected.extend(mesh(ModelKind::Masses, 1, 0, BindGroup::Masses));
    expected.push(PassCommand::DrawIndexed { indices: 36, instances: 4 });
    assert_eq!(plan.render, expected);
}

#[test]
fn workgroups_cover_every_particle() {
    for (request, frames, groups) in [(0, 1, 1), (255, 1, 1), (256, 1, 2), (600, 3, 3)] {
        let mut state = started(request);
        for _ in 0..frames {
            state.update(&frame_input());
        }
        let plan = drawn(&mut state);
        assert_eq!(plan.compute[4], PassCommand::Dispatch { x: groups, y: 1, z: 1 });
    }
}

#[test]
fn models_must_have_the_materials_they_wear() {
    let meshes = || vec![Mesh { material: 0, num_elements: 3 }, Mesh { material: 2, num_elements: 3 }];
    assert!(ModelInfo { meshes: meshes(), materials: 3 }.is_dressed());
    assert!(!ModelInfo { meshes: meshes(), materials: 2 }.is_dressed());
    assert!(ModelInfo { meshes: vec![], materials: 0 }.is_dressed());
}
