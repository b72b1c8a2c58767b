//! What a call of each operation of the state gives, said of what it was called
//! with and of what it leaves behind.

use vstd::prelude::*;

use crate::bytes::is_stored;
use crate::events::DeviceEvent;
use crate::events::FrameInput;
use crate::events::FrameUpdate;
use crate::events::InputResponse;
use crate::events::MouseDelta;
use crate::events::PhysicalSize;
use crate::events::RenderAction;
use crate::events::SurfaceStatus;
use crate::events::WindowEvent;
use crate::frame::law_each_mesh_is_drawn_once;
use crate::frame::mesh_commands;
use crate::frame::meshes_commands;
use crate::frame::BindGroup;
use crate::frame::Mesh;
use crate::frame::ModelInfo;
use crate::frame::PassCommand;
use crate::growth::carry_over;
use crate::growth::grown_size;
use crate::growth::must_grow;
use crate::growth::required_size;
use crate::growth::BoundGroup;
use crate::growth::BufferGrowth;
use crate::growth::CopyJob;
use crate::layout::GroupLayout;
use crate::layout::Pipeline;
use crate::pipeline::ModelKind;
use crate::state::mass_words;
use crate::state::words_of;
use crate::state::State;
use crate::surface::SurfaceConfig;
use crate::uniforms::Uniforms;
use crate::vector::Matrix4;
use crate::vector::Vector3;
use crate::vector::Vector4;

verus! {

/// The state starts with the request, the camera's projection, four masses at
/// rest in the center, an empty queue, the first particle buffer behind the
/// shaders, and every switch off.
pub proof fn law_start(
    config: SurfaceConfig,
    particle_number: i32,
    view_proj: Matrix4,
    particle_model: ModelInfo,
    mass_model: ModelInfo,
    state: State,
)
    requires
        call_ensures(
            State::new,
            (config, particle_number, view_proj, particle_model, mass_model),
            state,
        ),
    ensures
        state.surface_config@ == config@,
        state.particle_model@ == particle_model@,
        state.mass_model@ == mass_model@,
        state.uniforms.view_proj == view_proj,
        particle_number >= 0 ==> state.uniforms.n_particles_requested == particle_number,
        particle_number < 0 ==> state.uniforms.n_particles_requested == particle_number
            + 4294967296,
        state.uniforms.n_masses == 0,
        state.uniforms.n_particles == 0,
        state.uniforms.g == 0,
        state.uniforms.delta_time == 0,
        state.uniforms.push == 0,
        state.uniforms.reset == 0,
        state.uniforms.frame == 0,
        state.uniforms.cam_pos == (Vector3 { x: 0, y: 0, z: 0 }),
        state.uniforms.padding == 0,
        state.uniforms.random == (Vector3 { x: 0, y: 0, z: 0 }),
        state.uniforms.padding2 == 0,
        state.masses@.len() == 4,
        forall|i: int|
            0 <= i < 4 ==> {
                &&& (#[trigger] state.masses@[i]).x == 0
                &&& state.masses@[i].y == 0
                &&& state.masses@[i].z == 0
            },
        state.masses@[0].w == 0xbc23_d70a,
        state.masses@[1].w == 0x3da3_d70a,
        state.masses@[2].w == 0xbcf5_c28f,
        state.masses@[3].w == 0x3d8f_5c29,
        state.particle_buffer.id == 0,
        state.particle_buffer.size == 8 + 1024 * 32,
        state.particle_group == (BoundGroup { layout: GroupLayout::Particles, particle_buffer: 0 }),
        state.jobs@.len() == 0,
        !state.print,
        !state.growing,
        !state.suspend_updates,
        state@.is_valid(),
{
}

/// What a valid state has: no more particles than were asked for, all of them
/// inside the particle buffer, which is the one that the shaders see; copies
/// that lead up to it; four masses; flags that are up or down; and clear
/// paddings.
pub proof fn law_valid_state(state: State)
    requires
        state@.is_valid(),
    ensures
        state.uniforms.n_particles <= state.uniforms.n_particles_requested,
        8 + 32 * state.uniforms.n_particles < state.particle_buffer.size,
        state.particle_buffer.size >= 8 + 1024 * 32,
        state.particle_buffer.size % 4 == 0,
        state.particle_buffer.id <= state.particle_buffer.size,
        state.particle_group.layout == GroupLayout::Particles,
        state.particle_group.particle_buffer == state.particle_buffer.id,
        state.jobs@.len() > 0 ==> state.jobs@.last().destination == state.particle_buffer.id,
        forall|i: int|
            0 <= i < state.jobs@.len() ==> {
                &&& (#[trigger] state.jobs@[i]).destination == state.jobs@[i].source + 1
                &&& state.jobs@[i].size % 4 == 0
                &&& 0 < state.jobs@[i].size < state.particle_buffer.size
            },
        forall|i: int, j: int|
            0 <= i < j < state.jobs@.len() ==> {
                &&& (#[trigger] state.jobs@[j]).source - (#[trigger] state.jobs@[i]).source == j - i
                &&& state.jobs@[i].size < state.jobs@[j].size
            },
        state.masses@.len() == 4,
        state.uniforms.reset == 0 || state.uniforms.reset == 1,
        state.uniforms.push == 0 || state.uniforms.push == 0x3f80_0000,
        state.uniforms.padding == 0,
        state.uniforms.padding2 == 0,
{
    if state.jobs@.len() > 0 {
        assert(state.jobs@.last() == state.jobs@[state.jobs@.len() - 1]);
    }
}

/// What the contracts call the parts of a state are its fields.
pub proof fn law_state_model(state: State)
    ensures
        state@.setup == state.surface_config@,
        state@.uniforms == state.uniforms,
        state@.masses == state.masses@,
        state@.buffer == state.particle_buffer,
        state@.group == state.particle_group,
        state@.jobs == state.jobs@,
        state@.particle_model.meshes == state.particle_model.meshes@,
        state@.particle_model.materials == state.particle_model.materials,
        state@.mass_model.meshes == state.mass_model.meshes@,
        state@.mass_model.materials == state.mass_model.materials,
        state@.print == state.print,
        state@.growing == state.growing,
        state@.suspend_updates == state.suspend_updates,
        state@.setup.usage == state.surface_config.usage,
        state@.setup.format == state.surface_config.format,
        state@.setup.width == state.surface_config.width,
        state@.setup.height == state.surface_config.height,
        state@.setup.present_mode == state.surface_config.present_mode,
        state@.setup.alpha_mode == state.surface_config.alpha_mode,
        state@.setup.view_formats == state.surface_config.view_formats@,
        state@.setup.desired_maximum_frame_latency
            == state.surface_config.desired_maximum_frame_latency,
{
}

/// A new size is taken over, and nothing else changes.
pub proof fn law_resize(state: &mut State, size: PhysicalSize)
    requires
        call_ensures(State::resize, (state, size), ()),
    ensures
        final(state)@.setup.width == size.width,
        final(state)@.setup.height == size.height,
        final(state)@.setup.usage == old(state)@.setup.usage,
        final(state)@.setup.format == old(state)@.setup.format,
        final(state)@.setup.present_mode == old(state)@.setup.present_mode,
        final(state)@.setup.alpha_mode == old(state)@.setup.alpha_mode,
        final(state)@.setup.view_formats == old(state)@.setup.view_formats,
        final(state)@.setup.desired_maximum_frame_latency
            == old(state)@.setup.desired_maximum_frame_latency,
        final(state)@.uniforms == old(state)@.uniforms,
        final(state)@.masses == old(state)@.masses,
        final(state)@.buffer == old(state)@.buffer,
        final(state)@.group == old(state)@.group,
        final(state)@.jobs == old(state)@.jobs,
        final(state)@.particle_model == old(state)@.particle_model,
        final(state)@.mass_model == old(state)@.mass_model,
        final(state)@.print == old(state)@.print,
        final(state)@.growing == old(state)@.growing,
        final(state)@.suspend_updates == old(state)@.suspend_updates,
{
}

/// The camera turns exactly when the mouse moved, and by as much.
pub proof fn law_device_input(state: &State, event: &DeviceEvent, turn: Option<MouseDelta>)
    requires
        call_ensures(State::device_input, (state, event), turn),
    ensures
        turn is Some <==> *event is MouseMotion,
        *event is MouseMotion ==> turn == Some(event->delta),
{
}

/// What a key asks for: gravity is scaled exactly when one of the two gravity
/// keys goes down, up by the one and down by the other; the camera is reset
/// exactly when its key goes down. Every event of the keyboard is handled, and
/// no other.
pub proof fn law_input_response(state: &mut State, event: &WindowEvent, response: InputResponse)
    requires
        call_ensures(State::input, (state, event), response),
    ensures
        response.handled <==> *event is KeyboardInput,
        response.effect is ResetCamera <==> (*event is KeyboardInput && event->state is Pressed
            && event->key is KeyC),
        response.effect is ScaleGravity <==> (*event is KeyboardInput && event->state is Pressed
            && (event->key is NumpadAdd || event->key is NumpadSubtract)),
        response.effect is ScaleGravity && event->key is NumpadAdd ==> response.effect->factor
            == 0x3f86_6666,
        response.effect is ScaleGravity && event->key is NumpadSubtract ==> response.effect->factor
            == 0x3f73_3333,
        response.effect is Nothing <==> !(response.effect is ResetCamera)
            && !(response.effect is ScaleGravity),
{
}

/// What a key changes: each switch turns over exactly when its own key goes
/// down, each flag goes up exactly when its own key goes down, printing follows
/// its own key, and nothing else changes.
pub proof fn law_input_changes(state: &mut State, event: &WindowEvent, response: InputResponse)
    requires
        call_ensures(State::input, (state, event), response),
    ensures
        ({
            let down = *event is KeyboardInput && event->state is Pressed;
            &&& final(state)@.growing != old(state)@.growing <==> down && event->key is KeyG
            &&& final(state)@.suspend_updates != old(state)@.suspend_updates <==> down
                && event->key is KeyU
            &&& down && event->key is KeyR ==> final(state)@.uniforms.reset == 1
            &&& !(down && event->key is KeyR) ==> final(state)@.uniforms.reset
                == old(state)@.uniforms.reset
            &&& down && event->key is KeyB ==> final(state)@.uniforms.push == 0x3f80_0000
            &&& !(down && event->key is KeyB) ==> final(state)@.uniforms.push
                == old(state)@.uniforms.push
            &&& *event is KeyboardInput && event->key is KeyP ==> final(state)@.print == down
            &&& !(*event is KeyboardInput && event->key is KeyP) ==> final(state)@.print
                == old(state)@.print
        }),
        final(state)@.uniforms == (Uniforms {
            reset: final(state)@.uniforms.reset,
            push: final(state)@.uniforms.push,
            ..old(state)@.uniforms
        }),
        final(state)@.setup == old(state)@.setup,
        final(state)@.masses == old(state)@.masses,
        final(state)@.buffer == old(state)@.buffer,
        final(state)@.group == old(state)@.group,
        final(state)@.jobs == old(state)@.jobs,
        final(state)@.particle_model == old(state)@.particle_model,
        final(state)@.mass_model == old(state)@.mass_model,
        old(state)@.is_valid() ==> final(state)@.is_valid(),
{
}

/// Making room: a larger buffer is asked for exactly when the particles asked
/// for leave no room to spare. It is the buffer that the state goes on with, by
/// number and by size; it is half as large again as the particles need; it is
/// bound in place of the old one; and the whole of the old one is copied to it.
/// Otherwise nothing changes. Either way there is then room to spare.
#[verifier::spinoff_prover]
#[verifier::rlimit(40)]
pub proof fn law_growth(state: &mut State, growth: Option<BufferGrowth>)
    requires
        call_ensures(State::grow_particles_buffer, (state,), growth),
        old(state)@.is_valid(),
        8 + 32 * old(state)@.uniforms.n_particles_requested <= 4294967295,
    ensures
        ({
            let need = 8 + 32 * old(state)@.uniforms.n_particles_requested;
            &&& growth is Some <==> need >= old(state)@.buffer.size
            &&& need < final(state)@.buffer.size
            &&& growth is Some ==> 2 * final(state)@.buffer.size == 3 * need
        }),
        growth matches Some(growth) ==> {
            &&& growth.plan.size == final(state)@.buffer.size
            &&& growth.id == final(state)@.buffer.id
            &&& growth.id == old(state)@.buffer.id + 1
            &&& growth.plan.label@ == "particles buffer"@
            &&& growth.plan.usage.storage && growth.plan.usage.vertex
            &&& growth.plan.usage.copy_src && growth.plan.usage.copy_dst
            &&& !growth.plan.usage.uniform && !growth.plan.usage.indirect
            &&& growth.group == final(state)@.group
            &&& growth.group.layout == GroupLayout::Particles
            &&& growth.group.particle_buffer == growth.id
            &&& growth.group_label@ == "particles bind group"@
            &&& final(state)@.jobs == old(state)@.jobs.push(
                CopyJob {
                    source: old(state)@.buffer.id,
                    destination: growth.id,
                    size: old(state)@.buffer.size,
                },
            )
        },
        growth is None ==> {
            &&& final(state)@.buffer == old(state)@.buffer
            &&& final(state)@.group == old(state)@.group
            &&& final(state)@.jobs == old(state)@.jobs
        },
        final(state)@.setup == old(state)@.setup,
        final(state)@.uniforms == old(state)@.uniforms,
        final(state)@.masses == old(state)@.masses,
        final(state)@.particle_model == old(state)@.particle_model,
        final(state)@.mass_model == old(state)@.mass_model,
        final(state)@.print == old(state)@.print,
        final(state)@.growing == old(state)@.growing,
        final(state)@.suspend_updates == old(state)@.suspend_updates,
        final(state)@.is_valid(),
{
    let n = old(state)@.uniforms.n_particles_requested as int;
    assert(required_size(n) == 8 + 32 * n);
    assert(grown_size(n) == 12 + 48 * n);
    let after = old(state)@.after_growth();
    assert(final(state)@ == after);
    assert(must_grow(old(state)@.buffer, n) ==> after.jobs == old(state)@.jobs.push(
        carry_over(old(state)@.buffer, n),
    ));
}

/// An update may be made exactly when the particles that it asks for can be
/// addressed and there is another frame number.
pub proof fn law_can_update(state: &State, can: bool)
    requires
        call_ensures(State::can_update, (state,), can),
    ensures
        can <==> {
            &&& state.uniforms.frame < 4294967295
            &&& state.growing ==> 8 + 32 * (state.uniforms.n_particles + 1) <= 4294967295
            &&& !state.growing ==> 8 + 32 * state.uniforms.n_particles_requested <= 4294967295
        },
{
}

/// What an update uploads: this frame's own gravity, time, camera and random
/// numbers, whatever came before; the particles there are and those asked for;
/// the flags as they stand; and the number of the frame.
#[verifier::spinoff_prover]
pub proof fn law_update_uploads(state: &mut State, input: &FrameInput, update: FrameUpdate)
    requires
        call_ensures(State::update, (state, input), update),
        old(state)@.is_valid(),
        old(state)@.can_update(),
        input.orbit@.len() == 4,
    ensures
        is_stored(
            update.uniform_bytes@,
            (Uniforms {
                view_proj: input.view_proj,
                n_masses: 4,
                n_particles_requested: if old(state)@.growing {
                    (old(state)@.uniforms.n_particles + 1) as u32
                } else {
                    old(state)@.uniforms.n_particles_requested
                },
                n_particles: old(state)@.uniforms.n_particles,
                g: input.g,
                delta_time: input.delta_time,
                push: old(state)@.uniforms.push,
                reset: old(state)@.uniforms.reset,
                frame: old(state)@.uniforms.frame,
                cam_pos: input.cam_pos,
                padding: 0,
                random: input.random,
                padding2: 0,
            }).words(),
        ),
        is_stored(
            update.mass_bytes@,
            seq![
                input.orbit@[0].x,
                old(state)@.masses[0].y,
                input.orbit@[0].z,
                old(state)@.masses[0].w,
                input.orbit@[1].x,
                old(state)@.masses[1].y,
                input.orbit@[1].z,
                old(state)@.masses[1].w,
                input.orbit@[2].x,
                old(state)@.masses[2].y,
                input.orbit@[2].z,
                old(state)@.masses[2].w,
                input.orbit@[3].x,
                old(state)@.masses[3].y,
                input.orbit@[3].z,
                old(state)@.masses[3].w,
            ],
        ),
        old(state)@.print <==> update.report is Some,
        update.report matches Some(report) ==> {
            &&& report.n_particles == old(state)@.uniforms.n_particles
            &&& old(state)@.growing ==> report.marker == '+'
            &&& !old(state)@.growing ==> report.marker == '-'
        },
{
    assert(mass_words(final(state)@.masses) =~= seq![
        input.orbit@[0].x,
        old(state)@.masses[0].y,
        input.orbit@[0].z,
        old(state)@.masses[0].w,
        input.orbit@[1].x,
        old(state)@.masses[1].y,
        input.orbit@[1].z,
        old(state)@.masses[1].w,
        input.orbit@[2].x,
        old(state)@.masses[2].y,
        input.orbit@[2].z,
        old(state)@.masses[2].w,
        input.orbit@[3].x,
        old(state)@.masses[3].y,
        input.orbit@[3].z,
        old(state)@.masses[3].w,
    ]);
}

/// What an update leaves behind: the frame's own values; one particle more while
/// growing, else as many as were asked for but at most 256 more; the flags down;
/// the next frame number; every mass moved in its plane; and the rest as it was.
pub proof fn law_update_changes(state: &mut State, input: &FrameInput, update: FrameUpdate)
    requires
        call_ensures(State::update, (state, input), update),
        old(state)@.is_valid(),
        old(state)@.can_update(),
        input.orbit@.len() == 4,
    ensures
        final(state)@.uniforms.view_proj == input.view_proj,
        final(state)@.uniforms.n_masses == 4,
        final(state)@.uniforms.g == input.g,
        final(state)@.uniforms.delta_time == input.delta_time,
        final(state)@.uniforms.cam_pos == input.cam_pos,
        final(state)@.uniforms.random == input.random,
        final(state)@.uniforms.push == 0,
        final(state)@.uniforms.reset == 0,
        final(state)@.uniforms.frame == old(state)@.uniforms.frame + 1,
        final(state)@.uniforms.padding == 0,
        final(state)@.uniforms.padding2 == 0,
        old(state)@.growing ==> {
            &&& final(state)@.uniforms.n_particles == old(state)@.uniforms.n_particles + 1
            &&& final(state)@.uniforms.n_particles_requested == old(state)@.uniforms.n_particles + 1
        },
        !old(state)@.growing ==> {
            &&& final(state)@.uniforms.n_particles_requested
                == old(state)@.uniforms.n_particles_requested
            &&& final(state)@.uniforms.n_particles <= old(state)@.uniforms.n_particles_requested
            &&& final(state)@.uniforms.n_particles <= old(state)@.uniforms.n_particles + 256
            &&& final(state)@.uniforms.n_particles == old(state)@.uniforms.n_particles_requested
                || final(state)@.uniforms.n_particles == old(state)@.uniforms.n_particles + 256
        },
        final(state)@.masses.len() == 4,
        forall|i: int|
            #![trigger final(state)@.masses[i]]
            0 <= i < 4 ==> {
                &&& final(state)@.masses[i].x == input.orbit@[i].x
                &&& final(state)@.masses[i].y == old(state)@.masses[i].y
                &&& final(state)@.masses[i].z == input.orbit@[i].z
                &&& final(state)@.masses[i].w == old(state)@.masses[i].w
            },
        final(state)@.setup == old(state)@.setup,
        final(state)@.particle_model == old(state)@.particle_model,
        final(state)@.mass_model == old(state)@.mass_model,
        final(state)@.print == old(state)@.print,
        final(state)@.growing == old(state)@.growing,
        final(state)@.suspend_updates == old(state)@.suspend_updates,
        final(state)@.is_valid(),
{
}

/// How an update makes room: as making room does, for the particles that the
/// update itself asks for.
#[verifier::spinoff_prover]
pub proof fn law_update_makes_room(state: &mut State, input: &FrameInput, update: FrameUpdate)
    requires
        call_ensures(State::update, (state, input), update),
        old(state)@.is_valid(),
        old(state)@.can_update(),
        input.orbit@.len() == 4,
    ensures
        ({
            let need = 8 + 32 * final(state)@.uniforms.n_particles_requested;
            &&& update.growth is Some <==> need >= old(state)@.buffer.size
            &&& need < final(state)@.buffer.size
            &&& update.growth is Some ==> 2 * final(state)@.buffer.size == 3 * need
        }),
        update.growth matches Some(growth) ==> {
            &&& growth.plan.size == final(state)@.buffer.size
            &&& growth.id == final(state)@.buffer.id
            &&& growth.id == old(state)@.buffer.id + 1
            &&& growth.plan.label@ == "particles buffer"@
            &&& growth.plan.usage.storage && growth.plan.usage.vertex
            &&& growth.plan.usage.copy_src && growth.plan.usage.copy_dst
            &&& !growth.plan.usage.uniform && !growth.plan.usage.indirect
            &&& growth.group == final(state)@.group
            &&& growth.group.layout == GroupLayout::Particles
            &&& growth.group.particle_buffer == growth.id
            &&& growth.group_label@ == "particles bind group"@
            &&& final(state)@.jobs == old(state)@.jobs.push(
                CopyJob {
                    source: old(state)@.buffer.id,
                    destination: growth.id,
                    size: old(state)@.buffer.size,
                },
            )
        },
        update.growth is None ==> {
            &&& final(state)@.buffer == old(state)@.buffer
            &&& final(state)@.group == old(state)@.group
            &&& final(state)@.jobs == old(state)@.jobs
        },
{
}

/// The bytes of the uniforms and of the masses are those of their words.
pub proof fn law_bytes_of_state(
    state: &State,
    uniform_bytes: Vec<u8>,
    mass_bytes: Vec<u8>,
    uniform_words: Vec<u32>,
    mass_words: Vec<u32>,
)
    requires
        call_ensures(State::uniform_bytes, (state,), uniform_bytes),
        call_ensures(State::mass_bytes, (state,), mass_bytes),
        call_ensures(Uniforms::to_words, (&state.uniforms,), uniform_words),
        call_ensures(words_of, (&state.masses,), mass_words),
    ensures
        is_stored(uniform_bytes@, uniform_words@),
        is_stored(mass_bytes@, mass_words@),
{
}

/// The words of the masses: four for each, in their order.
pub proof fn law_words_of_masses(masses: &Vec<Vector4>, words: Vec<u32>)
    requires
        call_ensures(words_of, (masses,), words),
    ensures
        words@.len() == 4 * masses@.len(),
        forall|i: int|
            #![trigger masses@[i]]
            0 <= i < masses@.len() ==> {
                &&& words@[4 * i] == masses@[i].x
                &&& words@[4 * i + 1] == masses@[i].y
                &&& words@[4 * i + 2] == masses@[i].z
                &&& words@[4 * i + 3] == masses@[i].w
            },
{
    assert forall|i: int| #![trigger masses@[i]] 0 <= i < masses@.len() implies {
        &&& words@[4 * i] == masses@[i].x
        &&& words@[4 * i + 1] == masses@[i].y
        &&& words@[4 * i + 2] == masses@[i].z
        &&& words@[4 * i + 3] == masses@[i].w
    } by {
        assert((4 * i) / 4 == i && (4 * i) % 4 == 0);
        assert((4 * i + 1) / 4 == i && (4 * i + 1) % 4 == 1);
        assert((4 * i + 2) / 4 == i && (4 * i + 2) % 4 == 2);
        assert((4 * i + 3) / 4 == i && (4 * i + 3) % 4 == 3);
    }
}

/// When a frame is drawn, left out, or left out with the surface set up again;
/// a drawn frame takes the pending copies along, and otherwise nothing changes.
pub proof fn law_render(state: &mut State, status: SurfaceStatus, action: RenderAction)
    requires
        call_ensures(State::render, (state, status), action),
        !(status is Lost),
        !(status is Validation),
    ensures
        action is Draw <==> status is Success,
        action is Reconfigure <==> status is Suboptimal || status is Outdated,
        action is Skip <==> status is Timeout || status is Occluded,
        action matches RenderAction::Draw(plan) ==> {
            &&& plan.copies@ == old(state)@.jobs
            &&& final(state)@.jobs.len() == 0
            &&& plan.attachments.clear_color.red == 0
            &&& plan.attachments.clear_color.green == 0
            &&& plan.attachments.clear_color.blue == 0
            &&& plan.attachments.clear_color.alpha == 0
            &&& plan.attachments.clear_depth == 0x3f80_0000
            &&& plan.attachments.store_color
            &&& plan.attachments.store_depth
        },
        !(action is Draw) ==> final(state)@.jobs == old(state)@.jobs,
        final(state)@.setup == old(state)@.setup,
        final(state)@.uniforms == old(state)@.uniforms,
        final(state)@.masses == old(state)@.masses,
        final(state)@.buffer == old(state)@.buffer,
        final(state)@.group == old(state)@.group,
        final(state)@.particle_model == old(state)@.particle_model,
        final(state)@.mass_model == old(state)@.mass_model,
        final(state)@.print == old(state)@.print,
        final(state)@.growing == old(state)@.growing,
        final(state)@.suspend_updates == old(state)@.suspend_updates,
        final(state)@.is_valid(),
{
}

/// A drawn frame moves the particles in one dispatch, with a group of 256 for
/// every particle there is: the uniforms, the particles and the masses stand in
/// the first three slots of the compute pipeline.
pub proof fn law_frame_moves_every_particle(
    state: &mut State,
    status: SurfaceStatus,
    action: RenderAction,
)
    requires
        call_ensures(State::render, (state, status), action),
        status is Success,
    ensures
        action matches RenderAction::Draw(plan) && {
            &&& plan.compute@.len() == 5
            &&& plan.compute@[0] == (PassCommand::SetPipeline { pipeline: Pipeline::Compute })
            &&& plan.compute@[1] == (PassCommand::SetBindGroup {
                slot: 0,
                group: BindGroup::Uniforms,
            })
            &&& plan.compute@[2] == (PassCommand::SetBindGroup {
                slot: 1,
                group: BindGroup::Particles,
            })
            &&& plan.compute@[3] == (PassCommand::SetBindGroup { slot: 2, group: BindGroup::Masses })
            &&& plan.compute@[4] matches PassCommand::Dispatch { x, y, z } && {
                &&& y == 1
                &&& z == 1
                &&& old(state)@.uniforms.n_particles < 256 * x
                &&& 256 * (x - 1) <= old(state)@.uniforms.n_particles
            }
        },
{
}

proof fn lemma_mesh_at(
    model: ModelKind,
    meshes: Seq<Mesh>,
    instances: u32,
    own: BindGroup,
    i: int,
)
    requires
        0 <= i < meshes.len() <= usize::MAX,
        model is Particles ==> own == BindGroup::Particles,
        model is Masses ==> own == BindGroup::Masses,
    ensures
        meshes_commands(model, meshes, instances).len() == 6 * meshes.len(),
        ({
            let c = meshes_commands(model, meshes, instances);
            &&& c[6 * i] == (PassCommand::SetVertexBuffer { model, mesh: i as usize })
            &&& c[6 * i + 1] == (PassCommand::SetIndexBuffer { model, mesh: i as usize })
            &&& c[6 * i + 2] == (PassCommand::SetBindGroup {
                slot: 0,
                group: BindGroup::Material { model, material: meshes[i].material },
            })
            &&& c[6 * i + 3] == (PassCommand::SetBindGroup { slot: 1, group: BindGroup::Uniforms })
            &&& c[6 * i + 4] == (PassCommand::SetBindGroup { slot: 2, group: own })
            &&& c[6 * i + 5] == (PassCommand::DrawIndexed {
                indices: meshes[i].num_elements,
                instances,
            })
        }),
{
    law_each_mesh_is_drawn_once(model, meshes, instances, i);
    let c = meshes_commands(model, meshes, instances);
    let part = c.subrange(6 * i, 6 * i + 6);
    assert(part == mesh_commands(model, i, meshes[i], instances));
    assert(part[0] == c[6 * i]);
    assert(part[1] == c[6 * i + 1]);
    assert(part[2] == c[6 * i + 2]);
    assert(part[3] == c[6 * i + 3]);
    assert(part[4] == c[6 * i + 4]);
    assert(part[5] == c[6 * i + 5]);
}

/// A drawn frame draws every mesh of the particle model once for all the
/// particles there are, then every mesh of the mass model once for all the
/// masses: each with its own vertices, all of its own indices and its own
/// material, beside the uniforms and the buffer of its instances.
#[verifier::spinoff_prover]
#[verifier::rlimit(40)]
pub proof fn law_frame_draws_every_mesh(
    state: &mut State,
    status: SurfaceStatus,
    action: RenderAction,
    i: int,
)
    requires
        call_ensures(State::render, (state, status), action),
        status is Success,
        old(state)@.is_valid(),
        0 <= i,
    ensures
        action matches RenderAction::Draw(plan) && ({
            let particles = old(state).particle_model.meshes@;
            let masses = old(state).mass_model.meshes@;
            let n = old(state).uniforms.n_particles;
            let c = plan.render@;
            let k = 1 + 6 * i;
            let m = 2 + 6 * particles.len() + 6 * i;
            &&& c.len() == 2 + 6 * particles.len() + 6 * masses.len()
            &&& c[0] == (PassCommand::SetPipeline { pipeline: Pipeline::Particles })
            &&& c[1 + 6 * particles.len() as int] == (PassCommand::SetPipeline {
                pipeline: Pipeline::Masses,
            })
            &&& i < particles.len() ==> {
                &&& c[k] == (PassCommand::SetVertexBuffer {
                    model: ModelKind::Particles,
                    mesh: i as usize,
                })
                &&& c[k + 1] == (PassCommand::SetIndexBuffer {
                    model: ModelKind::Particles,
                    mesh: i as usize,
                })
                &&& c[k + 2] == (PassCommand::SetBindGroup {
                    slot: 0,
                    group: BindGroup::Material {
                        model: ModelKind::Particles,
                        material: particles[i].material,
                    },
                })
                &&& c[k + 3] == (PassCommand::SetBindGroup { slot: 1, group: BindGroup::Uniforms })
                &&& c[k + 4] == (PassCommand::SetBindGroup { slot: 2, group: BindGroup::Particles })
                &&& c[k + 5] == (PassCommand::DrawIndexed {
                    indices: particles[i].num_elements,
                    instances: n,
                })
            }
            &&& i < masses.len() ==> {
                &&& c[m] == (PassCommand::SetVertexBuffer {
                    model: ModelKind::Masses,
                    mesh: i as usize,
                })
                &&& c[m + 1] == (PassCommand::SetIndexBuffer {
                    model: ModelKind::Masses,
                    mesh: i as usize,
                })
                &&& c[m + 2] == (PassCommand::SetBindGroup {
                    slot: 0,
                    group: BindGroup::Material {
                        model: ModelKind::Masses,
                        material: masses[i].material,
                    },
                })
                &&& c[m + 3] == (PassCommand::SetBindGroup { slot: 1, group: BindGroup::Uniforms })
                &&& c[m + 4] == (PassCommand::SetBindGroup { slot: 2, group: BindGroup::Masses })
                &&& c[m + 5] == (PassCommand::DrawIndexed {
                    indices: masses[i].num_elements,
                    instances: 4,
                })
            }
        }),
{
    let particles = old(state).particle_model.meshes@;
    let masses = old(state).mass_model.meshes@;
    let n = old(state).uniforms.n_particles;
    vstd::std_specs::vec::axiom_spec_len(&old(state).particle_model.meshes);
    vstd::std_specs::vec::axiom_spec_len(&old(state).mass_model.meshes);
    let first = meshes_commands(ModelKind::Particles, particles, n);
    let second = meshes_commands(ModelKind::Masses, masses, 4);
    if particles.len() > 0 {
        let at = if i < particles.len() {
            i
        } else {
            0
        };
        lemma_mesh_at(ModelKind::Particles, particles, n, BindGroup::Particles, at);
    }
    if masses.len() > 0 {
        let at = if i < masses.len() {
            i
        } else {
            0
        };
        lemma_mesh_at(ModelKind::Masses, masses, 4, BindGroup::Masses, at);
    }
    assert(first.len() == 6 * particles.len());
    assert(second.len() == 6 * masses.len());
}

/// Every draw of a drawn frame takes all the particles there are while the
/// particle model is drawn, and all the masses while the mass model is.
#[verifier::spinoff_prover]
#[verifier::rlimit(40)]
pub proof fn law_every_draw_takes_all_instances(
    state: &mut State,
    status: SurfaceStatus,
    action: RenderAction,
    k: int,
)
    requires
        call_ensures(State::render, (state, status), action),
        status is Success,
        old(state)@.is_valid(),
        0 <= k < action->Draw_0.render@.len(),
        action->Draw_0.render@[k] is DrawIndexed,
    ensures
        k <= 6 * old(state).particle_model.meshes@.len() ==> action->Draw_0.render@[k]->instances
            == old(state).uniforms.n_particles,
        k > 6 * old(state).particle_model.meshes@.len() ==> action->Draw_0.render@[k]->instances
            == old(state).masses@.len(),
{
    let particles = old(state).particle_model.meshes@.len() as int;
    law_frame_draws_every_mesh(state, status, action, 0);
    if 1 <= k <= 6 * particles {
        let i = (k - 1) / 6;
        let r = (k - 1) % 6;
        assert(k == 1 + 6 * i + r && 0 <= r < 6 && 0 <= i < particles);
        law_frame_draws_every_mesh(state, status, action, i);
        assert(r == 0 || r == 1 || r == 2 || r == 3 || r == 4 || r == 5);
        assert(r == 5);
    } else if k >= 6 * particles + 2 {
        let i = (k - 2 - 6 * particles) / 6;
        let r = (k - 2 - 6 * particles) % 6;
        assert(k == 2 + 6 * particles + 6 * i + r && 0 <= r < 6 && 0 <= i);
        law_frame_draws_every_mesh(state, status, action, i);
        assert(i < old(state).mass_model.meshes@.len());
        assert(r == 0 || r == 1 || r == 2 || r == 3 || r == 4 || r == 5);
        assert(r == 5);
    }
}

} // verus!
