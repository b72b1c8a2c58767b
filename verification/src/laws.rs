//! What holds of the simulation over more than one step.

use vstd::prelude::*;

use crate::buffers::BufferRole;
use crate::buffers::MASS_COUNT;
use crate::buffers::PARTICLE_SIZE;
use crate::events::ElementState;
use crate::events::FrameGiven;
use crate::events::KeyCode;
use crate::events::PhysicalSize;
use crate::events::SurfaceStatus;
use crate::events::WindowEvent;
use crate::growth::holds_buffers;
use crate::growth::law_buffer_never_shrinks;
use crate::growth::law_growth_keeps_order;
use crate::growth::law_growth_loses_nothing;
use crate::growth::law_particle_group_binds_whole_buffers;
use crate::growth::required_size;
use crate::growth::run_copies;
use crate::growth::Memory;
use crate::layout::BufferBinding;
use crate::state::mass_words;
use crate::state::response_to;
use crate::state::Simulation;
use crate::state::PARTICLES_PER_FRAME;
use crate::vector::ONE;
use crate::vector::ZERO;

verus! {

/// One thing that happens to the simulation.
pub enum Step {
    Input(WindowEvent),
    Resize(PhysicalSize),
    Update(FrameGiven),
    Render(SurfaceStatus),
}

impl Simulation {
    /// Whether a step may be taken.
    pub open spec fn can_take(self, step: Step) -> bool {
        match step {
            Step::Input(_) | Step::Resize(_) => true,
            Step::Update(given) => self.can_update() && given.orbit.len() == MASS_COUNT,
            Step::Render(status) => {
                &&& status !is Lost
                &&& status !is Validation
                &&& status is Success ==> self.is_dressed()
            },
        }
    }

    /// The simulation after a step.
    pub open spec fn after_step(self, step: Step) -> Simulation {
        match step {
            Step::Input(event) => self.after_input(event),
            Step::Resize(size) => self.after_resize(size),
            Step::Update(given) => self.after_update(given),
            Step::Render(status) => self.after_render(status),
        }
    }

    /// Whether steps may be taken one after another.
    pub open spec fn can_take_all(self, steps: Seq<Step>) -> bool
        decreases steps.len(),
    {
        steps.len() == 0 || {
            &&& self.can_take_all(steps.drop_last())
            &&& self.after_steps(steps.drop_last()).can_take(steps.last())
        }
    }

    /// The simulation after steps, one after another.
    pub open spec fn after_steps(self, steps: Seq<Step>) -> Simulation
        decreases steps.len(),
    {
        if steps.len() == 0 {
            self
        } else {
            self.after_steps(steps.drop_last()).after_step(steps.last())
        }
    }
}

/// How many of the steps are updates.
pub open spec fn updates_in(steps: Seq<Step>) -> nat
    decreases steps.len(),
{
    if steps.len() == 0 {
        0
    } else if steps.last() is Update {
        updates_in(steps.drop_last()) + 1
    } else {
        updates_in(steps.drop_last())
    }
}

/// None of the steps is the key going down.
pub open spec fn never_pressed(steps: Seq<Step>, key: KeyCode) -> bool {
    forall|i: int|
        0 <= i < steps.len() ==> #[trigger] steps[i] != Step::Input(
            WindowEvent::KeyboardInput { state: ElementState::Pressed, key },
        )
}

proof fn lemma_never_pressed_before(steps: Seq<Step>, key: KeyCode)
    requires
        never_pressed(steps, key),
        steps.len() > 0,
    ensures
        never_pressed(steps.drop_last(), key),
        steps.last() != Step::Input(
            WindowEvent::KeyboardInput { state: ElementState::Pressed, key },
        ),
{
    assert forall|i: int| 0 <= i < steps.drop_last().len() implies #[trigger] steps.drop_last()[i]
        != Step::Input(WindowEvent::KeyboardInput { state: ElementState::Pressed, key }) by {
        assert(steps.drop_last()[i] == steps[i]);
    }
    assert(steps[steps.len() - 1] == steps.last());
}

/// Every step keeps the simulation valid, keeps the height and the scale of
/// every mass, and never makes the particle buffer smaller.
pub proof fn law_step_keeps_simulation(s: Simulation, step: Step)
    requires
        s.is_valid(),
        s.can_take(step),
    ensures
        s.after_step(step).is_valid(),
        s.after_step(step).buffer.size >= s.buffer.size,
        s.after_step(step).masses.len() == s.masses.len(),
        forall|i: int|
            #![trigger s.masses[i]]
            0 <= i < s.masses.len() ==> {
                &&& s.after_step(step).masses[i].y == s.masses[i].y
                &&& s.after_step(step).masses[i].w == s.masses[i].w
            },
{
    if step is Update {
        law_growth_keeps_order(s.jobs, s.buffer, s.next_request());
        law_buffer_never_shrinks(s.buffer, s.next_request());
    }
}

/// So does every history.
pub proof fn law_history_keeps_simulation(s: Simulation, steps: Seq<Step>)
    requires
        s.is_valid(),
        s.can_take_all(steps),
    ensures
        s.after_steps(steps).is_valid(),
        s.after_steps(steps).buffer.size >= s.buffer.size,
        s.after_steps(steps).masses.len() == s.masses.len(),
        forall|i: int|
            #![trigger s.masses[i]]
            0 <= i < s.masses.len() ==> {
                &&& s.after_steps(steps).masses[i].y == s.masses[i].y
                &&& s.after_steps(steps).masses[i].w == s.masses[i].w
            },
    decreases steps.len(),
{
    if steps.len() > 0 {
        law_history_keeps_simulation(s, steps.drop_last());
        let before = s.after_steps(steps.drop_last());
        law_step_keeps_simulation(before, steps.last());
        assert forall|i: int| 0 <= i < s.masses.len() implies {
            &&& s.after_steps(steps).masses[i].y == (#[trigger] s.masses[i]).y
            &&& s.after_steps(steps).masses[i].w == s.masses[i].w
        } by {
            assert(before.masses[i].y == s.masses[i].y);
        }
    }
}

/// Every particle that is drawn lies inside the particle buffer.
pub proof fn law_drawn_particles_lie_in_buffer(s: Simulation, p: int)
    requires
        s.is_valid(),
        0 <= p < s.uniforms.n_particles,
    ensures
        required_size(p) + PARTICLE_SIZE <= s.buffer.size,
{
}

/// Every update uploads its own frame's gravity, time, camera and random numbers,
/// whatever the state was before; two states that are given the same frame upload
/// the same of these.
pub proof fn law_upload_takes_frame_values(s: Simulation, other: Simulation, given: FrameGiven)
    ensures
        s.uploaded(given).g == given.g,
        s.uploaded(given).delta_time == given.delta_time,
        s.uploaded(given).view_proj == given.view_proj,
        s.uploaded(given).cam_pos == given.cam_pos,
        s.uploaded(given).random == given.random,
        s.uploaded(given).g == other.uploaded(given).g,
        s.uploaded(given).delta_time == other.uploaded(given).delta_time,
        s.uploaded(given).view_proj == other.uploaded(given).view_proj,
        s.uploaded(given).cam_pos == other.uploaded(given).cam_pos,
        s.uploaded(given).random == other.uploaded(given).random,
{
}

/// Every update uploads the state's own counts and flags as they were before it.
pub proof fn law_upload_takes_state_values(s: Simulation, given: FrameGiven)
    requires
        s.is_valid(),
        s.can_update(),
    ensures
        s.uploaded(given).n_masses == s.masses.len(),
        s.uploaded(given).n_particles == s.uniforms.n_particles,
        s.growing ==> s.uploaded(given).n_particles_requested == s.uniforms.n_particles + 1,
        !s.growing ==> s.uploaded(given).n_particles_requested == s.uniforms.n_particles_requested,
        s.uploaded(given).push == s.uniforms.push,
        s.uploaded(given).reset == s.uniforms.reset,
        s.uploaded(given).frame == s.uniforms.frame,
        s.uploaded(given).padding == 0,
        s.uploaded(given).padding2 == 0,
{
}

/// Gravity is scaled exactly when one of its keys goes down, and the camera is
/// reset exactly when its key goes down; any other event asks for nothing.
pub proof fn law_each_effect_has_its_key(event: WindowEvent)
    ensures
        ({
            let down = event is KeyboardInput && event->state is Pressed;
            let effect = response_to(event).effect;
            &&& effect is ResetCamera <==> down && event->key is KeyC
            &&& effect is ScaleGravity <==> down && (event->key is NumpadAdd
                || event->key is NumpadSubtract)
            &&& down && event->key is NumpadAdd ==> effect->factor == 0x3f86_6666
            &&& down && event->key is NumpadSubtract ==> effect->factor == 0x3f73_3333
            &&& !(effect is ResetCamera) && !(effect is ScaleGravity) ==> effect is Nothing
            &&& response_to(event).handled <==> event is KeyboardInput
        }),
{
}

/// The particles that a frame asks the shaders for fit in the particle buffer
/// that it leaves in use.
pub proof fn law_requested_particles_fit_in_buffer(s: Simulation, given: FrameGiven)
    requires
        s.is_valid(),
        s.can_update(),
    ensures
        required_size(s.uploaded(given).n_particles_requested as int) < s.after_update(
            given,
        ).buffer.size,
        s.uploaded(given).n_particles <= s.after_update(given).uniforms.n_particles
            <= s.uploaded(given).n_particles_requested,
{
    law_growth_keeps_order(s.jobs, s.buffer, s.next_request());
}

/// What a frame uploads exactly fills the buffers that it is written to, which
/// may be written to; and it counts every mass.
pub proof fn law_uploads_fill_their_buffers(s: Simulation, given: FrameGiven)
    requires
        s.is_valid(),
    ensures
        4 * s.uploaded(given).words().len() == BufferRole::Uniforms.first_size(),
        4 * mass_words(s.after_update(given).masses).len() == BufferRole::Masses.first_size(),
        BufferRole::Uniforms.first_usage().copy_dst,
        BufferRole::Masses.first_usage().copy_dst,
        s.uploaded(given).n_masses == MASS_COUNT,
{
}

/// Whatever happens, the shaders see the particle buffer in use, never one that
/// was replaced, with the random buffer beside it, each of them whole.
pub proof fn law_shaders_see_buffer_in_use(s: Simulation, steps: Seq<Step>)
    requires
        s.is_valid(),
        s.can_take_all(steps),
    ensures
        ({
            let after = s.after_steps(steps);
            &&& after.group.particle_buffer == after.buffer.id
            &&& after.group.layout.buffers() == seq![
                BufferBinding { binding: 0, buffer: BufferRole::Particles, offset: 0, size: None },
                BufferBinding { binding: 1, buffer: BufferRole::Random, offset: 0, size: None },
            ]
        }),
{
    law_history_keeps_simulation(s, steps);
    law_particle_group_binds_whole_buffers(s.after_steps(steps).buffer);
}

/// Making room, whether or not the buffer is replaced, leaves the shaders with
/// the buffer in use under the same layout, and changes nothing but the buffer,
/// its group and the pending copies.
pub proof fn law_growth_rebinds_buffer_in_use(s: Simulation)
    requires
        s.is_valid(),
        required_size(s.uniforms.n_particles_requested as int) <= u32::MAX,
    ensures
        s.after_growth().group.particle_buffer == s.after_growth().buffer.id,
        s.after_growth().group.layout == s.group.layout,
        s.after_growth() == (Simulation {
            buffer: s.after_growth().buffer,
            group: s.after_growth().group,
            jobs: s.after_growth().jobs,
            ..s
        }),
{
}

/// While the number of particles is not growing, updates bring it up to what
/// was asked for, by a fixed number in each frame and never past it, whatever
/// else happens between them. The updates number the frames, and another one may
/// be made until the numbers run out, as long as room can be made at all.
pub proof fn law_population_reaches_request(s: Simulation, steps: Seq<Step>)
    requires
        s.is_valid(),
        !s.growing,
        s.can_take_all(steps),
        never_pressed(steps, KeyCode::KeyG),
    ensures
        ({
            let after = s.after_steps(steps);
            let most = s.uniforms.n_particles + PARTICLES_PER_FRAME * updates_in(steps);
            &&& after.uniforms.n_particles == if s.uniforms.n_particles_requested < most {
                s.uniforms.n_particles_requested as int
            } else {
                most
            }
            &&& after.uniforms.n_particles_requested == s.uniforms.n_particles_requested
            &&& after.uniforms.frame == s.uniforms.frame + updates_in(steps)
            &&& !after.growing
            &&& required_size(s.uniforms.n_particles_requested as int) <= u32::MAX
                && after.uniforms.frame < u32::MAX ==> after.can_update()
        }),
    decreases steps.len(),
{
    if steps.len() > 0 {
        lemma_never_pressed_before(steps, KeyCode::KeyG);
        law_population_reaches_request(s, steps.drop_last());
    }
}

/// While the number of particles is growing, each update adds one, whatever else
/// happens between them, and asks for no more than there then are.
pub proof fn law_growing_adds_one_per_frame(s: Simulation, steps: Seq<Step>)
    requires
        s.is_valid(),
        s.growing,
        s.can_take_all(steps),
        never_pressed(steps, KeyCode::KeyG),
    ensures
        ({
            let after = s.after_steps(steps);
            &&& after.uniforms.n_particles == s.uniforms.n_particles + updates_in(steps)
            &&& updates_in(steps) > 0 ==> after.uniforms.n_particles_requested
                == after.uniforms.n_particles
            &&& after.uniforms.frame == s.uniforms.frame + updates_in(steps)
            &&& after.growing
        }),
    decreases steps.len(),
{
    if steps.len() > 0 {
        lemma_never_pressed_before(steps, KeyCode::KeyG);
        law_growing_adds_one_per_frame(s, steps.drop_last());
    }
}

proof fn lemma_flags_wait_for_update(s: Simulation, steps: Seq<Step>)
    requires
        updates_in(steps) == 0,
    ensures
        s.uniforms.reset == 1 ==> s.after_steps(steps).uniforms.reset == 1,
        s.uniforms.push == ONE ==> s.after_steps(steps).uniforms.push == ONE,
    decreases steps.len(),
{
    if steps.len() > 0 {
        lemma_flags_wait_for_update(s, steps.drop_last());
    }
}

proof fn lemma_reset_stays_off(s: Simulation, steps: Seq<Step>)
    requires
        s.uniforms.reset == 0,
        never_pressed(steps, KeyCode::KeyR),
    ensures
        s.after_steps(steps).uniforms.reset == 0,
    decreases steps.len(),
{
    if steps.len() > 0 {
        lemma_never_pressed_before(steps, KeyCode::KeyR);
        lemma_reset_stays_off(s, steps.drop_last());
    }
}

proof fn lemma_push_stays_off(s: Simulation, steps: Seq<Step>)
    requires
        s.uniforms.push == ZERO,
        never_pressed(steps, KeyCode::KeyB),
    ensures
        s.after_steps(steps).uniforms.push == ZERO,
    decreases steps.len(),
{
    if steps.len() > 0 {
        lemma_never_pressed_before(steps, KeyCode::KeyB);
        lemma_push_stays_off(s, steps.drop_last());
    }
}

/// A reset that was asked for is uploaded by the next update, whatever happens
/// until then, and by no later one until it is asked for again.
pub proof fn law_reset_lasts_one_frame(
    s: Simulation,
    until: Seq<Step>,
    first: FrameGiven,
    since: Seq<Step>,
    later: FrameGiven,
)
    requires
        updates_in(until) == 0,
        never_pressed(since, KeyCode::KeyR),
    ensures
        ({
            let asked = s.after_key(ElementState::Pressed, KeyCode::KeyR).after_steps(until);
            &&& asked.uploaded(first).reset == 1
            &&& asked.after_update(first).after_steps(since).uploaded(later).reset == 0
        }),
{
    let pressed = s.after_key(ElementState::Pressed, KeyCode::KeyR);
    lemma_flags_wait_for_update(pressed, until);
    lemma_reset_stays_off(pressed.after_steps(until).after_update(first), since);
}

/// A push that was asked for is uploaded by the next update, whatever happens
/// until then, and by no later one until it is asked for again.
pub proof fn law_push_lasts_one_frame(
    s: Simulation,
    until: Seq<Step>,
    first: FrameGiven,
    since: Seq<Step>,
    later: FrameGiven,
)
    requires
        updates_in(until) == 0,
        never_pressed(since, KeyCode::KeyB),
    ensures
        ({
            let asked = s.after_key(ElementState::Pressed, KeyCode::KeyB).after_steps(until);
            &&& asked.uploaded(first).push == ONE
            &&& asked.after_update(first).after_steps(since).uploaded(later).push == ZERO
        }),
{
    let pressed = s.after_key(ElementState::Pressed, KeyCode::KeyB);
    lemma_flags_wait_for_update(pressed, until);
    lemma_push_stays_off(pressed.after_steps(until).after_update(first), since);
}

/// The last thing that happened to the key in the steps, if anything did.
pub open spec fn last_of_key(steps: Seq<Step>, key: KeyCode) -> Option<ElementState>
    decreases steps.len(),
{
    if steps.len() == 0 {
        None
    } else {
        match steps.last() {
            Step::Input(WindowEvent::KeyboardInput { state, key: touched }) if touched == key =>
                Some(state),
            _ => last_of_key(steps.drop_last(), key),
        }
    }
}

/// How often the key went down in the steps.
pub open spec fn presses_in(steps: Seq<Step>, key: KeyCode) -> nat
    decreases steps.len(),
{
    if steps.len() == 0 {
        0
    } else if steps.last() == Step::Input(
        WindowEvent::KeyboardInput { state: ElementState::Pressed, key },
    ) {
        presses_in(steps.drop_last(), key) + 1
    } else {
        presses_in(steps.drop_last(), key)
    }
}

/// The last size that the window took on in the steps, if it took on any.
pub open spec fn last_size(steps: Seq<Step>) -> Option<PhysicalSize>
    decreases steps.len(),
{
    if steps.len() == 0 {
        None
    } else {
        match steps.last() {
            Step::Resize(size) => Some(size),
            _ => last_size(steps.drop_last()),
        }
    }
}

/// Whatever happens, lines are printed exactly when the last thing that happened
/// to their key was that it went down; until something does, nothing changes.
pub proof fn law_printing_follows_its_key(s: Simulation, steps: Seq<Step>)
    ensures
        s.after_steps(steps).print == match last_of_key(steps, KeyCode::KeyP) {
            Some(state) => state == ElementState::Pressed,
            None => s.print,
        },
    decreases steps.len(),
{
    if steps.len() > 0 {
        law_printing_follows_its_key(s, steps.drop_last());
    }
}

/// Whatever happens, a switch is over exactly when its key went down an odd
/// number of times.
pub proof fn law_switches_count_presses(s: Simulation, steps: Seq<Step>)
    ensures
        s.after_steps(steps).growing == (s.growing != (presses_in(steps, KeyCode::KeyG) % 2 == 1)),
        s.after_steps(steps).suspend_updates == (s.suspend_updates != (presses_in(
            steps,
            KeyCode::KeyU,
        ) % 2 == 1)),
    decreases steps.len(),
{
    if steps.len() > 0 {
        law_switches_count_presses(s, steps.drop_last());
    }
}

/// Whatever happens, the surface has the last size that the window took on, and
/// is otherwise set up as at first.
pub proof fn law_surface_follows_window(s: Simulation, steps: Seq<Step>)
    ensures
        s.after_steps(steps).setup == match last_size(steps) {
            Some(size) => s.after_resize(size).setup,
            None => s.setup,
        },
    decreases steps.len(),
{
    if steps.len() > 0 {
        law_surface_follows_window(s, steps.drop_last());
    }
}

/// Pressing one of the switches twice leaves everything as it was.
pub proof fn law_switches_undo_themselves(s: Simulation, key: KeyCode)
    requires
        key is KeyG || key is KeyU,
    ensures
        s.after_key(ElementState::Pressed, key).after_key(ElementState::Pressed, key) == s,
{
}

/// Letting go of a key changes nothing but whether lines are printed, and that
/// only for the key that prints them while it is held.
pub proof fn law_release_only_stops_printing(s: Simulation, key: KeyCode)
    ensures
        key !is KeyP ==> s.after_key(ElementState::Released, key) == s,
        s.after_key(ElementState::Pressed, KeyCode::KeyP).print,
        s.after_key(ElementState::Released, KeyCode::KeyP) == (Simulation { print: false, ..s }),
{
}

/// An event that is not handled changes nothing.
pub proof fn law_unhandled_input_changes_nothing(s: Simulation, event: WindowEvent)
    requires
        !response_to(event).handled,
    ensures
        s.after_input(event) == s,
{
}

/// Only the last size of the window counts.
pub proof fn law_last_resize_counts(s: Simulation, a: PhysicalSize, b: PhysicalSize)
    ensures
        s.after_resize(a).after_resize(b) == s.after_resize(b),
{
}

/// Room made once need not be made again.
pub proof fn law_growth_is_idempotent(s: Simulation)
    requires
        s.is_valid(),
        required_size(s.uniforms.n_particles_requested as int) <= u32::MAX,
    ensures
        s.after_growth().after_growth() == s.after_growth(),
{
    law_growth_keeps_order(s.jobs, s.buffer, s.uniforms.n_particles_requested as int);
}

/// A frame that is left out keeps the pending copies for the next one; a frame
/// that is drawn leaves none behind.
pub proof fn law_copies_wait_for_a_drawn_frame(s: Simulation, status: SurfaceStatus)
    ensures
        status !is Success ==> s.after_render(status) == s,
        status is Success ==> s.after_render(status).jobs.len() == 0,
{
}

/// The pending copies start at the buffer that was in use at the last drawn
/// frame, take all of it, and lead up to the one now in use; no older buffer is
/// needed again.
pub proof fn law_copies_start_where_drawn(s: Simulation, steps: Seq<Step>)
    requires
        s.is_valid(),
        s.jobs.len() == 0,
        s.can_take_all(steps),
        forall|i: int| 0 <= i < steps.len() ==> #[trigger] steps[i] != Step::Render(
            SurfaceStatus::Success,
        ),
    ensures
        ({
            let after = s.after_steps(steps);
            if after.jobs.len() == 0 {
                after.buffer == s.buffer
            } else {
                after.jobs[0].source == s.buffer.id && after.jobs[0].size == s.buffer.size
            }
        }),
        forall|i: int|
            #![trigger s.after_steps(steps).jobs[i]]
            0 <= i < s.after_steps(steps).jobs.len() ==> {
                &&& s.buffer.id <= s.after_steps(steps).jobs[i].source
                &&& s.after_steps(steps).jobs[i].destination <= s.after_steps(steps).buffer.id
            },
    decreases steps.len(),
{
    if steps.len() > 0 {
        let earlier = steps.drop_last();
        assert forall|i: int| 0 <= i < earlier.len() implies #[trigger] earlier[i] != Step::Render(
            SurfaceStatus::Success,
        ) by {
            assert(earlier[i] == steps[i]);
        }
        law_copies_start_where_drawn(s, earlier);
        law_history_keeps_simulation(s, earlier);
        let before = s.after_steps(earlier);
        let after = before.after_step(steps.last());
        assert(steps[steps.len() - 1] == steps.last());
        if before.jobs.len() > 0 && after.jobs.len() > 0 {
            assert(after.jobs[0] == before.jobs[0]);
        }
    }
    law_history_keeps_simulation(s, steps);
    let after = s.after_steps(steps);
    if after.jobs.len() > 0 {
        assert(after.jobs[0].source == after.buffer.id - after.jobs.len());
    }
}

/// No particle is lost between two drawn frames, whatever happens in between:
/// once the copies of the later frame have run, the buffer then in use begins
/// with all that the buffer held that was in use at the earlier one.
pub proof fn law_particles_survive_until_drawn(s: Simulation, steps: Seq<Step>, memory: Memory)
    requires
        s.is_valid(),
        s.jobs.len() == 0,
        s.can_take_all(steps),
        forall|i: int| 0 <= i < steps.len() ==> #[trigger] steps[i] != Step::Render(
            SurfaceStatus::Success,
        ),
        memory[s.buffer.id].len() == s.buffer.size,
        holds_buffers(memory, s.after_steps(steps).jobs, s.after_steps(steps).buffer),
    ensures
        ({
            let after = s.after_steps(steps);
            let drawn = run_copies(memory, after.jobs)[after.buffer.id];
            &&& drawn.len() == after.buffer.size
            &&& drawn.take(s.buffer.size as int) == memory[s.buffer.id]
        }),
{
    law_copies_start_where_drawn(s, steps);
    law_history_keeps_simulation(s, steps);
    let after = s.after_steps(steps);
    if after.jobs.len() > 0 {
        law_growth_loses_nothing(memory, after.jobs, after.buffer);
    } else {
        assert(run_copies(memory, after.jobs) == memory);
        assert(memory[s.buffer.id].take(s.buffer.size as int) == memory[s.buffer.id]);
    }
}

} // verus!
