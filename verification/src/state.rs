//! The state of the simulation from one frame to the next.

use vstd::prelude::*;

use crate::buffers::BufferPlan;
use crate::buffers::BufferRole;
use crate::buffers::BufferUsage;
use crate::buffers::HEADER_SIZE;
use crate::buffers::MASS_COUNT;
use crate::buffers::PARTICLE_SIZE;
use crate::bytes::is_cast;
use crate::bytes::is_stored;
use crate::bytes::machine_bytes;
use crate::events::DeviceEvent;
use crate::events::ElementState;
use crate::events::FrameGiven;
use crate::events::FrameInput;
use crate::events::FrameReport;
use crate::events::FrameUpdate;
use crate::events::InputEffect;
use crate::events::InputResponse;
use crate::events::KeyCode;
use crate::events::MouseDelta;
use crate::events::OrbitPoint;
use crate::events::PhysicalSize;
use crate::events::RenderAction;
use crate::events::SurfaceStatus;
use crate::events::WindowEvent;
use crate::frame::all_cleared;
use crate::frame::clear_all;
use crate::frame::compute_commands;
use crate::frame::compute_pass;
use crate::frame::render_commands;
use crate::frame::render_pass;
use crate::frame::FramePlan;
use crate::frame::ModelInfo;
use crate::frame::ModelShape;
use crate::growth::buffer_for;
use crate::growth::buffer_ok;
use crate::growth::group_over;
use crate::growth::is_growth_for;
use crate::growth::jobs_for;
use crate::growth::law_growth_keeps_order;
use crate::growth::leads_to;
use crate::growth::must_grow;
use crate::growth::required_size;
use crate::growth::BoundGroup;
use crate::growth::BufferGrowth;
use crate::growth::CopyJob;
use crate::growth::ParticleBuffer;
use crate::layout::GroupLayout;
use crate::surface::SurfaceConfig;
use crate::surface::SurfaceSetup;
use crate::uniforms::Uniforms;
use crate::vector::Matrix4;
use crate::vector::Vector4;
use crate::vector::ONE;
use crate::vector::ZERO;

verus! {

/// By how many particles a frame may come closer to the number asked for.
pub const PARTICLES_PER_FRAME: u32 = 256;

/// The bit pattern of `1.05`, by which gravity is raised.
pub const GRAVITY_UP: u32 = 0x3f86_6666;

/// The bit pattern of `0.95`, by which gravity is lowered.
pub const GRAVITY_DOWN: u32 = 0x3f73_3333;

/// The bit pattern of `-0.01`, the scale of the first mass.
pub const MASS_SCALE_0: u32 = 0xbc23_d70a;

/// The bit pattern of `0.08`, the scale of the second mass.
pub const MASS_SCALE_1: u32 = 0x3da3_d70a;

/// The bit pattern of `-0.03`, the scale of the third mass.
pub const MASS_SCALE_2: u32 = 0xbcf5_c28f;

/// The bit pattern of `0.07`, the scale of the fourth mass.
pub const MASS_SCALE_3: u32 = 0x3d8f_5c29;

/// The simulation, short of what lives on the GPU.
#[derive(Debug)]
pub struct State {
    pub surface_config: SurfaceConfig,
    pub uniforms: Uniforms,
    /// Position and scale of each mass.
    pub masses: Vec<Vector4>,
    pub particle_buffer: ParticleBuffer,
    /// The group through which the shaders see the particle buffer.
    pub particle_group: BoundGroup,
    /// The copies that the next frame begins with.
    pub jobs: Vec<CopyJob>,
    pub particle_model: ModelInfo,
    pub mass_model: ModelInfo,
    /// Whether each frame prints a line.
    pub print: bool,
    /// Whether each frame asks for one more particle.
    pub growing: bool,
    pub suspend_updates: bool,
}

/// The model of `State`.
#[verifier::ext_equal]
pub struct Simulation {
    pub setup: SurfaceSetup,
    pub uniforms: Uniforms,
    pub masses: Seq<Vector4>,
    pub buffer: ParticleBuffer,
    pub group: BoundGroup,
    pub jobs: Seq<CopyJob>,
    pub particle_model: ModelShape,
    pub mass_model: ModelShape,
    pub print: bool,
    pub growing: bool,
    pub suspend_updates: bool,
}

impl View for State {
    type V = Simulation;

    open spec fn view(&self) -> Simulation {
        Simulation {
            setup: self.surface_config@,
            uniforms: self.uniforms,
            masses: self.masses@,
            buffer: self.particle_buffer,
            group: self.particle_group,
            jobs: self.jobs@,
            particle_model: self.particle_model@,
            mass_model: self.mass_model@,
            print: self.print,
            growing: self.growing,
            suspend_updates: self.suspend_updates,
        }
    }
}

/// A mass that has not moved yet.
pub open spec fn mass_at_rest(scale: u32) -> Vector4 {
    Vector4 { x: ZERO, y: ZERO, z: ZERO, w: scale }
}

/// The masses before the first frame.
pub open spec fn first_masses() -> Seq<Vector4> {
    seq![
        mass_at_rest(MASS_SCALE_0),
        mass_at_rest(MASS_SCALE_1),
        mass_at_rest(MASS_SCALE_2),
        mass_at_rest(MASS_SCALE_3),
    ]
}

/// A mass that has moved in the plane of its orbit.
pub open spec fn moved(mass: Vector4, to: OrbitPoint) -> Vector4 {
    Vector4 { x: to.x, z: to.z, ..mass }
}

/// The masses after each has moved.
pub open spec fn all_moved(masses: Seq<Vector4>, orbit: Seq<OrbitPoint>) -> Seq<Vector4> {
    Seq::new(masses.len(), |i: int| moved(masses[i], orbit[i]))
}

/// The words of the masses in memory order.
pub open spec fn mass_words(masses: Seq<Vector4>) -> Seq<u32> {
    Seq::new(4 * masses.len(), |i: int| masses[i / 4].words()[i % 4])
}

/// The number of particles that `particle_number` asks for, modulo two to the
/// power of thirty-two.
pub open spec fn requested_particles(particle_number: i32) -> int {
    if particle_number >= 0 {
        particle_number as int
    } else {
        particle_number + 0x1_0000_0000
    }
}

/// What an event of the window is answered.
pub open spec fn response_to(event: WindowEvent) -> InputResponse {
    InputResponse {
        handled: event is KeyboardInput,
        effect: if event == (WindowEvent::KeyboardInput {
            state: ElementState::Pressed,
            key: KeyCode::KeyC,
        }) {
            InputEffect::ResetCamera
        } else if event == (WindowEvent::KeyboardInput {
            state: ElementState::Pressed,
            key: KeyCode::NumpadAdd,
        }) {
            InputEffect::ScaleGravity { factor: GRAVITY_UP }
        } else if event == (WindowEvent::KeyboardInput {
            state: ElementState::Pressed,
            key: KeyCode::NumpadSubtract,
        }) {
            InputEffect::ScaleGravity { factor: GRAVITY_DOWN }
        } else {
            InputEffect::Nothing
        },
    }
}

impl Simulation {
    /// The simulation before the first frame.
    pub open spec fn initial(
        setup: SurfaceSetup,
        particle_number: i32,
        view_proj: Matrix4,
        particle_model: ModelShape,
        mass_model: ModelShape,
    ) -> Simulation {
        Simulation {
            setup,
            uniforms: Uniforms {
                view_proj,
                n_particles_requested: requested_particles(particle_number) as u32,
                ..Uniforms::blank()
            },
            masses: first_masses(),
            buffer: ParticleBuffer { id: 0, size: BufferRole::Particles.first_size() as u64 },
            group: BoundGroup { layout: GroupLayout::Particles, particle_buffer: 0 },
            jobs: seq![],
            particle_model,
            mass_model,
            print: false,
            growing: false,
            suspend_updates: false,
        }
    }

    /// What holds of every simulation from its start on. Above all, every
    /// particle there is lies inside the particle buffer, and that is the buffer
    /// that the shaders see.
    pub open spec fn is_valid(self) -> bool {
        &&& self.uniforms.n_particles <= self.uniforms.n_particles_requested
        &&& required_size(self.uniforms.n_particles as int) < self.buffer.size
        &&& buffer_ok(self.buffer)
        &&& self.group == group_over(self.buffer)
        &&& leads_to(self.jobs, self.buffer)
        &&& self.masses.len() == MASS_COUNT
        &&& self.uniforms.reset == 0 || self.uniforms.reset == 1
        &&& self.uniforms.push == ZERO || self.uniforms.push == ONE
        &&& self.uniforms.padding == 0
        &&& self.uniforms.padding2 == 0
    }

    /// The simulation after a key went down or up.
    pub open spec fn after_key(self, state: ElementState, key: KeyCode) -> Simulation {
        match (state, key) {
            (ElementState::Pressed, KeyCode::KeyU) => Simulation {
                suspend_updates: !self.suspend_updates,
                ..self
            },
            (ElementState::Pressed, KeyCode::KeyG) => Simulation {
                growing: !self.growing,
                ..self
            },
            (ElementState::Pressed, KeyCode::KeyR) => Simulation {
                uniforms: Uniforms { reset: 1, ..self.uniforms },
                ..self
            },
            (ElementState::Pressed, KeyCode::KeyB) => Simulation {
                uniforms: Uniforms { push: ONE, ..self.uniforms },
                ..self
            },
            (_, KeyCode::KeyP) => Simulation { print: state == ElementState::Pressed, ..self },
            _ => self,
        }
    }

    /// The simulation after an event of the window.
    pub open spec fn after_input(self, event: WindowEvent) -> Simulation {
        match event {
            WindowEvent::KeyboardInput { state, key } => self.after_key(state, key),
            WindowEvent::Other => self,
        }
    }

    /// The simulation after the window took on another size.
    pub open spec fn after_resize(self, size: PhysicalSize) -> Simulation {
        Simulation {
            setup: SurfaceSetup { width: size.width, height: size.height, ..self.setup },
            ..self
        }
    }

    /// The simulation after room was made for the particles asked for.
    pub open spec fn after_growth(self) -> Simulation {
        let n = self.uniforms.n_particles_requested as int;
        Simulation {
            buffer: buffer_for(self.buffer, n),
            group: if must_grow(self.buffer, n) {
                group_over(buffer_for(self.buffer, n))
            } else {
                self.group
            },
            jobs: jobs_for(self.jobs, self.buffer, n),
            ..self
        }
    }

    /// How many particles the next frame asks for.
    pub open spec fn next_request(self) -> int {
        if self.growing {
            self.uniforms.n_particles + 1
        } else {
            self.uniforms.n_particles_requested as int
        }
    }

    /// Whether the next frame's counters stay in range: the frame number, and
    /// the bytes that the particles asked for need.
    pub open spec fn can_update(self) -> bool {
        &&& required_size(self.next_request()) <= u32::MAX
        &&& self.uniforms.frame < u32::MAX
    }

    /// How many particles there are after the next frame: as many as are asked
    /// for, but not too many more than before.
    pub open spec fn next_population(self) -> int {
        if self.next_request() < self.uniforms.n_particles + PARTICLES_PER_FRAME {
            self.next_request()
        } else {
            self.uniforms.n_particles + PARTICLES_PER_FRAME
        }
    }

    /// The uniforms that the next frame uploads.
    pub open spec fn uploaded(self, given: FrameGiven) -> Uniforms {
        Uniforms {
            view_proj: given.view_proj,
            n_masses: self.masses.len() as u32,
            n_particles_requested: self.next_request() as u32,
            g: given.g,
            delta_time: given.delta_time,
            cam_pos: given.cam_pos,
            random: given.random,
            ..self.uniforms
        }
    }

    /// The line that the next frame prints.
    pub open spec fn report(self) -> Option<FrameReport> {
        if self.print {
            Some(
                FrameReport {
                    marker: if self.growing {
                        '+'
                    } else {
                        '-'
                    },
                    n_particles: self.uniforms.n_particles,
                },
            )
        } else {
            None
        }
    }

    /// The simulation after a frame's update.
    pub open spec fn after_update(self, given: FrameGiven) -> Simulation {
        let n = self.next_request();
        Simulation {
            uniforms: Uniforms {
                n_particles: self.next_population() as u32,
                push: ZERO,
                reset: 0,
                frame: (self.uniforms.frame + 1) as u32,
                ..self.uploaded(given)
            },
            masses: all_moved(self.masses, given.orbit),
            buffer: buffer_for(self.buffer, n),
            group: if must_grow(self.buffer, n) {
                group_over(buffer_for(self.buffer, n))
            } else {
                self.group
            },
            jobs: jobs_for(self.jobs, self.buffer, n),
            ..self
        }
    }

    /// The simulation after a frame was rendered, or left out.
    pub open spec fn after_render(self, status: SurfaceStatus) -> Simulation {
        if status is Success {
            Simulation { jobs: seq![], ..self }
        } else {
            self
        }
    }

    /// Whether both models can be drawn.
    pub open spec fn is_dressed(self) -> bool {
        self.particle_model.is_dressed() && self.mass_model.is_dressed()
    }

    /// What is to be done with a frame.
    pub open spec fn is_action(self, status: SurfaceStatus, action: RenderAction) -> bool {
        match status {
            SurfaceStatus::Success => action matches RenderAction::Draw(plan) && {
                &&& plan.copies@ == self.jobs
                &&& plan.attachments == all_cleared()
                &&& plan.compute@ == compute_commands(self.uniforms.n_particles)
                &&& plan.render@ == render_commands(
                    self.particle_model.meshes,
                    self.uniforms.n_particles,
                    self.mass_model.meshes,
                    self.masses.len() as u32,
                )
            },
            SurfaceStatus::Suboptimal | SurfaceStatus::Outdated => action is Reconfigure,
            SurfaceStatus::Timeout | SurfaceStatus::Occluded => action is Skip,
            SurfaceStatus::Lost | SurfaceStatus::Validation => false,
        }
    }
}

/// The words of the masses, in the order of `mass_words`.
pub fn words_of(masses: &Vec<Vector4>) -> (words: Vec<u32>)
    ensures
        words@ == mass_words(masses@),
{
    let mut words: Vec<u32> = Vec::new();
    for i in 0..masses.len()
        invariant
            words@ == mass_words(masses@.take(i as int)),
    {
        masses[i].append_to(&mut words);
        assert(words@ == mass_words(masses@.take(i + 1)));
    }
    assert(masses@.take(masses@.len() as int) == masses@);
    words
}

fn new_mass(scale: u32) -> (mass: Vector4)
    ensures
        mass == mass_at_rest(scale),
{
    Vector4 { x: ZERO, y: ZERO, z: ZERO, w: scale }
}

impl State {
    /// The state before the first frame. A negative `particle_number` wraps
    /// round.
    pub fn new(
        surface_config: SurfaceConfig,
        particle_number: i32,
        view_proj: Matrix4,
        particle_model: ModelInfo,
        mass_model: ModelInfo,
    ) -> (state: State)
        ensures
            state@ == Simulation::initial(
                surface_config@,
                particle_number,
                view_proj,
                particle_model@,
                mass_model@,
            ),
            state@.is_valid(),
    {
        assert(particle_number as u32 == (if particle_number >= 0 {
            particle_number as int
        } else {
            particle_number + 0x1_0000_0000
        })) by (bit_vector);
        let mut uniforms = Uniforms::new();
        uniforms.n_particles_requested = particle_number as u32;
        uniforms.update_view_proj(view_proj);
        let mut masses: Vec<Vector4> = Vec::new();
        masses.push(new_mass(MASS_SCALE_0));
        masses.push(new_mass(MASS_SCALE_1));
        masses.push(new_mass(MASS_SCALE_2));
        masses.push(new_mass(MASS_SCALE_3));
        State {
            surface_config,
            uniforms,
            masses,
            particle_buffer: ParticleBuffer { id: 0, size: BufferRole::Particles.first_plan().size },
            particle_group: BoundGroup { layout: GroupLayout::Particles, particle_buffer: 0 },
            jobs: Vec::new(),
            particle_model,
            mass_model,
            print: false,
            growing: false,
            suspend_updates: false,
        }
    }

    /// The bytes of the uniforms as they are now.
    pub fn uniform_bytes(&self) -> (bytes: Vec<u8>)
        ensures
            is_cast(bytes, self@.uniforms.words()),
            is_stored(bytes@, self@.uniforms.words()),
    {
        self.uniforms.to_bytes()
    }

    /// The bytes of the masses as they are now.
    pub fn mass_bytes(&self) -> (bytes: Vec<u8>)
        ensures
            is_cast(bytes, mass_words(self@.masses)),
            is_stored(bytes@, mass_words(self@.masses)),
    {
        let words = words_of(&self.masses);
        machine_bytes(&words)
    }

    /// Takes over the window's new size.
    pub fn resize(&mut self, new_size: PhysicalSize)
        ensures
            final(self)@ == old(self)@.after_resize(new_size),
            old(self)@.is_valid() ==> final(self)@.is_valid(),
    {
        self.surface_config.width = new_size.width;
        self.surface_config.height = new_size.height;
    }

    /// How far an event of a device turns the camera.
    pub fn device_input(&self, event: &DeviceEvent) -> (turn: Option<MouseDelta>)
        ensures
            turn == match *event {
                DeviceEvent::MouseMotion { delta } => Some(delta),
                DeviceEvent::Other => None,
            },
    {
        match event {
            DeviceEvent::MouseMotion { delta } => Some(*delta),
            DeviceEvent::Other => None,
        }
    }

    /// Answers an event of the window. Every key is handled, whether or not it
    /// means anything.
    pub fn input(&mut self, event: &WindowEvent) -> (response: InputResponse)
        ensures
            final(self)@ == old(self)@.after_input(*event),
            response == response_to(*event),
            old(self)@.is_valid() ==> final(self)@.is_valid(),
    {
        let mut effect = InputEffect::Nothing;
        match event {
            WindowEvent::KeyboardInput { state, key } => {
                match (*state, *key) {
                    (ElementState::Pressed, KeyCode::KeyC) => {
                        effect = InputEffect::ResetCamera;
                    },
                    (ElementState::Pressed, KeyCode::KeyU) => {
                        self.suspend_updates = !self.suspend_updates;
                    },
                    (ElementState::Pressed, KeyCode::NumpadAdd) => {
                        effect = InputEffect::ScaleGravity { factor: GRAVITY_UP };
                    },
                    (ElementState::Pressed, KeyCode::NumpadSubtract) => {
                        effect = InputEffect::ScaleGravity { factor: GRAVITY_DOWN };
                    },
                    (ElementState::Pressed, KeyCode::KeyG) => {
                        self.growing = !self.growing;
                    },
                    (ElementState::Pressed, KeyCode::KeyR) => {
                        self.uniforms.reset = 1;
                    },
                    (ElementState::Pressed, KeyCode::KeyB) => {
                        self.uniforms.push = ONE;
                    },
                    (state, KeyCode::KeyP) => {
                        self.print = state == ElementState::Pressed;
                    },
                    _ => {},
                }
                InputResponse { handled: true, effect }
            },
            WindowEvent::Other => InputResponse { handled: false, effect },
        }
    }

    /// Makes room in the particle buffer for the particles asked for: where
    /// there is none to spare, asks for a larger buffer and a group over it, and
    /// leaves a copy to be made at the head of the next frame.
    pub fn grow_particles_buffer(&mut self) -> (growth: Option<BufferGrowth>)
        requires
            old(self)@.is_valid(),
            required_size(old(self)@.uniforms.n_particles_requested as int) <= u32::MAX,
        ensures
            final(self)@ == old(self)@.after_growth(),
            final(self)@.is_valid(),
            is_growth_for(
                growth,
                old(self)@.buffer,
                old(self)@.uniforms.n_particles_requested as int,
            ),
    {
        proof {
            law_growth_keeps_order(
                self@.jobs,
                self@.buffer,
                self@.uniforms.n_particles_requested as int,
            );
        }
        let min_size: u32 = HEADER_SIZE as u32 + PARTICLE_SIZE
            * self.uniforms.n_particles_requested;
        let old_size = self.particle_buffer.size;
        if (min_size as u64) < old_size {
            return None;
        }
        let new_size: u64 = min_size as u64 * 3 / 2;
        let old_id = self.particle_buffer.id;
        let new_id: u64 = old_id + 1;
        let copied: u64 = if (min_size as u64) < old_size {
            min_size as u64
        } else {
            old_size
        };
        self.particle_buffer = ParticleBuffer { id: new_id, size: new_size };
        self.particle_group = BoundGroup {
            layout: GroupLayout::Particles,
            particle_buffer: new_id,
        };
        self.jobs.push(CopyJob { source: old_id, destination: new_id, size: copied });
        Some(
            BufferGrowth {
                id: new_id,
                plan: BufferPlan {
                    label: "particles buffer",
                    size: new_size,
                    usage: BufferUsage {
                        uniform: false,
                        storage: true,
                        vertex: true,
                        indirect: false,
                        copy_src: true,
                        copy_dst: true,
                    },
                },
                group: self.particle_group,
                group_label: "particles bind group",
            },
        )
    }

    /// Whether the next frame's counters stay in range.
    pub fn can_update(&self) -> (can: bool)
        ensures
            can == self@.can_update(),
    {
        let request: u64 = if self.growing {
            self.uniforms.n_particles as u64 + 1
        } else {
            self.uniforms.n_particles_requested as u64
        };
        HEADER_SIZE + PARTICLE_SIZE as u64 * request <= u32::MAX as u64 && self.uniforms.frame
            < u32::MAX
    }

    /// Moves on by one frame.
    pub fn update(&mut self, input: &FrameInput) -> (update: FrameUpdate)
        requires
            old(self)@.is_valid(),
            old(self)@.can_update(),
            input@.orbit.len() == MASS_COUNT,
        ensures
            final(self)@ == old(self)@.after_update(input@),
            final(self)@.is_valid(),
            update.report == old(self)@.report(),
            is_growth_for(update.growth, old(self)@.buffer, old(self)@.next_request()),
            is_cast(update.mass_bytes, mass_words(final(self)@.masses)),
            is_stored(update.mass_bytes@, mass_words(final(self)@.masses)),
            is_cast(update.uniform_bytes, old(self)@.uploaded(input@).words()),
            is_stored(update.uniform_bytes@, old(self)@.uploaded(input@).words()),
    {
        self.uniforms.update_view_proj(input.view_proj);
        self.uniforms.cam_pos = input.cam_pos;
        let report = if self.print {
            Some(
                FrameReport {
                    marker: if self.growing {
                        '+'
                    } else {
                        '-'
                    },
                    n_particles: self.uniforms.n_particles,
                },
            )
        } else {
            None
        };
        if self.growing {
            self.uniforms.n_particles_requested = self.uniforms.n_particles + 1;
        }
        let growth = self.grow_particles_buffer();
        let ghost before = self@;
        let count: usize = self.masses.len();
        for i in 0..count
            invariant
                count == self.masses@.len() == before.masses.len(),
                input@.orbit.len() == before.masses.len(),
                self@ == (Simulation { masses: self.masses@, ..before }),
                forall|j: int|
                    0 <= j < self.masses@.len() ==> #[trigger] self.masses@[j] == if j < i {
                        moved(before.masses[j], input@.orbit[j])
                    } else {
                        before.masses[j]
                    },
        {
            let mass = self.masses[i];
            let to = input.orbit[i];
            self.masses.set(i, Vector4 { x: to.x, y: mass.y, z: to.z, w: mass.w });
        }
        assert(self.masses@ == all_moved(before.masses, input@.orbit));
        let mass_bytes = self.mass_bytes();
        self.uniforms.g = input.g;
        self.uniforms.random = input.random;
        self.uniforms.delta_time = input.delta_time;
        self.uniforms.n_masses = self.masses.len() as u32;
        let uniform_bytes = self.uniform_bytes();
        let most: u32 = self.uniforms.n_particles + PARTICLES_PER_FRAME;
        self.uniforms.n_particles = if self.uniforms.n_particles_requested < most {
            self.uniforms.n_particles_requested
        } else {
            most
        };
        self.uniforms.reset = 0;
        self.uniforms.push = ZERO;
        self.uniforms.frame = self.uniforms.frame + 1;
        FrameUpdate { report, growth, mass_bytes, uniform_bytes }
    }

    /// Decides what to do with a frame, given what came of asking the surface
    /// for a texture. A frame that is drawn begins with the pending copies.
    pub fn render(&mut self, status: SurfaceStatus) -> (action: RenderAction)
        requires
            old(self)@.is_valid(),
            status !is Lost,
            status !is Validation,
            status is Success ==> old(self)@.is_dressed(),
        ensures
            final(self)@ == old(self)@.after_render(status),
            final(self)@.is_valid(),
            old(self)@.is_action(status, action),
    {
        match status {
            SurfaceStatus::Success => {
                let mut copies: Vec<CopyJob> = Vec::new();
                std::mem::swap(&mut copies, &mut self.jobs);
                let compute = compute_pass(self.uniforms.n_particles);
                let render = render_pass(
                    &self.particle_model.meshes,
                    self.uniforms.n_particles,
                    &self.mass_model.meshes,
                    self.masses.len() as u32,
                );
                RenderAction::Draw(FramePlan { copies, compute, attachments: clear_all(), render })
            },
            SurfaceStatus::Suboptimal | SurfaceStatus::Outdated => RenderAction::Reconfigure,
            _ => RenderAction::Skip,
        }
    }
}

} // verus!
