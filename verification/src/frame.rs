//! The commands that a frame records.

use vstd::prelude::*;

use crate::growth::CopyJob;
use crate::layout::GroupLayout;
use crate::layout::Pipeline;
use crate::pipeline::ModelKind;
use crate::vector::ONE;

verus! {

/// How many particles one workgroup of the compute shader moves.
pub const WORKGROUP_SIZE: u32 = 256;

/// One mesh of a model: which of the model's materials it wears and how many
/// indices it has.
#[derive(Clone, Copy, Debug, PartialEq, Eq, Structural)]
pub struct Mesh {
    pub material: usize,
    pub num_elements: u32,
}

/// What there is to know of a loaded model: its meshes, and how many materials
/// it has.
#[derive(Debug)]
pub struct ModelInfo {
    pub meshes: Vec<Mesh>,
    pub materials: usize,
}

/// The model of `ModelInfo`.
#[verifier::ext_equal]
pub struct ModelShape {
    pub meshes: Seq<Mesh>,
    pub materials: nat,
}

impl View for ModelInfo {
    type V = ModelShape;

    open spec fn view(&self) -> ModelShape {
        ModelShape { meshes: self.meshes@, materials: self.materials as nat }
    }
}

impl ModelShape {
    /// Every mesh wears a material that the model has.
    pub open spec fn is_dressed(self) -> bool {
        forall|i: int|
            0 <= i < self.meshes.len() ==> (#[trigger] self.meshes[i]).material < self.materials
    }
}

impl ModelInfo {
    /// Whether every mesh wears a material that the model has.
    pub fn is_dressed(&self) -> (dressed: bool)
        ensures
            dressed == self@.is_dressed(),
    {
        for i in 0..self.meshes.len()
            invariant
                forall|j: int| 0 <= j < i ==> (#[trigger] self.meshes@[j]).material < self.materials,
        {
            if self.meshes[i].material >= self.materials {
                assert(self@.meshes[i as int].material >= self@.materials);
                return false;
            }
        }
        true
    }
}

/// A group of resources.
#[derive(Clone, Copy, Debug, PartialEq, Eq, Structural)]
pub enum BindGroup {
    /// The texture and the sampler of one of a model's materials.
    Material { model: ModelKind, material: usize },
    Uniforms,
    Particles,
    Masses,
}

impl BindGroup {
    /// The layout that the group was made with.
    pub open spec fn layout(self) -> GroupLayout {
        match self {
            BindGroup::Material { model: _, material: _ } => GroupLayout::Texture,
            BindGroup::Uniforms => GroupLayout::Uniforms,
            BindGroup::Particles => GroupLayout::Particles,
            BindGroup::Masses => GroupLayout::Masses,
        }
    }
}

/// A command of a compute or render pass.
#[derive(Clone, Copy, Debug, PartialEq, Eq, Structural)]
pub enum PassCommand {
    SetPipeline { pipeline: Pipeline },
    SetBindGroup { slot: u32, group: BindGroup },
    /// The vertices of a mesh, whole.
    SetVertexBuffer { model: ModelKind, mesh: usize },
    /// The indices of a mesh, whole, of 32 bits each.
    SetIndexBuffer { model: ModelKind, mesh: usize },
    /// Draws the first `indices` indices for each of the first `instances`
    /// instances.
    DrawIndexed { indices: u32, instances: u32 },
    Dispatch { x: u32, y: u32, z: u32 },
}

/// A color, as the bit patterns of four double-precision numbers.
#[derive(Clone, Copy, Debug, PartialEq, Eq, Structural)]
pub struct Color {
    pub red: u64,
    pub green: u64,
    pub blue: u64,
    pub alpha: u64,
}

/// What the render pass does to the surface and to the depth texture: what it
/// clears each to, and whether it keeps what was drawn. It does
/// not touch the stencil.
#[derive(Clone, Copy, Debug, PartialEq, Eq, Structural)]
pub struct Attachments {
    pub clear_color: Color,
    pub store_color: bool,
    /// The bit pattern of a single-precision number.
    pub clear_depth: u32,
    pub store_depth: bool,
}

/// Cleared to full transparency and to the far end, and kept.
pub open spec fn all_cleared() -> Attachments {
    Attachments {
        clear_color: Color { red: 0, green: 0, blue: 0, alpha: 0 },
        store_color: true,
        clear_depth: ONE,
        store_depth: true,
    }
}

/// The attachments of a render pass.
pub fn clear_all() -> (attachments: Attachments)
    ensures
        attachments == all_cleared(),
{
    Attachments {
        clear_color: Color { red: 0, green: 0, blue: 0, alpha: 0 },
        store_color: true,
        clear_depth: ONE,
        store_depth: true,
    }
}

/// All that a frame records: the copies, then one compute pass, then one render
/// pass into the attachments.
#[derive(Debug)]
pub struct FramePlan {
    pub copies: Vec<CopyJob>,
    pub compute: Vec<PassCommand>,
    pub attachments: Attachments,
    pub render: Vec<PassCommand>,
}

/// The commands that draw one mesh.
pub open spec fn mesh_commands(
    model: ModelKind,
    index: int,
    mesh: Mesh,
    instances: u32,
) -> Seq<PassCommand> {
    let own = match model {
        ModelKind::Particles => BindGroup::Particles,
        ModelKind::Masses => BindGroup::Masses,
    };
    seq![
        PassCommand::SetVertexBuffer { model, mesh: index as usize },
        PassCommand::SetIndexBuffer { model, mesh: index as usize },
        PassCommand::SetBindGroup {
            slot: 0,
            group: BindGroup::Material { model, material: mesh.material },
        },
        PassCommand::SetBindGroup { slot: 1, group: BindGroup::Uniforms },
        PassCommand::SetBindGroup { slot: 2, group: own },
        PassCommand::DrawIndexed { indices: mesh.num_elements, instances },
    ]
}

/// The commands that draw the meshes of a model in their order.
pub open spec fn meshes_commands(
    model: ModelKind,
    meshes: Seq<Mesh>,
    instances: u32,
) -> Seq<PassCommand>
    decreases meshes.len(),
{
    if meshes.len() == 0 {
        seq![]
    } else {
        meshes_commands(model, meshes.drop_last(), instances) + mesh_commands(
            model,
            meshes.len() - 1,
            meshes.last(),
            instances,
        )
    }
}

/// The commands that draw a model.
pub open spec fn model_commands(
    model: ModelKind,
    meshes: Seq<Mesh>,
    instances: u32,
) -> Seq<PassCommand> {
    seq![PassCommand::SetPipeline { pipeline: model.drawn_by() }] + meshes_commands(
        model,
        meshes,
        instances,
    )
}

/// How many workgroups move `n` particles.
pub open spec fn workgroups(n: u32) -> u32 {
    (n / WORKGROUP_SIZE + 1) as u32
}

/// The compute pass that moves `n` particles.
pub open spec fn compute_commands(n: u32) -> Seq<PassCommand> {
    seq![
        PassCommand::SetPipeline { pipeline: Pipeline::Compute },
        PassCommand::SetBindGroup { slot: 0, group: BindGroup::Uniforms },
        PassCommand::SetBindGroup { slot: 1, group: BindGroup::Particles },
        PassCommand::SetBindGroup { slot: 2, group: BindGroup::Masses },
        PassCommand::Dispatch { x: workgroups(n), y: 1, z: 1 },
    ]
}

/// The render pass that draws `n` particles, then `m` masses.
pub open spec fn render_commands(
    particles: Seq<Mesh>,
    n: u32,
    masses: Seq<Mesh>,
    m: u32,
) -> Seq<PassCommand> {
    model_commands(ModelKind::Particles, particles, n) + model_commands(
        ModelKind::Masses,
        masses,
        m,
    )
}

/// The compute pass that moves `n` particles.
pub fn compute_pass(n: u32) -> (commands: Vec<PassCommand>)
    ensures
        commands@ == compute_commands(n),
{
    let mut commands: Vec<PassCommand> = Vec::new();
    commands.push(PassCommand::SetPipeline { pipeline: Pipeline::Compute });
    commands.push(PassCommand::SetBindGroup { slot: 0, group: BindGroup::Uniforms });
    commands.push(PassCommand::SetBindGroup { slot: 1, group: BindGroup::Particles });
    commands.push(PassCommand::SetBindGroup { slot: 2, group: BindGroup::Masses });
    commands.push(PassCommand::Dispatch { x: n / WORKGROUP_SIZE + 1, y: 1, z: 1 });
    commands
}

fn push_model(
    commands: &mut Vec<PassCommand>,
    model: ModelKind,
    meshes: &Vec<Mesh>,
    instances: u32,
)
    ensures
        final(commands)@ == old(commands)@ + model_commands(model, meshes@, instances),
{
    let ghost before = commands@;
    commands.push(PassCommand::SetPipeline { pipeline: model.pipeline() });
    let own = match model {
        ModelKind::Particles => BindGroup::Particles,
        ModelKind::Masses => BindGroup::Masses,
    };
    let ghost head = commands@;
    assert(head == before + seq![PassCommand::SetPipeline { pipeline: model.drawn_by() }]);
    for i in 0..meshes.len()
        invariant
            commands@ == head + meshes_commands(model, meshes@.take(i as int), instances),
            own == match model {
                ModelKind::Particles => BindGroup::Particles,
                ModelKind::Masses => BindGroup::Masses,
            },
    {
        let ghost so_far = commands@;
        let mesh = meshes[i];
        commands.push(PassCommand::SetVertexBuffer { model, mesh: i });
        commands.push(PassCommand::SetIndexBuffer { model, mesh: i });
        commands.push(
            PassCommand::SetBindGroup {
                slot: 0,
                group: BindGroup::Material { model, material: mesh.material },
            },
        );
        commands.push(PassCommand::SetBindGroup { slot: 1, group: BindGroup::Uniforms });
        commands.push(PassCommand::SetBindGroup { slot: 2, group: own });
        commands.push(PassCommand::DrawIndexed { indices: mesh.num_elements, instances });
        proof {
            assert(commands@ == so_far + mesh_commands(model, i as int, mesh, instances));
            assert(meshes@.take(i + 1).drop_last() == meshes@.take(i as int));
        }
    }
    assert(meshes@.take(meshes@.len() as int) == meshes@);
}

/// The render pass that draws `n` particles, then `m` masses.
pub fn render_pass(
    particles: &Vec<Mesh>,
    n: u32,
    masses: &Vec<Mesh>,
    m: u32,
) -> (commands: Vec<PassCommand>)
    ensures
        commands@ == render_commands(particles@, n, masses@, m),
{
    let mut commands: Vec<PassCommand> = Vec::new();
    push_model(&mut commands, ModelKind::Particles, particles, n);
    push_model(&mut commands, ModelKind::Masses, masses, m);
    commands
}

/// What a pass has set so far.
#[verifier::ext_equal]
pub struct PassState {
    pub pipeline: Option<Pipeline>,
    pub groups: Map<u32, BindGroup>,
    pub vertices: Option<(ModelKind, usize)>,
    pub indices: Option<(ModelKind, usize)>,
}

/// The meshes of the two models.
#[verifier::ext_equal]
pub struct Scene {
    pub particles: Seq<Mesh>,
    pub masses: Seq<Mesh>,
}

impl Scene {
    /// The meshes of one model.
    pub open spec fn meshes(self, model: ModelKind) -> Seq<Mesh> {
        match model {
            ModelKind::Particles => self.particles,
            ModelKind::Masses => self.masses,
        }
    }
}

impl PassState {
    /// A pass that was just begun.
    pub open spec fn fresh() -> PassState {
        PassState { pipeline: None, groups: Map::empty(), vertices: None, indices: None }
    }

    /// What is set after a command.
    pub open spec fn step(self, command: PassCommand) -> PassState {
        match command {
            PassCommand::SetPipeline { pipeline } => PassState {
                pipeline: Some(pipeline),
                ..self
            },
            PassCommand::SetBindGroup { slot, group } => PassState {
                groups: self.groups.insert(slot, group),
                ..self
            },
            PassCommand::SetVertexBuffer { model, mesh } => PassState {
                vertices: Some((model, mesh)),
                ..self
            },
            PassCommand::SetIndexBuffer { model, mesh } => PassState {
                indices: Some((model, mesh)),
                ..self
            },
            PassCommand::DrawIndexed { indices: _, instances: _ } => self,
            PassCommand::Dispatch { x: _, y: _, z: _ } => self,
        }
    }

    /// Every slot of the pipeline holds a group of the layout it expects there.
    pub open spec fn fills_slots(self, pipeline: Pipeline) -> bool {
        forall|slot: int|
            0 <= slot < pipeline.slots().len() ==> {
                &&& self.groups.dom().contains(slot as u32)
                &&& self.groups[slot as u32].layout() == #[trigger] pipeline.slots()[slot]
            }
    }

    /// What a command needs to find set. A draw needs the vertices and the
    /// indices of one mesh, exactly as many indices as the mesh has, the mesh's
    /// own material, and its model's pipeline with every slot filled. A dispatch
    /// needs the compute pipeline with every slot filled.
    pub open spec fn allows(self, command: PassCommand, scene: Scene) -> bool {
        match command {
            PassCommand::DrawIndexed { indices, instances: _ } => self.vertices matches Some(
                (model, mesh),
            ) && {
                &&& self.indices == self.vertices
                &&& mesh < scene.meshes(model).len()
                &&& indices == scene.meshes(model)[mesh as int].num_elements
                &&& self.pipeline == Some(model.drawn_by())
                &&& self.fills_slots(model.drawn_by())
                &&& self.groups[0] == (BindGroup::Material {
                    model,
                    material: scene.meshes(model)[mesh as int].material,
                })
            },
            PassCommand::Dispatch { x: _, y: _, z: _ } => {
                &&& self.pipeline == Some(Pipeline::Compute)
                &&& self.fills_slots(Pipeline::Compute)
            },
            _ => true,
        }
    }

    /// What is set after a sequence of commands.
    pub open spec fn after(self, commands: Seq<PassCommand>) -> PassState
        decreases commands.len(),
    {
        if commands.len() == 0 {
            self
        } else {
            self.step(commands[0]).after(commands.drop_first())
        }
    }

    /// Every command finds set what it needs.
    pub open spec fn allows_all(self, commands: Seq<PassCommand>, scene: Scene) -> bool
        decreases commands.len(),
    {
        commands.len() == 0 || {
            &&& self.allows(commands[0], scene)
            &&& self.step(commands[0]).allows_all(commands.drop_first(), scene)
        }
    }
}

proof fn lemma_one_then_the_other(
    state: PassState,
    a: Seq<PassCommand>,
    b: Seq<PassCommand>,
    scene: Scene,
)
    ensures
        state.after(a + b) == state.after(a).after(b),
        state.allows_all(a + b, scene) == (state.allows_all(a, scene) && state.after(a).allows_all(
            b,
            scene,
        )),
    decreases a.len(),
{
    if a.len() == 0 {
        assert(a + b == b);
    } else {
        assert((a + b).drop_first() == a.drop_first() + b);
        lemma_one_then_the_other(state.step(a[0]), a.drop_first(), b, scene);
    }
}

proof fn lemma_mesh_is_drawn(
    state: PassState,
    model: ModelKind,
    index: int,
    instances: u32,
    scene: Scene,
)
    requires
        state.pipeline == Some(model.drawn_by()),
        0 <= index < scene.meshes(model).len() <= usize::MAX,
    ensures
        ({
            let commands = mesh_commands(model, index, scene.meshes(model)[index], instances);
            &&& state.allows_all(commands, scene)
            &&& state.after(commands).pipeline == state.pipeline
        }),
{
    let c = mesh_commands(model, index, scene.meshes(model)[index], instances);
    let s1 = state.step(c[0]);
    let s2 = s1.step(c[1]);
    let s3 = s2.step(c[2]);
    let s4 = s3.step(c[3]);
    let s5 = s4.step(c[4]);
    let s6 = s5.step(c[5]);
    assert(s5.allows(c[5], scene));
    assert(c.drop_first()[0] == c[1]);
    reveal_with_fuel(PassState::after, 7);
    reveal_with_fuel(PassState::allows_all, 7);
}

proof fn lemma_meshes_are_drawn(
    state: PassState,
    model: ModelKind,
    k: int,
    instances: u32,
    scene: Scene,
)
    requires
        state.pipeline == Some(model.drawn_by()),
        0 <= k <= scene.meshes(model).len() <= usize::MAX,
    ensures
        ({
            let commands = meshes_commands(model, scene.meshes(model).take(k), instances);
            &&& state.allows_all(commands, scene)
            &&& state.after(commands).pipeline == state.pipeline
        }),
    decreases k,
{
    let meshes = scene.meshes(model).take(k);
    if k > 0 {
        let last = mesh_commands(model, k - 1, meshes.last(), instances);
        assert(meshes.drop_last() == scene.meshes(model).take(k - 1));
        let first = meshes_commands(model, meshes.drop_last(), instances);
        lemma_meshes_are_drawn(state, model, k - 1, instances, scene);
        lemma_mesh_is_drawn(state.after(first), model, k - 1, instances, scene);
        lemma_one_then_the_other(state, first, last, scene);
    }
}

proof fn lemma_model_is_drawn(
    state: PassState,
    model: ModelKind,
    instances: u32,
    scene: Scene,
)
    requires
        scene.meshes(model).len() <= usize::MAX,
    ensures
        state.allows_all(model_commands(model, scene.meshes(model), instances), scene),
{
    let meshes = scene.meshes(model);
    let pipeline = PassCommand::SetPipeline { pipeline: model.drawn_by() };
    let commands = model_commands(model, meshes, instances);
    let rest = meshes_commands(model, meshes, instances);
    assert(meshes.take(meshes.len() as int) == meshes);
    lemma_meshes_are_drawn(state.step(pipeline), model, meshes.len() as int, instances, scene);
    assert(commands.drop_first() == rest);
    assert(commands[0] == pipeline);
}

/// In the compute pass every command finds set what it needs.
pub proof fn law_compute_pass_is_sound(n: u32, scene: Scene)
    ensures
        PassState::fresh().allows_all(compute_commands(n), scene),
{
    let c = compute_commands(n);
    let s1 = PassState::fresh().step(c[0]);
    let s2 = s1.step(c[1]);
    let s3 = s2.step(c[2]);
    let s4 = s3.step(c[3]);
    assert(s4.allows(c[4], scene));
    reveal_with_fuel(PassState::allows_all, 6);
}

/// In the render pass every command finds set what it needs: each mesh is drawn
/// whole, in its own material, by the pipeline of its model.
pub proof fn law_render_pass_is_sound(n: u32, m: u32, scene: Scene)
    requires
        scene.particles.len() <= usize::MAX,
        scene.masses.len() <= usize::MAX,
    ensures
        PassState::fresh().allows_all(
            render_commands(scene.particles, n, scene.masses, m),
            scene,
        ),
{
    let particles = model_commands(ModelKind::Particles, scene.particles, n);
    let masses = model_commands(ModelKind::Masses, scene.masses, m);
    let start = PassState::fresh();
    lemma_model_is_drawn(start, ModelKind::Particles, n, scene);
    lemma_model_is_drawn(start.after(particles), ModelKind::Masses, m, scene);
    lemma_one_then_the_other(start, particles, masses, scene);
}

/// Each mesh is drawn exactly once, in its turn.
pub proof fn law_each_mesh_is_drawn_once(
    model: ModelKind,
    meshes: Seq<Mesh>,
    instances: u32,
    i: int,
)
    requires
        0 <= i < meshes.len(),
    ensures
        meshes_commands(model, meshes, instances).len() == 6 * meshes.len(),
        meshes_commands(model, meshes, instances).subrange(6 * i, 6 * i + 6) == mesh_commands(
            model,
            i,
            meshes[i],
            instances,
        ),
    decreases meshes.len(),
{
    let all = meshes_commands(model, meshes, instances);
    let before = meshes_commands(model, meshes.drop_last(), instances);
    if meshes.len() == 1 {
        assert(before.len() == 0);
    } else {
        let j = if i < meshes.len() - 1 {
            i
        } else {
            0
        };
        law_each_mesh_is_drawn_once(model, meshes.drop_last(), instances, j);
    }
    if i < meshes.len() - 1 {
        assert(all.subrange(6 * i, 6 * i + 6) == before.subrange(6 * i, 6 * i + 6));
    } else {
        assert(all.subrange(6 * i, 6 * i + 6) == mesh_commands(model, i, meshes[i], instances));
    }
}

/// There are workgroups for every particle, and at most one of them is spare:
/// the last, exactly when the particles fill the others to the full.
pub proof fn law_workgroups_cover_particles(n: u32)
    ensures
        n < workgroups(n) * WORKGROUP_SIZE <= n + WORKGROUP_SIZE,
        (workgroups(n) - 1) * WORKGROUP_SIZE >= n <==> n % WORKGROUP_SIZE == 0,
{
}

} // verus!
