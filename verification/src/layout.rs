//! The groups of resources that the shaders see, and the pipelines that use
//! them.

use vstd::prelude::*;

use crate::buffers::BufferRole;
use crate::buffers::MASS_COUNT;
use crate::buffers::MASS_SIZE;
use crate::uniforms::UNIFORMS_SIZE;

verus! {

/// The shader stages that see a resource.
#[derive(Clone, Copy, Debug, PartialEq, Eq, Structural)]
pub struct ShaderStages {
    pub vertex: bool,
    pub fragment: bool,
    pub compute: bool,
}

/// What kind of resource stands at a binding.
#[derive(Clone, Copy, Debug, PartialEq, Eq, Structural)]
pub enum BindingType {
    /// A buffer of uniforms.
    UniformBuffer,
    /// A storage buffer.
    StorageBuffer { read_only: bool },
    /// A two-dimensional texture of filterable floats, not multisampled.
    Texture,
    /// A filtering sampler.
    Sampler,
}

/// One binding of a group.
#[derive(Clone, Copy, Debug, PartialEq, Eq, Structural)]
pub struct LayoutEntry {
    pub binding: u32,
    pub visibility: ShaderStages,
    pub ty: BindingType,
}

/// The layouts of the groups.
#[derive(Clone, Copy, Debug, PartialEq, Eq, Structural)]
pub enum GroupLayout {
    Texture,
    Uniforms,
    Particles,
    Masses,
}

/// The buffer that stands at a binding, from `offset` on: to its end, or only
/// for `size` bytes where that is given.
#[derive(Clone, Copy, Debug, PartialEq, Eq, Structural)]
pub struct BufferBinding {
    pub binding: u32,
    pub buffer: BufferRole,
    pub offset: u64,
    pub size: Option<u64>,
}

/// Fragments alone.
pub open spec fn fragment_only() -> ShaderStages {
    ShaderStages { vertex: false, fragment: true, compute: false }
}

/// Vertices and the compute shader.
pub open spec fn vertex_and_compute() -> ShaderStages {
    ShaderStages { vertex: true, fragment: false, compute: true }
}

/// The compute shader alone.
pub open spec fn compute_only() -> ShaderStages {
    ShaderStages { vertex: false, fragment: false, compute: true }
}

impl GroupLayout {
    /// The bindings of a group of this layout.
    pub open spec fn bindings(self) -> Seq<LayoutEntry> {
        match self {
            GroupLayout::Texture => seq![
                LayoutEntry { binding: 0, visibility: fragment_only(), ty: BindingType::Texture },
                LayoutEntry { binding: 1, visibility: fragment_only(), ty: BindingType::Sampler },
            ],
            GroupLayout::Uniforms => seq![
                LayoutEntry {
                    binding: 0,
                    visibility: vertex_and_compute(),
                    ty: BindingType::UniformBuffer,
                },
            ],
            GroupLayout::Particles => seq![
                LayoutEntry {
                    binding: 0,
                    visibility: vertex_and_compute(),
                    ty: BindingType::StorageBuffer { read_only: false },
                },
                LayoutEntry {
                    binding: 1,
                    visibility: compute_only(),
                    ty: BindingType::StorageBuffer { read_only: true },
                },
            ],
            GroupLayout::Masses => seq![
                LayoutEntry {
                    binding: 0,
                    visibility: vertex_and_compute(),
                    ty: BindingType::StorageBuffer { read_only: true },
                },
            ],
        }
    }

    /// The buffers of the one group of this layout; a material's group, which
    /// holds a texture and a sampler, has none.
    pub open spec fn buffers(self) -> Seq<BufferBinding> {
        match self {
            GroupLayout::Texture => seq![],
            GroupLayout::Uniforms => seq![
                BufferBinding {
                    binding: 0,
                    buffer: BufferRole::Uniforms,
                    offset: 0,
                    size: Some(UNIFORMS_SIZE),
                },
            ],
            GroupLayout::Particles => seq![
                BufferBinding { binding: 0, buffer: BufferRole::Particles, offset: 0, size: None },
                BufferBinding { binding: 1, buffer: BufferRole::Random, offset: 0, size: None },
            ],
            GroupLayout::Masses => seq![
                BufferBinding {
                    binding: 0,
                    buffer: BufferRole::Masses,
                    offset: 0,
                    size: Some((MASS_COUNT * MASS_SIZE) as u64),
                },
            ],
        }
    }

    /// The label of the layout.
    pub open spec fn layout_name(self) -> Seq<char> {
        match self {
            GroupLayout::Texture => "texture_bind_group_layout"@,
            GroupLayout::Uniforms => "uniform_bind_group_layout"@,
            GroupLayout::Particles => "instance_bind_group_layout"@,
            GroupLayout::Masses => "instance_bind_group_layout"@,
        }
    }

    /// The label to create the layout with.
    pub fn layout_label(self) -> (label: &'static str)
        ensures
            label@ == self.layout_name(),
    {
        match self {
            GroupLayout::Texture => "texture_bind_group_layout",
            GroupLayout::Uniforms => "uniform_bind_group_layout",
            GroupLayout::Particles => "instance_bind_group_layout",
            GroupLayout::Masses => "instance_bind_group_layout",
        }
    }

    /// The label of the first group of this layout, where it is one of buffers.
    pub fn group_label(self) -> (label: Option<&'static str>)
        ensures
            match self {
                GroupLayout::Texture => label is None,
                GroupLayout::Uniforms => label matches Some(label) && label@
                    == "uniform_bind_group"@,
                GroupLayout::Particles | GroupLayout::Masses => label matches Some(label) && label@
                    == "instance_bind_group"@,
            },
    {
        match self {
            GroupLayout::Texture => None,
            GroupLayout::Uniforms => Some("uniform_bind_group"),
            GroupLayout::Particles | GroupLayout::Masses => Some("instance_bind_group"),
        }
    }

    /// The bindings to create the layout with.
    pub fn layout_entries(self) -> (entries: Vec<LayoutEntry>)
        ensures
            entries@ == self.bindings(),
    {
        let both = ShaderStages { vertex: true, fragment: false, compute: true };
        let fragment = ShaderStages { vertex: false, fragment: true, compute: false };
        let compute = ShaderStages { vertex: false, fragment: false, compute: true };
        let mut entries: Vec<LayoutEntry> = Vec::new();
        match self {
            GroupLayout::Texture => {
                entries.push(
                    LayoutEntry { binding: 0, visibility: fragment, ty: BindingType::Texture },
                );
                entries.push(
                    LayoutEntry { binding: 1, visibility: fragment, ty: BindingType::Sampler },
                );
            },
            GroupLayout::Uniforms => {
                entries.push(
                    LayoutEntry { binding: 0, visibility: both, ty: BindingType::UniformBuffer },
                );
            },
            GroupLayout::Particles => {
                entries.push(
                    LayoutEntry {
                        binding: 0,
                        visibility: both,
                        ty: BindingType::StorageBuffer { read_only: false },
                    },
                );
                entries.push(
                    LayoutEntry {
                        binding: 1,
                        visibility: compute,
                        ty: BindingType::StorageBuffer { read_only: true },
                    },
                );
            },
            GroupLayout::Masses => {
                entries.push(
                    LayoutEntry {
                        binding: 0,
                        visibility: both,
                        ty: BindingType::StorageBuffer { read_only: true },
                    },
                );
            },
        }
        entries
    }

    /// The buffers to create the group with.
    pub fn buffer_bindings(self) -> (entries: Vec<BufferBinding>)
        ensures
            entries@ == self.buffers(),
    {
        let mut entries: Vec<BufferBinding> = Vec::new();
        match self {
            GroupLayout::Texture => {},
            GroupLayout::Uniforms => {
                entries.push(
                    BufferBinding {
                        binding: 0,
                        buffer: BufferRole::Uniforms,
                        offset: 0,
                        size: Some(UNIFORMS_SIZE),
                    },
                );
            },
            GroupLayout::Particles => {
                entries.push(
                    BufferBinding { binding: 0, buffer: BufferRole::Particles, offset: 0, size: None },
                );
                entries.push(BufferBinding { binding: 1, buffer: BufferRole::Random, offset: 0, size: None });
            },
            GroupLayout::Masses => {
                entries.push(
                    BufferBinding {
                        binding: 0,
                        buffer: BufferRole::Masses,
                        offset: 0,
                        size: Some(MASS_COUNT as u64 * MASS_SIZE),
                    },
                );
            },
        }
        entries
    }
}

/// What a buffer has to allow for to stand at a binding of this type.
pub open spec fn usage_suits(role: BufferRole, ty: BindingType) -> bool {
    match ty {
        BindingType::UniformBuffer => role.first_usage().uniform,
        BindingType::StorageBuffer { read_only: _ } => role.first_usage().storage,
        BindingType::Texture | BindingType::Sampler => false,
    }
}

/// Each group of buffers fills its layout: the same bindings in the same order,
/// at each a buffer that may be used that way, and no more of it than there is.
pub proof fn law_buffers_fill_their_layout(layout: GroupLayout, i: int)
    requires
        layout !is Texture,
        0 <= i < layout.bindings().len(),
    ensures
        layout.buffers().len() == layout.bindings().len(),
        layout.buffers()[i].binding == layout.bindings()[i].binding,
        usage_suits(layout.buffers()[i].buffer, layout.bindings()[i].ty),
        layout.buffers()[i].offset == 0,
        layout.buffers()[i].size matches Some(size) ==> 0 < size
            <= layout.buffers()[i].buffer.first_size(),
{
}

/// The pipelines.
#[derive(Clone, Copy, Debug, PartialEq, Eq, Structural)]
pub enum Pipeline {
    Particles,
    Masses,
    Compute,
}

impl Pipeline {
    /// The layout that the pipeline expects of the group in each slot.
    pub open spec fn slots(self) -> Seq<GroupLayout> {
        match self {
            Pipeline::Particles => seq![
                GroupLayout::Texture,
                GroupLayout::Uniforms,
                GroupLayout::Particles,
            ],
            Pipeline::Masses => seq![
                GroupLayout::Texture,
                GroupLayout::Uniforms,
                GroupLayout::Masses,
            ],
            Pipeline::Compute => seq![
                GroupLayout::Uniforms,
                GroupLayout::Particles,
                GroupLayout::Masses,
            ],
        }
    }

    /// The layouts to create the pipeline's layout with.
    pub fn group_layouts(self) -> (layouts: Vec<GroupLayout>)
        ensures
            layouts@ == self.slots(),
    {
        let mut layouts: Vec<GroupLayout> = Vec::new();
        match self {
            Pipeline::Particles => {
                layouts.push(GroupLayout::Texture);
                layouts.push(GroupLayout::Uniforms);
                layouts.push(GroupLayout::Particles);
            },
            Pipeline::Masses => {
                layouts.push(GroupLayout::Texture);
                layouts.push(GroupLayout::Uniforms);
                layouts.push(GroupLayout::Masses);
            },
            Pipeline::Compute => {
                layouts.push(GroupLayout::Uniforms);
                layouts.push(GroupLayout::Particles);
                layouts.push(GroupLayout::Masses);
            },
        }
        layouts
    }
}

} // verus!
