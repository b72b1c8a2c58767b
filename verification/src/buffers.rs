//! The buffers on the GPU: how large each is at first and what it may be used
//! for.

use vstd::prelude::*;

use crate::uniforms::UNIFORMS_SIZE;

verus! {

/// How many bytes stand before the first element of a storage buffer.
pub const HEADER_SIZE: u64 = 8;

/// How many bytes a particle takes: position and scale, velocity and lifetime.
pub const PARTICLE_SIZE: u32 = 32;

/// How many bytes a mass takes: position and scale.
pub const MASS_SIZE: u64 = 16;

/// How many masses there are.
pub const MASS_COUNT: usize = 4;

/// How many particles the first particle buffer holds.
pub const FIRST_PARTICLES: u64 = 1024;

/// How many random numbers the random buffer holds.
pub const RANDOM_NUMBERS: u64 = 1024;

/// How many bytes one random number takes.
pub const RANDOM_NUMBER_SIZE: u64 = 4;

/// How many bytes the arguments of an indirect draw take.
pub const INDIRECT_ARGS_SIZE: u64 = 20;

/// Every copy between buffers is a multiple of this many bytes.
pub const COPY_ALIGNMENT: u64 = 4;

/// What a buffer may be used for.
#[derive(Clone, Copy, Debug, PartialEq, Eq, Structural)]
pub struct BufferUsage {
    pub uniform: bool,
    pub storage: bool,
    pub vertex: bool,
    pub indirect: bool,
    pub copy_src: bool,
    pub copy_dst: bool,
}

/// The buffers that the simulation owns.
#[derive(Clone, Copy, Debug, PartialEq, Eq, Structural)]
pub enum BufferRole {
    Uniforms,
    Particles,
    Random,
    Masses,
    Indirect,
}

/// A buffer to create.
#[derive(Clone, Copy, Debug)]
pub struct BufferPlan {
    pub label: &'static str,
    pub size: u64,
    pub usage: BufferUsage,
}

/// No use at all.
pub open spec fn no_usage() -> BufferUsage {
    BufferUsage {
        uniform: false,
        storage: false,
        vertex: false,
        indirect: false,
        copy_src: false,
        copy_dst: false,
    }
}

/// What a larger particle buffer may be used for.
pub open spec fn grown_usage() -> BufferUsage {
    BufferUsage { storage: true, vertex: true, copy_src: true, copy_dst: true, ..no_usage() }
}

impl BufferRole {
    /// What the first buffer in this role may be used for.
    pub open spec fn first_usage(self) -> BufferUsage {
        match self {
            BufferRole::Uniforms => BufferUsage { uniform: true, copy_dst: true, ..no_usage() },
            BufferRole::Particles => BufferUsage { storage: true, copy_src: true, ..no_usage() },
            BufferRole::Random => BufferUsage { storage: true, ..no_usage() },
            BufferRole::Masses => BufferUsage { storage: true, copy_dst: true, ..no_usage() },
            BufferRole::Indirect => BufferUsage { indirect: true, storage: true, ..no_usage() },
        }
    }

    /// How large the first buffer in this role is, in bytes.
    pub open spec fn first_size(self) -> int {
        match self {
            BufferRole::Uniforms => UNIFORMS_SIZE as int,
            BufferRole::Particles => HEADER_SIZE + FIRST_PARTICLES * PARTICLE_SIZE,
            BufferRole::Random => HEADER_SIZE + RANDOM_NUMBERS * RANDOM_NUMBER_SIZE,
            BufferRole::Masses => MASS_COUNT * MASS_SIZE,
            BufferRole::Indirect => INDIRECT_ARGS_SIZE as int,
        }
    }

    /// The label of the first buffer in this role.
    pub open spec fn first_label(self) -> Seq<char> {
        match self {
            BufferRole::Uniforms => "Uniform Buffer"@,
            BufferRole::Particles => "Instance Buffer"@,
            BufferRole::Random => "Random Buffer"@,
            BufferRole::Masses => "Instance Buffer"@,
            BufferRole::Indirect => "indirect_buffer"@,
        }
    }

    /// The buffer to create in this role when the simulation starts.
    pub fn first_plan(self) -> (plan: BufferPlan)
        ensures
            plan.label@ == self.first_label(),
            plan.size == self.first_size(),
            plan.usage == self.first_usage(),
    {
        let none = BufferUsage {
            uniform: false,
            storage: false,
            vertex: false,
            indirect: false,
            copy_src: false,
            copy_dst: false,
        };
        match self {
            BufferRole::Uniforms => BufferPlan {
                label: "Uniform Buffer",
                size: UNIFORMS_SIZE,
                usage: BufferUsage { uniform: true, copy_dst: true, ..none },
            },
            BufferRole::Particles => BufferPlan {
                label: "Instance Buffer",
                size: HEADER_SIZE + FIRST_PARTICLES * PARTICLE_SIZE as u64,
                usage: BufferUsage { storage: true, copy_src: true, ..none },
            },
            BufferRole::Random => BufferPlan {
                label: "Random Buffer",
                size: HEADER_SIZE + RANDOM_NUMBERS * RANDOM_NUMBER_SIZE,
                usage: BufferUsage { storage: true, ..none },
            },
            BufferRole::Masses => BufferPlan {
                label: "Instance Buffer",
                size: MASS_COUNT as u64 * MASS_SIZE,
                usage: BufferUsage { storage: true, copy_dst: true, ..none },
            },
            BufferRole::Indirect => BufferPlan {
                label: "indirect_buffer",
                size: INDIRECT_ARGS_SIZE,
                usage: BufferUsage { indirect: true, storage: true, ..none },
            },
        }
    }
}

} // verus!
