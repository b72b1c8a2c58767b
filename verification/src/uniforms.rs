//! The values that every shader reads.

use vstd::prelude::*;

use crate::bytes::is_cast;
use crate::bytes::is_stored;
use crate::bytes::machine_bytes;
use crate::vector::Matrix4;
use crate::vector::Vector3;
use crate::vector::ZERO;

verus! {

/// How many bytes the uniforms take.
pub const UNIFORMS_SIZE: u64 = 128;

/// The uniforms, in the order in which the shaders declare them. The two
/// paddings keep each vector of three on a boundary of sixteen bytes.
#[derive(Clone, Copy, Debug, PartialEq, Eq, Structural)]
pub struct Uniforms {
    pub view_proj: Matrix4,
    pub n_masses: u32,
    pub n_particles_requested: u32,
    pub n_particles: u32,
    pub g: u32,
    pub delta_time: u32,
    pub push: u32,
    pub reset: u32,
    pub frame: u32,
    pub cam_pos: Vector3,
    pub padding: u32,
    pub random: Vector3,
    pub padding2: u32,
}

impl Uniforms {
    /// The words in memory order.
    pub open spec fn words(self) -> Seq<u32> {
        self.view_proj.words() + seq![
            self.n_masses,
            self.n_particles_requested,
            self.n_particles,
            self.g,
            self.delta_time,
            self.push,
            self.reset,
            self.frame,
        ] + self.cam_pos.words() + seq![self.padding] + self.random.words() + seq![self.padding2]
    }

    /// The identity for a projection, and zero for everything else.
    pub open spec fn blank() -> Uniforms {
        Uniforms {
            view_proj: Matrix4::diagonal(),
            n_masses: 0,
            n_particles_requested: 0,
            n_particles: 0,
            g: ZERO,
            delta_time: ZERO,
            push: ZERO,
            reset: 0,
            frame: 0,
            cam_pos: Vector3 { x: ZERO, y: ZERO, z: ZERO },
            padding: 0,
            random: Vector3 { x: ZERO, y: ZERO, z: ZERO },
            padding2: 0,
        }
    }

    /// The uniforms before anything is known.
    pub fn new() -> (u: Self)
        ensures
            u == Self::blank(),
    {
        Uniforms {
            view_proj: Matrix4::identity(),
            n_masses: 0,
            n_particles_requested: 0,
            n_particles: 0,
            g: ZERO,
            delta_time: ZERO,
            push: ZERO,
            reset: 0,
            frame: 0,
            cam_pos: Vector3::zero(),
            padding: 0,
            random: Vector3::zero(),
            padding2: 0,
        }
    }

    /// Takes over the camera's view projection and leaves the rest alone.
    pub fn update_view_proj(&mut self, view_proj: Matrix4)
        ensures
            *final(self) == (Uniforms { view_proj, ..*old(self) }),
    {
        self.view_proj = view_proj;
    }

    /// The words, in the order of `words`.
    pub fn to_words(&self) -> (words: Vec<u32>)
        ensures
            words@ == self.words(),
    {
        let mut words: Vec<u32> = Vec::new();
        self.view_proj.append_to(&mut words);
        words.push(self.n_masses);
        words.push(self.n_particles_requested);
        words.push(self.n_particles);
        words.push(self.g);
        words.push(self.delta_time);
        words.push(self.push);
        words.push(self.reset);
        words.push(self.frame);
        self.cam_pos.append_to(&mut words);
        words.push(self.padding);
        self.random.append_to(&mut words);
        words.push(self.padding2);
        words
    }

    /// The bytes to upload.
    pub fn to_bytes(&self) -> (bytes: Vec<u8>)
        ensures
            is_cast(bytes, self.words()),
            is_stored(bytes@, self.words()),
            bytes@.len() == UNIFORMS_SIZE,
    {
        let words = self.to_words();
        machine_bytes(&words)
    }
}

/// Where each field stands among the words: every vector of three begins at a
/// multiple of four words, and the whole is a multiple of four words.
pub proof fn law_uniform_layout(u: Uniforms)
    ensures
        u.words().len() * 4 == UNIFORMS_SIZE,
        u.words().take(16) == u.view_proj.words(),
        u.words()[16] == u.n_masses,
        u.words()[17] == u.n_particles_requested,
        u.words()[18] == u.n_particles,
        u.words()[19] == u.g,
        u.words()[20] == u.delta_time,
        u.words()[21] == u.push,
        u.words()[22] == u.reset,
        u.words()[23] == u.frame,
        u.words().subrange(24, 27) == u.cam_pos.words(),
        u.words()[27] == u.padding,
        u.words().subrange(28, 31) == u.random.words(),
        u.words()[31] == u.padding2,
{
    assert(u.words().take(16) =~= u.view_proj.words());
    assert(u.words().subrange(24, 27) =~= u.cam_pos.words());
    assert(u.words().subrange(28, 31) =~= u.random.words());
}

/// No two uniforms have the same words, so an upload loses nothing.
pub proof fn law_uniform_words_are_faithful(a: Uniforms, b: Uniforms)
    requires
        a.words() == b.words(),
    ensures
        a == b,
{
    law_uniform_layout(a);
    law_uniform_layout(b);
    let (p, q) = (a.view_proj.words(), b.view_proj.words());
    assert(p[0] == q[0] && p[1] == q[1] && p[2] == q[2] && p[3] == q[3]);
    assert(p[4] == q[4] && p[5] == q[5] && p[6] == q[6] && p[7] == q[7]);
    assert(p[8] == q[8] && p[9] == q[9] && p[10] == q[10] && p[11] == q[11]);
    assert(p[12] == q[12] && p[13] == q[13] && p[14] == q[14] && p[15] == q[15]);
    let (p, q) = (a.cam_pos.words(), b.cam_pos.words());
    assert(p[0] == q[0] && p[1] == q[1] && p[2] == q[2]);
    let (p, q) = (a.random.words(), b.random.words());
    assert(p[0] == q[0] && p[1] == q[1] && p[2] == q[2]);
}

} // verus!
