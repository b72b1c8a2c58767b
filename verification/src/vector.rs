//! Vectors and matrices of single-precision numbers, each held as its 32-bit
//! pattern.

use vstd::prelude::*;

verus! {

/// The bit pattern of `0.0`.
pub const ZERO: u32 = 0;

/// The bit pattern of `1.0`.
pub const ONE: u32 = 0x3f80_0000;

/// Three components.
#[derive(Clone, Copy, Debug, PartialEq, Eq, Structural)]
pub struct Vector3 {
    pub x: u32,
    pub y: u32,
    pub z: u32,
}

/// Four components.
#[derive(Clone, Copy, Debug, PartialEq, Eq, Structural)]
pub struct Vector4 {
    pub x: u32,
    pub y: u32,
    pub z: u32,
    pub w: u32,
}

/// Four columns of four components.
#[derive(Clone, Copy, Debug, PartialEq, Eq, Structural)]
pub struct Matrix4 {
    pub x: Vector4,
    pub y: Vector4,
    pub z: Vector4,
    pub w: Vector4,
}

impl Vector3 {
    /// The components in memory order.
    pub open spec fn words(self) -> Seq<u32> {
        seq![self.x, self.y, self.z]
    }

    /// The vector whose components are all `0.0`.
    pub fn zero() -> (v: Self)
        ensures
            v == (Vector3 { x: ZERO, y: ZERO, z: ZERO }),
    {
        Vector3 { x: ZERO, y: ZERO, z: ZERO }
    }

    /// Appends the components to `out`.
    pub(crate) fn append_to(&self, out: &mut Vec<u32>)
        ensures
            final(out)@ == old(out)@ + self.words(),
    {
        out.push(self.x);
        out.push(self.y);
        out.push(self.z);
    }
}

impl Vector4 {
    /// The components in memory order.
    pub open spec fn words(self) -> Seq<u32> {
        seq![self.x, self.y, self.z, self.w]
    }

    /// Appends the components to `out`.
    pub(crate) fn append_to(&self, out: &mut Vec<u32>)
        ensures
            final(out)@ == old(out)@ + self.words(),
    {
        out.push(self.x);
        out.push(self.y);
        out.push(self.z);
        out.push(self.w);
    }
}

impl Matrix4 {
    /// The components in memory order, column after column.
    pub open spec fn words(self) -> Seq<u32> {
        self.x.words() + self.y.words() + self.z.words() + self.w.words()
    }

    /// `1.0` on the diagonal, `0.0` elsewhere.
    pub open spec fn diagonal() -> Matrix4 {
        Matrix4 {
            x: Vector4 { x: ONE, y: ZERO, z: ZERO, w: ZERO },
            y: Vector4 { x: ZERO, y: ONE, z: ZERO, w: ZERO },
            z: Vector4 { x: ZERO, y: ZERO, z: ONE, w: ZERO },
            w: Vector4 { x: ZERO, y: ZERO, z: ZERO, w: ONE },
        }
    }

    /// The identity.
    pub fn identity() -> (m: Self)
        ensures
            m == Self::diagonal(),
    {
        Matrix4 {
            x: Vector4 { x: ONE, y: ZERO, z: ZERO, w: ZERO },
            y: Vector4 { x: ZERO, y: ONE, z: ZERO, w: ZERO },
            z: Vector4 { x: ZERO, y: ZERO, z: ONE, w: ZERO },
            w: Vector4 { x: ZERO, y: ZERO, z: ZERO, w: ONE },
        }
    }

    /// Appends the components to `out`.
    pub(crate) fn append_to(&self, out: &mut Vec<u32>)
        ensures
            final(out)@ == old(out)@ + self.words(),
    {
        self.x.append_to(out);
        self.y.append_to(out);
        self.z.append_to(out);
        self.w.append_to(out);
    }
}

} // verus!
