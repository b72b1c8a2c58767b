//! What reaches the simulation from outside, and what it asks for in return.

use vstd::prelude::*;

use crate::frame::FramePlan;
use crate::growth::BufferGrowth;
use crate::vector::Matrix4;
use crate::vector::Vector3;

verus! {

/// Whether a key went down or up.
#[derive(Clone, Copy, Debug, PartialEq, Eq, Structural)]
pub enum ElementState {
    Pressed,
    Released,
}

/// The keys that mean something, by their place on the keyboard.
#[derive(Clone, Copy, Debug, PartialEq, Eq, Structural)]
pub enum KeyCode {
    KeyB,
    KeyC,
    KeyG,
    KeyP,
    KeyR,
    KeyU,
    NumpadAdd,
    NumpadSubtract,
    /// Any other key, identified or not.
    Other,
}

/// An event of the window.
#[derive(Clone, Copy, Debug, PartialEq, Eq, Structural)]
pub enum WindowEvent {
    KeyboardInput { state: ElementState, key: KeyCode },
    /// Any other event.
    Other,
}

/// How far the mouse moved, as the bit patterns of two double-precision
/// numbers.
#[derive(Clone, Copy, Debug, PartialEq, Eq, Structural)]
pub struct MouseDelta {
    pub x: u64,
    pub y: u64,
}

/// An event of a device.
#[derive(Clone, Copy, Debug, PartialEq, Eq, Structural)]
pub enum DeviceEvent {
    MouseMotion { delta: MouseDelta },
    /// Any other event.
    Other,
}

/// What an event of the window asks for beyond the simulation itself.
#[derive(Clone, Copy, Debug, PartialEq, Eq, Structural)]
pub enum InputEffect {
    Nothing,
    /// The camera goes back to where it started.
    ResetCamera,
    /// Gravity is multiplied by a number, given by its bit pattern.
    ScaleGravity { factor: u32 },
}

/// The answer to an event of the window.
#[derive(Clone, Copy, Debug, PartialEq, Eq, Structural)]
pub struct InputResponse {
    /// Whether nobody else need look at the event.
    pub handled: bool,
    pub effect: InputEffect,
}

/// A size in pixels.
#[derive(Clone, Copy, Debug, PartialEq, Eq, Structural)]
pub struct PhysicalSize {
    pub width: u32,
    pub height: u32,
}

/// Where a mass has moved to in the plane of its orbit.
#[derive(Clone, Copy, Debug, PartialEq, Eq, Structural)]
pub struct OrbitPoint {
    pub x: u32,
    pub z: u32,
}

/// What a frame is given: the time since the last one, gravity, the camera,
/// three random numbers and where the masses have moved to.
#[derive(Debug)]
pub struct FrameInput {
    pub delta_time: u32,
    pub g: u32,
    pub view_proj: Matrix4,
    pub cam_pos: Vector3,
    pub random: Vector3,
    pub orbit: Vec<OrbitPoint>,
}

/// The model of `FrameInput`.
#[verifier::ext_equal]
pub struct FrameGiven {
    pub delta_time: u32,
    pub g: u32,
    pub view_proj: Matrix4,
    pub cam_pos: Vector3,
    pub random: Vector3,
    pub orbit: Seq<OrbitPoint>,
}

impl View for FrameInput {
    type V = FrameGiven;

    open spec fn view(&self) -> FrameGiven {
        FrameGiven {
            delta_time: self.delta_time,
            g: self.g,
            view_proj: self.view_proj,
            cam_pos: self.cam_pos,
            random: self.random,
            orbit: self.orbit@,
        }
    }
}

/// The part of the printed line that the simulation knows.
#[derive(Clone, Copy, Debug, PartialEq, Eq)]
pub struct FrameReport {
    /// `+` while the number of particles grows, `-` while it does not.
    pub marker: char,
    pub n_particles: u32,
}

/// What a frame asks for before it is drawn, in this order: a line to print, a
/// larger particle buffer, the bytes of the masses and those of the uniforms.
#[derive(Debug)]
pub struct FrameUpdate {
    pub report: Option<FrameReport>,
    pub growth: Option<BufferGrowth>,
    pub mass_bytes: Vec<u8>,
    pub uniform_bytes: Vec<u8>,
}

/// What came of asking the surface for a texture to draw to.
#[derive(Clone, Copy, Debug, PartialEq, Eq, Structural)]
pub enum SurfaceStatus {
    Success,
    Suboptimal,
    Timeout,
    Occluded,
    Outdated,
    Lost,
    Validation,
}

/// What to do with the frame.
#[derive(Debug)]
pub enum RenderAction {
    /// Leave it out.
    Skip,
    /// Leave it out and set the surface up again.
    Reconfigure,
    /// Record, submit and present it.
    Draw(FramePlan),
}

} // verus!
