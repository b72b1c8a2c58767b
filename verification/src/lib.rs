//! The state of a gravity particle simulation that runs on the GPU: what the
//! keyboard changes, what each frame uploads, when the particle buffer grows
//! and which commands a frame records.
//!
//! Single-precision numbers pass through this crate as their 32-bit patterns;
//! no arithmetic is done on them here.

pub mod buffers;
pub mod bytes;
pub mod events;
pub mod frame;
pub mod growth;
pub mod laws;
pub mod layout;
pub mod outcomes;
pub mod pipeline;
pub mod setup_outcomes;
pub mod state;
pub mod surface;
pub mod uniforms;
pub mod vector;
