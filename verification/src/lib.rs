//! The verified core of a small real-time renderer: input latching, the
//! free-fly camera's angular state, the per-frame draw plan and the policy
//! that keeps the presentation surface usable.
//!
//! Everything here works on integers and enums. Angles are whole
//! micro-degrees and lengths whole millionths of a world unit, so that every
//! rule of the frame loop can be stated and proved exactly.

pub mod camera;
pub mod controller;
pub mod frame;
pub mod renderer;
