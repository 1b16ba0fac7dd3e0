//! A verified model of a rigid-body physics scripting bridge.
//!
//! The crate models the state a script-facing physics layer is responsible
//! for: generational handle tables for rigid bodies and colliders, the
//! per-step collision-event buffer, query filtering rules, and the kinematic
//! character-controller configuration. The numeric simulation itself (ray
//! traversal, contact solving, shape sweeps) is the engine's job and is
//! driven by the unverified host around this library; every decision the
//! bridge makes about handles, events, filters and configuration is verified
//! here.

pub mod character;
pub mod handle;
pub mod math;
pub mod model;
pub mod shape;
pub mod sim;
pub mod status;
pub mod window;
