//! The decision-making core of a path tracer over analytic spheres.
//!
//! Distances along a ray travel through this crate as the bit patterns of IEEE-754
//! binary64 numbers, so that every choice the renderer makes about them (which root
//! of a ray-sphere quadratic is used, which object is hit first) is made, and proved,
//! on integers. The integrator's bounce budget is a small state machine, and preview
//! pixels are packed into words here too. The numeric geometry and colour arithmetic
//! around those choices are left to the caller.

pub mod intersect;
pub mod order;
pub mod pixel;
pub mod scene;
pub mod trace;
