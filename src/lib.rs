//! Integer core of a small path tracer: the decisions that the renderer takes
//! on every ray and every pixel, each with a proved contract.

pub mod image;
pub mod integrator;
pub mod random;
pub mod scene;
