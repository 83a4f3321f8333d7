//! The integer and structural side of a Monte-Carlo path tracer: the 8-bit
//! RGB frame that a render is quantized into, the scene's list of
//! (geometry, material) pairs, and names for the sampling distributions.
pub mod framebuffer;
pub mod sampling;
pub mod scene;

pub use framebuffer::Framebuffer;
pub use sampling::{UniformInSphere, UniformOnSphere};
pub use scene::Scene;
