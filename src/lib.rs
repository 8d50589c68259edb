//! A recursive ray tracer's verified core: colours and their saturating
//! arithmetic, texel grids and their sampling, surface appearance, the frame
//! buffer, and the decisions that steer each cast ray.

pub mod color;
pub mod texture;
pub mod surface;
pub mod framebuffer;
pub mod trace;
