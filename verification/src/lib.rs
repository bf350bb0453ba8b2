//! A wireframe cube animation core: fixed-point 3D geometry (rotation,
//! perspective projection, screen mapping), the animation state that a
//! periodic clock and UI commands drive, and the generation of the draw
//! primitives for one frame.

pub mod anim;
pub mod fx;
pub mod geom;
pub mod render;
