//! View-control core of an interactive fractal explorer: the iteration
//! budget, the drag/zoom/key/resize event state machine, the per-frame
//! recovery decisions and the byte layout of the uniform block that carries
//! the view to the shader.

pub mod iterations;
pub mod uniform;
pub mod controller;
