//! An escape-time fractal renderer: a frame buffer that circulates between a
//! controller and a compute worker, the integer parts of the pixel kernel, the
//! chunked parallel fill of a frame, and the controller's state machine.

mod buffer;
pub mod kernel;
pub mod render;
pub mod controller;

pub use buffer::Buffer;
