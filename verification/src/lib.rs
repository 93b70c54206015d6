//! Planning core of a small textured-quad renderer.
//!
//! The crate decides *what* a graphics device is asked to do: how vertices are laid
//! out and packed, how a decoded image is uploaded, which pipeline and bind groups
//! are built, how a session reacts to resize and redraw, and which commands make up
//! a frame. Every decision is a plain value with a proved contract; a host performs
//! the device calls those values describe.
pub mod bytes;
pub mod vertex;
pub mod gpu;
pub mod texture_resource;
pub mod camera;
pub mod pipeline;
pub mod frame;
pub mod state;
pub mod frame_loop;
