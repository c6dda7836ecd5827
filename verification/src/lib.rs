//! Host-side logic of a small mesh renderer: the vertex attribute layout,
//! the loader that flattens a scene document into draw buffers, the frame
//! loop as a state machine, and the log line format.

mod clock;
mod flatten;
pub mod logger;
pub mod program;
pub mod render;
pub mod resource;
pub mod seconds;
pub mod setup;
pub mod text;
pub mod vertex;
