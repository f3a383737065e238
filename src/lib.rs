//! Decision kernel of a real-time voxel renderer: voxel meshing with packed
//! face records, and the device, surface and frame-pacing rules that drive
//! the graphics API.

pub mod chunk;
pub mod device;
pub mod frame;
pub mod input;
pub mod lifecycle;
pub mod mesh_laws;
pub mod object;
pub mod pipeline;
pub mod surface;
pub mod teardown;

pub use chunk::{Chunk, Coord};
pub use object::Object;
