//! Voxel chunk storage: a fixed-capacity cubic grid of plain cell values,
//! indexed through a compile-time dimension policy, with a coordinate
//! linearization proved bijective and a visibility-driven meshing step.

pub mod access;
pub mod app;
pub mod chunk;
pub mod input;
pub mod mesh;
pub mod time;
pub mod window;
