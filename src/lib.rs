//! Core of a small voxel renderer: a lattice density-field encoder that packs
//! occupancy into a GPU texel layout, and a scene aggregator that merges
//! meshes into shared vertex, index and instance lists.
//!
//! Floating-point data crosses this crate only as IEEE-754 bit patterns
//! (`u64` for density samples, `u32` for vertex and transform components);
//! arithmetic on the values themselves is left to the caller.
pub mod controls;
pub mod mesh;
pub mod obj;
pub mod scene;
pub mod volume;
