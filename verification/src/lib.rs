//! A small library for 3D graphics: the discrete core.
//!
//! Polygons are lists of vertex indices into a mesh; meshes are validated,
//! triangulated and generated from topological rules; models are read from and
//! written to the Wavefront OBJ text format, and what is written reads back;
//! material colours are blended with textures; the renderer's settings decide
//! which faces are drawn and by which shaders. Coordinates themselves are real
//! numbers and live outside this crate.

pub mod polygon;
pub mod text;
pub mod obj;
pub mod topology;
pub mod surface;
pub mod polyhedra;
pub mod color;
pub mod export;
pub mod controls;
pub mod scene;
pub mod scene_renderer;
pub mod mesh;
pub mod read_back;

pub use polygon::{Polygon, Polygon3};
