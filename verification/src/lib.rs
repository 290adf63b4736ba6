//! A verified boundary-representation (B-rep) core for a small solid editor.
//!
//! The library models vertices, edges, faces and parts on a fixed-point
//! integer grid, builds cuboid topology from eight corner points, extrudes
//! selected faces along a vector, and runs the face-selection state machine.

pub mod vec3_rounded;
pub mod components;
pub mod primitives;
pub mod topology;
pub mod extrude;
pub mod selection;
pub mod highlight;
pub mod mesh;
pub mod editor;

pub use vec3_rounded::Vec3Rounded;
