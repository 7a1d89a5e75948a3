//! Conversion of a binary FBX scene-graph document into renderer-ready scene
//! data: triangulated geometry buffers, materials, and a pruned transform
//! hierarchy.
//!
//! The library works on plain values: positions, normals, UVs, colors and
//! matrix entries are signed 64-bit fixed-point numbers with 16 fractional
//! bits, and labels are byte strings.  Reading the binary document and
//! converting its floating-point payloads into this representation is the
//! caller's concern; everything downstream of that — polygon triangulation,
//! attribute-buffer reconstruction, transform resolution, hierarchy pruning
//! and material-loader dispatch — happens here and is verified.

pub mod bbox;
pub mod error;
pub mod fixed;
pub mod geometry;
pub mod hierarchy;
pub mod labels;
pub mod layers;
pub mod mat;
pub mod material_loader;
pub mod mesh;
pub mod properties;
pub mod scene;
pub mod tangents;
pub mod transform;
pub mod triangulate;
