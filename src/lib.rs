//! Reading Wavefront-style scene descriptions: geometry files (`.obj`) and
//! their material libraries (`.mtl`), turned into meshes of resolved
//! vertices and named materials for a renderer.
//!
//! The library works on text and leaves files to its caller: an
//! [`mesh::ObjLoader`] is fed the lines of a geometry file and says when a
//! material library must be read; [`material::Material::from_source`] reads
//! such a library's text. Numbers are kept as the literal text they were
//! written as ([`number::Scalar`]), each one a literal that Rust's `f32`
//! parser accepts.
pub mod error;
pub mod face;
pub mod material;
pub mod mesh;
pub mod number;
pub mod pool;
pub mod text;
pub mod vector;
pub mod vertex;
