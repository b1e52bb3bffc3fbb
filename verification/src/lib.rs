//! Loader for binary avatar-description containers: a glTF-style binary
//! file carrying a JSON scene description, raw buffers, and humanoid-rig
//! metadata is decoded into a renderer-agnostic scene: a node hierarchy,
//! meshes with packed morph targets, standard and toon materials, skins, a
//! semantic humanoid bone mapping, and a gaze (eye look-at) evaluator.
//!
//! The pipeline runs bottom up: [`container`] splits the raw bytes,
//! [`json`] parses the document, [`document`] types it, [`buffers`]
//! resolves each declared buffer to bytes, [`accessor`] decodes typed
//! arrays, [`mesh`] and [`material`] assemble primitives and material
//! variants, [`texture`] selects encoded images, and [`scene`] builds the
//! node arena, wires skins, and attaches the [`rig`] with its gaze nodes,
//! evaluated by [`gaze`].
//!
//! All scalar quantities that the container stores as IEEE-754 single
//! precision values are carried as Q47.16 fixed-point integers
//! ([`fixed::Fx`]), so every stage of the pipeline is plain integer
//! arithmetic. File and network reads stay outside: callers hand in the
//! container bytes and the bytes of any external files it references.

pub mod accessor;
pub mod api;
pub mod blend;
pub mod buffers;
pub mod container;
pub mod debug_mesh;
pub mod document;
pub mod error;
pub mod fixed;
pub mod gaze;
pub mod geom;
pub mod json;
pub mod material;
pub mod mesh;
pub mod rig;
pub mod scene;
pub mod texture;
