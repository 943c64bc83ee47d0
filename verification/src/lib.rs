//! Embedded VMAF model definitions and a temp-file materialization cache.
//!
//! The native VMAF library loads its machine-learning model from a
//! filesystem path. This crate embeds the model payloads as compile-time
//! constants and, on demand, materializes them as files in a private
//! temporary directory, returning a stable path for the rest of the
//! process's lifetime.

pub mod assets;
pub mod cache;
