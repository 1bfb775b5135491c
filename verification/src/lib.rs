//! Turns a set of requested entry points into a servable graph of build
//! artifacts ("chunks") grouped for delivery to a client runtime.
//!
//! The pipeline is: resolve each entry request to at most one module, classify
//! the module by capability, produce one chunk per module (injecting the
//! runtime bootstrap entries into the first entry's chunk only), wrap each
//! chunk into a chunk group, and expose the groups plus a synthetic HTML
//! bootstrap asset as a path-addressable content graph that can be
//! materialized eagerly or lazily.
//!
//! The language-aware transform pipeline that resolves a request to a module,
//! the filesystem, and the serving transport are external collaborators: they
//! hand this library plain values (resolution outcomes, roots, pathnames) and
//! take plain values back.

pub mod assembly;
pub mod chunking;
pub mod errors;
pub mod graph;
pub mod lookup;
pub mod model;
pub mod pages;
pub mod paths;
pub mod resolution;
pub mod source;
