//! Locates a Fuchsia tree, derives the toolchain and sysroot paths of a
//! target from it, composes the environments of cross builds, reads the
//! tree's local configuration and the dependency names of crate manifests.

pub mod text;
pub mod sdk;
pub mod config;
pub mod cross;
pub mod gn_deps;
