//! Builds the `PKGBUILD` recipe of an Arch Linux package from a Cargo
//! manifest.
//!
//! The work has two steps. [`ArchConfig::new`] reads the manifest and resolves
//! the configuration of the package: every field is the override that the
//! manifest holds for it in `[package.metadata.arch]`, or else what the
//! `[package]` table says, or else a default.
//! [`ArchConfig::generate_pkgbuild`] renders the configuration as the text of
//! the recipe. Neither touches a file: the caller reads the manifest and
//! writes the recipe.
//!
//! Both steps are verified with Verus against a mathematical description of
//! their result: [`config::arch::resolved`] and [`config::pkgbuild::recipe`].
//! What is assumed rather than proved is how the `toml` crate reads a
//! document; those assumptions stand in [`document`].

pub mod config;
pub mod document;
pub mod error;
pub mod text;

pub use crate::config::arch::{ArchConfig, CargoArch};
pub use crate::config::manifest::{Cargo, CargoPackage};
pub use crate::config::meta::CargoMetadata;
pub use crate::error::ManifestError;
