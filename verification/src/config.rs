//! The manifest, the package configuration resolved from it, and the recipe
//! rendered from that.

pub mod arch;
pub mod fields;
pub mod manifest;
pub mod meta;
pub mod pkgbuild;
