//! The `[package.metadata]` table of a manifest, of which only the table for
//! Arch Linux is read.

use crate::config::arch::{decoded_arch, CargoArch, CargoArchView};
use crate::config::fields::{fault, read_table, table_at, Shape};
use crate::document::{table_items, Item};
use crate::error::{Fault, ManifestError};
use vstd::prelude::*;

verus! {

/// The dotted path of the metadata table, with its final dot.
pub const METADATA_SECTION: &'static str = "package.metadata.";

/// The `[package.metadata]` table of a manifest.
#[derive(Clone, Debug, PartialEq, Eq)]
pub struct CargoMetadata {
    /// The overrides for Arch Linux, where the manifest has the table.
    pub arch: Option<CargoArch>,
}

/// A [`CargoMetadata`] with its strings as sequences of characters.
pub struct CargoMetadataView {
    pub arch: Option<CargoArchView>,
}

impl View for CargoMetadata {
    type V = CargoMetadataView;

    open spec fn view(&self) -> CargoMetadataView {
        CargoMetadataView {
            arch: match self.arch {
                Some(arch) => Some(arch@),
                None => None,
            },
        }
    }
}

impl Default for CargoMetadata {
    /// The metadata table without a table for Arch Linux.
    fn default() -> (metadata: CargoMetadata)
        ensures
            metadata@ == (CargoMetadataView { arch: None }),
    {
        CargoMetadata { arch: None }
    }
}

/// What a metadata table holds: the overrides of its `arch` table where it
/// has one, or the fault of that table.
pub open spec fn decoded_metadata(table: Map<Seq<char>, Item>) -> Result<CargoMetadataView, Fault> {
    match fault(table, METADATA_SECTION@, "arch"@, Shape::Table, false) {
        Some(fault) => Err(fault),
        None => match table_at(table, "arch"@) {
            None => Ok(CargoMetadataView { arch: None }),
            Some(arch) => match decoded_arch(arch) {
                Ok(arch) => Ok(CargoMetadataView { arch: Some(arch) }),
                Err(fault) => Err(fault),
            },
        },
    }
}

impl CargoMetadata {
    /// Reads the `[package.metadata]` table.
    pub fn from_table(table: &toml::Table) -> (read: Result<CargoMetadata, ManifestError>)
        ensures
            match read {
                Ok(metadata) => decoded_metadata(table_items(*table)) == Ok::<
                    CargoMetadataView,
                    Fault,
                >(metadata@),
                Err(e) => decoded_metadata(table_items(*table)) == Err::<CargoMetadataView, Fault>(
                    e@,
                ),
            },
    {
        match read_table(table, METADATA_SECTION, "arch", false) {
            Err(e) => Err(e),
            Ok(None) => Ok(CargoMetadata { arch: None }),
            Ok(Some(arch)) => match CargoArch::from_table(arch) {
                Ok(arch) => Ok(CargoMetadata { arch: Some(arch) }),
                Err(e) => Err(e),
            },
        }
    }
}

} // verus!
