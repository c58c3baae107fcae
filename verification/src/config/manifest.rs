//! The part of a Cargo manifest from which a recipe is made: the `[package]`
//! table with its name, version, authors, description and license, its two
//! optional addresses and its optional metadata.

use crate::config::fields::{
    fault, first_fault, lemma_first_fault_at, lemma_no_fault, read_table, read_text, read_texts,
    table_at, text_at, texts_at, Shape,
};
use crate::config::meta::{decoded_metadata, CargoMetadata, CargoMetadataView};
use crate::document::{parse_document, parsed_document, table_items, Item};
use crate::error::{Fault, ManifestError};
use vstd::prelude::*;
use vstd::string::StringExecFns;

verus! {

/// The dotted path of the package table, with its final dot.
pub const PACKAGE_SECTION: &'static str = "package.";

/// The name of the file that holds a manifest.
pub const MANIFEST_FILE: &'static str = "Cargo.toml";

/// The environment variable that names the directory of the manifest.
pub const MANIFEST_DIR_VARIABLE: &'static str = "CARGO_MANIFEST_DIR";

/// The directory in which the manifest is looked for when nothing names
/// another: the current one.
pub const CURRENT_DIR: &'static str = ".";

/// A manifest.
#[derive(Clone, Debug, PartialEq, Eq)]
pub struct Cargo {
    /// The `[package]` table.
    pub package: CargoPackage,
}

/// The `[package]` table of a manifest.
#[derive(Clone, Debug, PartialEq, Eq)]
pub struct CargoPackage {
    /// The name of the package.
    pub name: String,
    /// The version of the package.
    pub version: String,
    /// The authors of the package, in the manifest's order.
    pub authors: Vec<String>,
    /// What the package is, in a few words.
    pub description: String,
    /// The license expression; a slash separates alternatives.
    pub license: String,
    /// The address of the package's site.
    pub homepage: Option<String>,
    /// The address of the package's sources.
    pub repository: Option<String>,
    /// The `[package.metadata]` table.
    pub metadata: Option<CargoMetadata>,
}

/// A [`Cargo`] with its strings as sequences of characters.
pub struct CargoView {
    pub package: CargoPackageView,
}

/// A [`CargoPackage`] with its strings as sequences of characters.
pub struct CargoPackageView {
    pub name: Seq<char>,
    pub version: Seq<char>,
    pub authors: Seq<Seq<char>>,
    pub description: Seq<char>,
    pub license: Seq<char>,
    pub homepage: Option<Seq<char>>,
    pub repository: Option<Seq<char>>,
    pub metadata: Option<CargoMetadataView>,
}

impl View for CargoPackage {
    type V = CargoPackageView;

    open spec fn view(&self) -> CargoPackageView {
        CargoPackageView {
            name: self.name@,
            version: self.version@,
            authors: self.authors.deep_view(),
            description: self.description@,
            license: self.license@,
            homepage: self.homepage.deep_view(),
            repository: self.repository.deep_view(),
            metadata: match self.metadata {
                Some(metadata) => Some(metadata@),
                None => None,
            },
        }
    }
}

impl View for Cargo {
    type V = CargoView;

    open spec fn view(&self) -> CargoView {
        CargoView { package: self.package@ }
    }
}

/// What is wrong with each key of a package table, in the order in which the
/// keys are read. Name, version, authors, description and license are
/// required; the two addresses and the metadata are not.
pub open spec fn package_faults(table: Map<Seq<char>, Item>) -> Seq<Option<Fault>> {
    seq![
        fault(table, PACKAGE_SECTION@, "name"@, Shape::Text, true),
        fault(table, PACKAGE_SECTION@, "version"@, Shape::Text, true),
        fault(table, PACKAGE_SECTION@, "authors"@, Shape::List, true),
        fault(table, PACKAGE_SECTION@, "description"@, Shape::Text, true),
        fault(table, PACKAGE_SECTION@, "license"@, Shape::Text, true),
        fault(table, PACKAGE_SECTION@, "homepage"@, Shape::Text, false),
        fault(table, PACKAGE_SECTION@, "repository"@, Shape::Text, false),
        fault(table, PACKAGE_SECTION@, "metadata"@, Shape::Table, false),
    ]
}

/// The package that a faultless package table holds, beside `metadata`.
pub open spec fn package_values(
    table: Map<Seq<char>, Item>,
    metadata: Option<CargoMetadataView>,
) -> CargoPackageView {
    CargoPackageView {
        name: text_at(table, "name"@).unwrap(),
        version: text_at(table, "version"@).unwrap(),
        authors: texts_at(table, "authors"@).unwrap(),
        description: text_at(table, "description"@).unwrap(),
        license: text_at(table, "license"@).unwrap(),
        homepage: text_at(table, "homepage"@),
        repository: text_at(table, "repository"@),
        metadata,
    }
}

/// The package that a package table holds, or its first fault: that of its
/// own keys, or else that of its metadata.
pub open spec fn decoded_package(table: Map<Seq<char>, Item>) -> Result<CargoPackageView, Fault> {
    match first_fault(package_faults(table)) {
        Some(fault) => Err(fault),
        None => match table_at(table, "metadata"@) {
            None => Ok(package_values(table, None)),
            Some(metadata) => match decoded_metadata(metadata) {
                Ok(metadata) => Ok(package_values(table, Some(metadata))),
                Err(fault) => Err(fault),
            },
        },
    }
}

/// The manifest that a document holds, or its first fault. The document must
/// have a `package` table.
pub open spec fn decoded_manifest(document: Map<Seq<char>, Item>) -> Result<CargoView, Fault> {
    match fault(document, Seq::empty(), "package"@, Shape::Table, true) {
        Some(fault) => Err(fault),
        None => match decoded_package(table_at(document, "package"@).unwrap()) {
            Ok(package) => Ok(CargoView { package }),
            Err(fault) => Err(fault),
        },
    }
}

/// The manifest that `text` spells: a text that is no TOML document is a
/// syntax fault, and a document is read by [`decoded_manifest`].
pub open spec fn manifest_of(text: Seq<char>) -> Result<CargoView, Fault> {
    match parsed_document(text) {
        None => Err(Fault::Syntax),
        Some(document) => decoded_manifest(document),
    }
}

/// The path of the manifest file: the file [`MANIFEST_FILE`] in the directory
/// `given`, or else in the directory that the environment names, or else in
/// the current directory.
pub open spec fn manifest_path(given: Option<Seq<char>>, environment: Option<Seq<char>>) -> Seq<
    char,
> {
    given.unwrap_or(environment.unwrap_or(CURRENT_DIR@)) + "/"@ + MANIFEST_FILE@
}

impl CargoPackage {
    /// Reads the `[package]` table.
    pub fn from_table(table: &toml::Table) -> (read: Result<CargoPackage, ManifestError>)
        ensures
            match read {
                Ok(package) => decoded_package(table_items(*table)) == Ok::<
                    CargoPackageView,
                    Fault,
                >(package@),
                Err(e) => decoded_package(table_items(*table)) == Err::<CargoPackageView, Fault>(
                    e@,
                ),
            },
    {
        let ghost faults = package_faults(table_items(*table));
        let name = match read_text(table, PACKAGE_SECTION, "name", true) {
            Ok(value) => value.unwrap(),
            Err(e) => {
                proof {
                    lemma_first_fault_at(faults, 0);
                }
                return Err(e);
            },
        };
        let version = match read_text(table, PACKAGE_SECTION, "version", true) {
            Ok(value) => value.unwrap(),
            Err(e) => {
                proof {
                    lemma_first_fault_at(faults, 1);
                }
                return Err(e);
            },
        };
        let authors = match read_texts(table, PACKAGE_SECTION, "authors", true) {
            Ok(value) => value.unwrap(),
            Err(e) => {
                proof {
                    lemma_first_fault_at(faults, 2);
                }
                return Err(e);
            },
        };
        let description = match read_text(table, PACKAGE_SECTION, "description", true) {
            Ok(value) => value.unwrap(),
            Err(e) => {
                proof {
                    lemma_first_fault_at(faults, 3);
                }
                return Err(e);
            },
        };
        let license = match read_text(table, PACKAGE_SECTION, "license", true) {
            Ok(value) => value.unwrap(),
            Err(e) => {
                proof {
                    lemma_first_fault_at(faults, 4);
                }
                return Err(e);
            },
        };
        let homepage = match read_text(table, PACKAGE_SECTION, "homepage", false) {
            Ok(value) => value,
            Err(e) => {
                proof {
                    lemma_first_fault_at(faults, 5);
                }
                return Err(e);
            },
        };
        let repository = match read_text(table, PACKAGE_SECTION, "repository", false) {
            Ok(value) => value,
            Err(e) => {
                proof {
                    lemma_first_fault_at(faults, 6);
                }
                return Err(e);
            },
        };
        let metadata_table = match read_table(table, PACKAGE_SECTION, "metadata", false) {
            Ok(value) => value,
            Err(e) => {
                proof {
                    lemma_first_fault_at(faults, 7);
                }
                return Err(e);
            },
        };
        proof {
            lemma_no_fault(faults);
        }
        let metadata = match metadata_table {
            None => None,
            Some(inner) => match CargoMetadata::from_table(inner) {
                Ok(metadata) => Some(metadata),
                Err(e) => {
                    return Err(e);
                },
            },
        };
        Ok(
            CargoPackage {
                name,
                version,
                authors,
                description,
                license,
                homepage,
                repository,
                metadata,
            },
        )
    }
}

impl Cargo {
    /// Says where the manifest is: `given` is the directory that the caller
    /// asks for, `environment` the value of [`MANIFEST_DIR_VARIABLE`], each
    /// where there is one.
    pub fn manifest_path(given: Option<&str>, environment: Option<&str>) -> (path: String)
        ensures
            path@ == manifest_path(given.deep_view(), environment.deep_view()),
    {
        let dir = match given {
            Some(dir) => dir,
            None => match environment {
                Some(dir) => dir,
                None => CURRENT_DIR,
            },
        };
        dir.to_owned().concat("/").concat(MANIFEST_FILE)
    }

    /// Reads a manifest from its document.
    pub fn from_table(document: &toml::Table) -> (read: Result<Cargo, ManifestError>)
        ensures
            match read {
                Ok(cargo) => decoded_manifest(table_items(*document)) == Ok::<CargoView, Fault>(
                    cargo@,
                ),
                Err(e) => decoded_manifest(table_items(*document)) == Err::<CargoView, Fault>(e@),
            },
    {
        let package = match read_table(document, "", "package", true) {
            Ok(value) => value.unwrap(),
            Err(e) => {
                proof {
                    reveal_strlit("");
                    assert(""@ =~= Seq::<char>::empty());
                }
                return Err(e);
            },
        };
        match CargoPackage::from_table(package) {
            Ok(package) => Ok(Cargo { package }),
            Err(e) => Err(e),
        }
    }

    /// Reads a manifest from its text.
    pub fn from_manifest(text: &str) -> (read: Result<Cargo, ManifestError>)
        ensures
            match read {
                Ok(cargo) => manifest_of(text@) == Ok::<CargoView, Fault>(cargo@),
                Err(e) => manifest_of(text@) == Err::<CargoView, Fault>(e@),
            },
    {
        match parse_document(text) {
            Ok(document) => Cargo::from_table(&document),
            Err(_) => Err(ManifestError::Syntax),
        }
    }
}

} // verus!
