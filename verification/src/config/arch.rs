//! The package configuration of Arch Linux: the overrides that a manifest may
//! hold in its `[package.metadata.arch]` table, and the configuration that is
//! resolved from the manifest and them.

use crate::config::fields::{
    fault, first_fault, lemma_first_fault_at, lemma_no_fault, read_text, read_texts, text_at,
    texts_at, Shape,
};
use crate::config::manifest::{manifest_of, Cargo, CargoView};
use crate::document::{table_items, Item};
use crate::error::{Fault, ManifestError};
use crate::text::{clone_texts, license_list, split_license};
use vstd::prelude::*;

verus! {

/// The dotted path of the table of overrides, with its final dot.
pub const ARCH_SECTION: &'static str = "package.metadata.arch.";

/// The release number of a package whose manifest gives none.
pub const FIRST_RELEASE: &'static str = "1";

/// The epoch of a package whose manifest gives none.
pub const NO_EPOCH: &'static str = "0";

/// The `[package.metadata.arch]` table of a manifest. Each key that is present
/// overrides what the configuration would otherwise take from the manifest or
/// from its defaults.
#[derive(Clone, Debug, PartialEq, Eq)]
pub struct CargoArch {
    /// Who maintains the package.
    pub maintainers: Option<Vec<String>>,
    /// The name of the package.
    pub pkgname: Option<String>,
    /// The version of the software, as its authors released it.
    pub pkgver: Option<String>,
    /// The number of this release of the package for one version of the software.
    pub pkgrel: Option<String>,
    /// A number that makes the package newer than every version with a lower epoch.
    pub epoch: Option<String>,
    /// What the package is, in a few words.
    pub pkgdesc: Option<String>,
    /// The address of the site of the software.
    pub url: Option<String>,
    /// The licenses under which the software is distributed.
    pub license: Option<Vec<String>>,
    /// The install script that goes into the package.
    pub install: Option<String>,
    /// The changelog file that goes into the package.
    pub changelog: Option<String>,
    /// The files from which the package is built.
    pub source: Option<Vec<String>>,
    /// The PGP fingerprints whose signatures on the sources are accepted.
    pub validpgpkeys: Option<Vec<String>>,
    /// The source files that are not to be unpacked.
    pub noextract: Option<Vec<String>>,
    /// The MD5 checksums of the sources, in their order.
    pub md5sums: Option<Vec<String>>,
    /// The SHA-1 checksums of the sources, in their order.
    pub sha1sums: Option<Vec<String>>,
    /// The SHA-256 checksums of the sources, in their order.
    pub sha256sums: Option<Vec<String>>,
    /// The SHA-384 checksums of the sources, in their order.
    pub sha384sums: Option<Vec<String>>,
    /// The SHA-512 checksums of the sources, in their order.
    pub sha512sums: Option<Vec<String>>,
    /// The groups of packages to which the package belongs.
    pub groups: Option<Vec<String>>,
    /// The architectures on which the package can be built and used.
    pub arch: Option<Vec<String>>,
    /// The files that are kept when the package is upgraded or removed.
    pub backup: Option<Vec<String>>,
    /// The packages that the software needs to run.
    pub depends: Option<Vec<String>>,
    /// The packages that are needed only to build the software.
    pub makedepends: Option<Vec<String>>,
    /// The packages that are needed only to run the software's tests.
    pub checkdepends: Option<Vec<String>>,
    /// The packages that the software can do without, each with what it adds.
    pub optdepends: Option<Vec<String>>,
    /// The packages that cannot be installed beside this one.
    pub conflicts: Option<Vec<String>>,
    /// What the package provides under other names.
    pub provides: Option<Vec<String>>,
    /// The packages that this one takes the place of.
    pub replaces: Option<Vec<String>>,
    /// Switches that change how the package is built.
    pub options: Option<Vec<String>>,
}

/// A [`CargoArch`] with its strings as sequences of characters.
pub struct CargoArchView {
    pub maintainers: Option<Seq<Seq<char>>>,
    pub pkgname: Option<Seq<char>>,
    pub pkgver: Option<Seq<char>>,
    pub pkgrel: Option<Seq<char>>,
    pub epoch: Option<Seq<char>>,
    pub pkgdesc: Option<Seq<char>>,
    pub url: Option<Seq<char>>,
    pub license: Option<Seq<Seq<char>>>,
    pub install: Option<Seq<char>>,
    pub changelog: Option<Seq<char>>,
    pub source: Option<Seq<Seq<char>>>,
    pub validpgpkeys: Option<Seq<Seq<char>>>,
    pub noextract: Option<Seq<Seq<char>>>,
    pub md5sums: Option<Seq<Seq<char>>>,
    pub sha1sums: Option<Seq<Seq<char>>>,
    pub sha256sums: Option<Seq<Seq<char>>>,
    pub sha384sums: Option<Seq<Seq<char>>>,
    pub sha512sums: Option<Seq<Seq<char>>>,
    pub groups: Option<Seq<Seq<char>>>,
    pub arch: Option<Seq<Seq<char>>>,
    pub backup: Option<Seq<Seq<char>>>,
    pub depends: Option<Seq<Seq<char>>>,
    pub makedepends: Option<Seq<Seq<char>>>,
    pub checkdepends: Option<Seq<Seq<char>>>,
    pub optdepends: Option<Seq<Seq<char>>>,
    pub conflicts: Option<Seq<Seq<char>>>,
    pub provides: Option<Seq<Seq<char>>>,
    pub replaces: Option<Seq<Seq<char>>>,
    pub options: Option<Seq<Seq<char>>>,
}

impl View for CargoArch {
    type V = CargoArchView;

    open spec fn view(&self) -> CargoArchView {
        CargoArchView {
            maintainers: self.maintainers.deep_view(),
            pkgname: self.pkgname.deep_view(),
            pkgver: self.pkgver.deep_view(),
            pkgrel: self.pkgrel.deep_view(),
            epoch: self.epoch.deep_view(),
            pkgdesc: self.pkgdesc.deep_view(),
            url: self.url.deep_view(),
            license: self.license.deep_view(),
            install: self.install.deep_view(),
            changelog: self.changelog.deep_view(),
            source: self.source.deep_view(),
            validpgpkeys: self.validpgpkeys.deep_view(),
            noextract: self.noextract.deep_view(),
            md5sums: self.md5sums.deep_view(),
            sha1sums: self.sha1sums.deep_view(),
            sha256sums: self.sha256sums.deep_view(),
            sha384sums: self.sha384sums.deep_view(),
            sha512sums: self.sha512sums.deep_view(),
            groups: self.groups.deep_view(),
            arch: self.arch.deep_view(),
            backup: self.backup.deep_view(),
            depends: self.depends.deep_view(),
            makedepends: self.makedepends.deep_view(),
            checkdepends: self.checkdepends.deep_view(),
            optdepends: self.optdepends.deep_view(),
            conflicts: self.conflicts.deep_view(),
            provides: self.provides.deep_view(),
            replaces: self.replaces.deep_view(),
            options: self.options.deep_view(),
        }
    }
}

impl CargoArchView {
    /// The table without any key: nothing is overridden.
    pub open spec fn empty() -> CargoArchView {
        CargoArchView {
            maintainers: None,
            pkgname: None,
            pkgver: None,
            pkgrel: None,
            epoch: None,
            pkgdesc: None,
            url: None,
            license: None,
            install: None,
            changelog: None,
            source: None,
            validpgpkeys: None,
            noextract: None,
            md5sums: None,
            sha1sums: None,
            sha256sums: None,
            sha384sums: None,
            sha512sums: None,
            groups: None,
            arch: None,
            backup: None,
            depends: None,
            makedepends: None,
            checkdepends: None,
            optdepends: None,
            conflicts: None,
            provides: None,
            replaces: None,
            options: None,
        }
    }
}

impl Default for CargoArch {
    /// The table without any key.
    fn default() -> (arch: CargoArch)
        ensures
            arch@ == CargoArchView::empty(),
    {
        CargoArch {
            maintainers: None,
            pkgname: None,
            pkgver: None,
            pkgrel: None,
            epoch: None,
            pkgdesc: None,
            url: None,
            license: None,
            install: None,
            changelog: None,
            source: None,
            validpgpkeys: None,
            noextract: None,
            md5sums: None,
            sha1sums: None,
            sha256sums: None,
            sha384sums: None,
            sha512sums: None,
            groups: None,
            arch: None,
            backup: None,
            depends: None,
            makedepends: None,
            checkdepends: None,
            optdepends: None,
            conflicts: None,
            provides: None,
            replaces: None,
            options: None,
        }
    }
}

/// What is wrong with each key of a table of overrides, in the order in which
/// the keys are read. No key is required.
pub open spec fn arch_faults(table: Map<Seq<char>, Item>) -> Seq<Option<Fault>> {
    seq![
        fault(table, ARCH_SECTION@, "maintainers"@, Shape::List, false),
        fault(table, ARCH_SECTION@, "pkgname"@, Shape::Text, false),
        fault(table, ARCH_SECTION@, "pkgver"@, Shape::Text, false),
        fault(table, ARCH_SECTION@, "pkgrel"@, Shape::Text, false),
        fault(table, ARCH_SECTION@, "epoch"@, Shape::Text, false),
        fault(table, ARCH_SECTION@, "pkgdesc"@, Shape::Text, false),
        fault(table, ARCH_SECTION@, "url"@, Shape::Text, false),
        fault(table, ARCH_SECTION@, "license"@, Shape::List, false),
        fault(table, ARCH_SECTION@, "install"@, Shape::Text, false),
        fault(table, ARCH_SECTION@, "changelog"@, Shape::Text, false),
        fault(table, ARCH_SECTION@, "source"@, Shape::List, false),
        fault(table, ARCH_SECTION@, "validpgpkeys"@, Shape::List, false),
        fault(table, ARCH_SECTION@, "noextract"@, Shape::List, false),
        fault(table, ARCH_SECTION@, "md5sums"@, Shape::List, false),
        fault(table, ARCH_SECTION@, "sha1sums"@, Shape::List, false),
        fault(table, ARCH_SECTION@, "sha256sums"@, Shape::List, false),
        fault(table, ARCH_SECTION@, "sha384sums"@, Shape::List, false),
        fault(table, ARCH_SECTION@, "sha512sums"@, Shape::List, false),
        fault(table, ARCH_SECTION@, "groups"@, Shape::List, false),
        fault(table, ARCH_SECTION@, "arch"@, Shape::List, false),
        fault(table, ARCH_SECTION@, "backup"@, Shape::List, false),
        fault(table, ARCH_SECTION@, "depends"@, Shape::List, false),
        fault(table, ARCH_SECTION@, "makedepends"@, Shape::List, false),
        fault(table, ARCH_SECTION@, "checkdepends"@, Shape::List, false),
        fault(table, ARCH_SECTION@, "optdepends"@, Shape::List, false),
        fault(table, ARCH_SECTION@, "conflicts"@, Shape::List, false),
        fault(table, ARCH_SECTION@, "provides"@, Shape::List, false),
        fault(table, ARCH_SECTION@, "replaces"@, Shape::List, false),
        fault(table, ARCH_SECTION@, "options"@, Shape::List, false),
    ]
}

/// The overrides that a table holds, key by key.
pub open spec fn arch_values(table: Map<Seq<char>, Item>) -> CargoArchView {
    CargoArchView {
        maintainers: texts_at(table, "maintainers"@),
        pkgname: text_at(table, "pkgname"@),
        pkgver: text_at(table, "pkgver"@),
        pkgrel: text_at(table, "pkgrel"@),
        epoch: text_at(table, "epoch"@),
        pkgdesc: text_at(table, "pkgdesc"@),
        url: text_at(table, "url"@),
        license: texts_at(table, "license"@),
        install: text_at(table, "install"@),
        changelog: text_at(table, "changelog"@),
        source: texts_at(table, "source"@),
        validpgpkeys: texts_at(table, "validpgpkeys"@),
        noextract: texts_at(table, "noextract"@),
        md5sums: texts_at(table, "md5sums"@),
        sha1sums: texts_at(table, "sha1sums"@),
        sha256sums: texts_at(table, "sha256sums"@),
        sha384sums: texts_at(table, "sha384sums"@),
        sha512sums: texts_at(table, "sha512sums"@),
        groups: texts_at(table, "groups"@),
        arch: texts_at(table, "arch"@),
        backup: texts_at(table, "backup"@),
        depends: texts_at(table, "depends"@),
        makedepends: texts_at(table, "makedepends"@),
        checkdepends: texts_at(table, "checkdepends"@),
        optdepends: texts_at(table, "optdepends"@),
        conflicts: texts_at(table, "conflicts"@),
        provides: texts_at(table, "provides"@),
        replaces: texts_at(table, "replaces"@),
        options: texts_at(table, "options"@),
    }
}

/// The overrides that a table holds, or the first fault among its keys. Keys
/// that are no overrides are passed over.
pub open spec fn decoded_arch(table: Map<Seq<char>, Item>) -> Result<CargoArchView, Fault> {
    match first_fault(arch_faults(table)) {
        Some(fault) => Err(fault),
        None => Ok(arch_values(table)),
    }
}

impl CargoArch {
    /// Reads the overrides from the `[package.metadata.arch]` table.
    pub fn from_table(table: &toml::Table) -> (read: Result<CargoArch, ManifestError>)
        ensures
            match read {
                Ok(arch) => decoded_arch(table_items(*table)) == Ok::<CargoArchView, Fault>(arch@),
                Err(e) => decoded_arch(table_items(*table)) == Err::<CargoArchView, Fault>(e@),
            },
    {
        let ghost faults = arch_faults(table_items(*table));
        let maintainers = match read_texts(table, ARCH_SECTION, "maintainers", false) {
            Ok(value) => value,
            Err(e) => {
                proof {
                    lemma_first_fault_at(faults, 0);
                }
                return Err(e);
            },
        };
        let pkgname = match read_text(table, ARCH_SECTION, "pkgname", false) {
            Ok(value) => value,
            Err(e) => {
                proof {
                    lemma_first_fault_at(faults, 1);
                }
                return Err(e);
            },
        };
        let pkgver = match read_text(table, ARCH_SECTION, "pkgver", false) {
            Ok(value) => value,
            Err(e) => {
                proof {
                    lemma_first_fault_at(faults, 2);
                }
                return Err(e);
            },
        };
        let pkgrel = match read_text(table, ARCH_SECTION, "pkgrel", false) {
            Ok(value) => value,
            Err(e) => {
                proof {
                    lemma_first_fault_at(faults, 3);
                }
                return Err(e);
            },
        };
        let epoch = match read_text(table, ARCH_SECTION, "epoch", false) {
            Ok(value) => value,
            Err(e) => {
                proof {
                    lemma_first_fault_at(faults, 4);
                }
                return Err(e);
            },
        };
        let pkgdesc = match read_text(table, ARCH_SECTION, "pkgdesc", false) {
            Ok(value) => value,
            Err(e) => {
                proof {
                    lemma_first_fault_at(faults, 5);
                }
                return Err(e);
            },
        };
        let url = match read_text(table, ARCH_SECTION, "url", false) {
            Ok(value) => value,
            Err(e) => {
                proof {
                    lemma_first_fault_at(faults, 6);
                }
                return Err(e);
            },
        };
        let license = match read_texts(table, ARCH_SECTION, "license", false) {
            Ok(value) => value,
            Err(e) => {
                proof {
                    lemma_first_fault_at(faults, 7);
                }
                return Err(e);
            },
        };
        let install = match read_text(table, ARCH_SECTION, "install", false) {
            Ok(value) => value,
            Err(e) => {
                proof {
                    lemma_first_fault_at(faults, 8);
                }
                return Err(e);
            },
        };
        let changelog = match read_text(table, ARCH_SECTION, "changelog", false) {
            Ok(value) => value,
            Err(e) => {
                proof {
                    lemma_first_fault_at(faults, 9);
                }
                return Err(e);
            },
        };
        let source = match read_texts(table, ARCH_SECTION, "source", false) {
            Ok(value) => value,
            Err(e) => {
                proof {
                    lemma_first_fault_at(faults, 10);
                }
                return Err(e);
            },
        };
        let validpgpkeys = match read_texts(table, ARCH_SECTION, "validpgpkeys", false) {
            Ok(value) => value,
            Err(e) => {
                proof {
                    lemma_first_fault_at(faults, 11);
                }
                return Err(e);
            },
        };
        let noextract = match read_texts(table, ARCH_SECTION, "noextract", false) {
            Ok(value) => value,
            Err(e) => {
                proof {
                    lemma_first_fault_at(faults, 12);
                }
                return Err(e);
            },
        };
        let md5sums = match read_texts(table, ARCH_SECTION, "md5sums", false) {
            Ok(value) => value,
            Err(e) => {
                proof {
                    lemma_first_fault_at(faults, 13);
                }
                return Err(e);
            },
        };
        let sha1sums = match read_texts(table, ARCH_SECTION, "sha1sums", false) {
            Ok(value) => value,
            Err(e) => {
                proof {
                    lemma_first_fault_at(faults, 14);
                }
                return Err(e);
            },
        };
        let sha256sums = match read_texts(table, ARCH_SECTION, "sha256sums", false) {
            Ok(value) => value,
            Err(e) => {
                proof {
                    lemma_first_fault_at(faults, 15);
                }
                return Err(e);
            },
        };
        let sha384sums = match read_texts(table, ARCH_SECTION, "sha384sums", false) {
            Ok(value) => value,
            Err(e) => {
                proof {
                    lemma_first_fault_at(faults, 16);
                }
                return Err(e);
            },
        };
        let sha512sums = match read_texts(table, ARCH_SECTION, "sha512sums", false) {
            Ok(value) => value,
            Err(e) => {
                proof {
                    lemma_first_fault_at(faults, 17);
                }
                return Err(e);
            },
        };
        let groups = match read_texts(table, ARCH_SECTION, "groups", false) {
            Ok(value) => value,
            Err(e) => {
                proof {
                    lemma_first_fault_at(faults, 18);
                }
                return Err(e);
            },
        };
        let arch = match read_texts(table, ARCH_SECTION, "arch", false) {
            Ok(value) => value,
            Err(e) => {
                proof {
                    lemma_first_fault_at(faults, 19);
                }
                return Err(e);
            },
        };
        let backup = match read_texts(table, ARCH_SECTION, "backup", false) {
            Ok(value) => value,
            Err(e) => {
                proof {
                    lemma_first_fault_at(faults, 20);
                }
                return Err(e);
            },
        };
        let depends = match read_texts(table, ARCH_SECTION, "depends", false) {
            Ok(value) => value,
            Err(e) => {
                proof {
                    lemma_first_fault_at(faults, 21);
                }
                return Err(e);
            },
        };
        let makedepends = match read_texts(table, ARCH_SECTION, "makedepends", false) {
            Ok(value) => value,
            Err(e) => {
                proof {
                    lemma_first_fault_at(faults, 22);
                }
                return Err(e);
            },
        };
        let checkdepends = match read_texts(table, ARCH_SECTION, "checkdepends", false) {
            Ok(value) => value,
            Err(e) => {
                proof {
                    lemma_first_fault_at(faults, 23);
                }
                return Err(e);
            },
        };
        let optdepends = match read_texts(table, ARCH_SECTION, "optdepends", false) {
            Ok(value) => value,
            Err(e) => {
                proof {
                    lemma_first_fault_at(faults, 24);
                }
                return Err(e);
            },
        };
        let conflicts = match read_texts(table, ARCH_SECTION, "conflicts", false) {
            Ok(value) => value,
            Err(e) => {
                proof {
                    lemma_first_fault_at(faults, 25);
                }
                return Err(e);
            },
        };
        let provides = match read_texts(table, ARCH_SECTION, "provides", false) {
            Ok(value) => value,
            Err(e) => {
                proof {
                    lemma_first_fault_at(faults, 26);
                }
                return Err(e);
            },
        };
        let replaces = match read_texts(table, ARCH_SECTION, "replaces", false) {
            Ok(value) => value,
            Err(e) => {
                proof {
                    lemma_first_fault_at(faults, 27);
                }
                return Err(e);
            },
        };
        let options = match read_texts(table, ARCH_SECTION, "options", false) {
            Ok(value) => value,
            Err(e) => {
                proof {
                    lemma_first_fault_at(faults, 28);
                }
                return Err(e);
            },
        };
        proof {
            lemma_no_fault(faults);
        }
        Ok(
            CargoArch {
                maintainers,
                pkgname,
                pkgver,
                pkgrel,
                epoch,
                pkgdesc,
                url,
                license,
                install,
                changelog,
                source,
                validpgpkeys,
                noextract,
                md5sums,
                sha1sums,
                sha256sums,
                sha384sums,
                sha512sums,
                groups,
                arch,
                backup,
                depends,
                makedepends,
                checkdepends,
                optdepends,
                conflicts,
                provides,
                replaces,
                options,
            },
        )
    }
}

/// The configuration of a package, with every field resolved: what a recipe
/// is rendered from.
#[derive(Clone, Debug, PartialEq, Eq)]
pub struct ArchConfig {
    /// Who maintains the package.
    pub maintainers: Vec<String>,
    /// The name of the package.
    pub pkgname: String,
    /// The version of the software, as its authors released it.
    pub pkgver: String,
    /// The number of this release of the package for one version of the software.
    pub pkgrel: String,
    /// A number that makes the package newer than every version with a lower epoch.
    pub epoch: String,
    /// What the package is, in a few words.
    pub pkgdesc: String,
    /// The address of the site of the software.
    pub url: String,
    /// The licenses under which the software is distributed.
    pub license: Vec<String>,
    /// The install script that goes into the package.
    pub install: String,
    /// The changelog file that goes into the package.
    pub changelog: String,
    /// The files from which the package is built.
    pub source: Vec<String>,
    /// The PGP fingerprints whose signatures on the sources are accepted.
    pub validpgpkeys: Vec<String>,
    /// The source files that are not to be unpacked.
    pub noextract: Vec<String>,
    /// The MD5 checksums of the sources, in their order.
    pub md5sums: Vec<String>,
    /// The SHA-1 checksums of the sources, in their order.
    pub sha1sums: Vec<String>,
    /// The SHA-256 checksums of the sources, in their order.
    pub sha256sums: Vec<String>,
    /// The SHA-384 checksums of the sources, in their order.
    pub sha384sums: Vec<String>,
    /// The SHA-512 checksums of the sources, in their order.
    pub sha512sums: Vec<String>,
    /// The groups of packages to which the package belongs.
    pub groups: Vec<String>,
    /// The architectures on which the package can be built and used.
    pub arch: Vec<String>,
    /// The files that are kept when the package is upgraded or removed.
    pub backup: Vec<String>,
    /// The packages that the software needs to run.
    pub depends: Vec<String>,
    /// The packages that are needed only to build the software.
    pub makedepends: Vec<String>,
    /// The packages that are needed only to run the software's tests.
    pub checkdepends: Vec<String>,
    /// The packages that the software can do without, each with what it adds.
    pub optdepends: Vec<String>,
    /// The packages that cannot be installed beside this one.
    pub conflicts: Vec<String>,
    /// What the package provides under other names.
    pub provides: Vec<String>,
    /// The packages that this one takes the place of.
    pub replaces: Vec<String>,
    /// Switches that change how the package is built.
    pub options: Vec<String>,
}

/// An [`ArchConfig`] with its strings as sequences of characters.
pub struct ArchConfigView {
    pub maintainers: Seq<Seq<char>>,
    pub pkgname: Seq<char>,
    pub pkgver: Seq<char>,
    pub pkgrel: Seq<char>,
    pub epoch: Seq<char>,
    pub pkgdesc: Seq<char>,
    pub url: Seq<char>,
    pub license: Seq<Seq<char>>,
    pub install: Seq<char>,
    pub changelog: Seq<char>,
    pub source: Seq<Seq<char>>,
    pub validpgpkeys: Seq<Seq<char>>,
    pub noextract: Seq<Seq<char>>,
    pub md5sums: Seq<Seq<char>>,
    pub sha1sums: Seq<Seq<char>>,
    pub sha256sums: Seq<Seq<char>>,
    pub sha384sums: Seq<Seq<char>>,
    pub sha512sums: Seq<Seq<char>>,
    pub groups: Seq<Seq<char>>,
    pub arch: Seq<Seq<char>>,
    pub backup: Seq<Seq<char>>,
    pub depends: Seq<Seq<char>>,
    pub makedepends: Seq<Seq<char>>,
    pub checkdepends: Seq<Seq<char>>,
    pub optdepends: Seq<Seq<char>>,
    pub conflicts: Seq<Seq<char>>,
    pub provides: Seq<Seq<char>>,
    pub replaces: Seq<Seq<char>>,
    pub options: Seq<Seq<char>>,
}

impl View for ArchConfig {
    type V = ArchConfigView;

    open spec fn view(&self) -> ArchConfigView {
        ArchConfigView {
            maintainers: self.maintainers.deep_view(),
            pkgname: self.pkgname@,
            pkgver: self.pkgver@,
            pkgrel: self.pkgrel@,
            epoch: self.epoch@,
            pkgdesc: self.pkgdesc@,
            url: self.url@,
            license: self.license.deep_view(),
            install: self.install@,
            changelog: self.changelog@,
            source: self.source.deep_view(),
            validpgpkeys: self.validpgpkeys.deep_view(),
            noextract: self.noextract.deep_view(),
            md5sums: self.md5sums.deep_view(),
            sha1sums: self.sha1sums.deep_view(),
            sha256sums: self.sha256sums.deep_view(),
            sha384sums: self.sha384sums.deep_view(),
            sha512sums: self.sha512sums.deep_view(),
            groups: self.groups.deep_view(),
            arch: self.arch.deep_view(),
            backup: self.backup.deep_view(),
            depends: self.depends.deep_view(),
            makedepends: self.makedepends.deep_view(),
            checkdepends: self.checkdepends.deep_view(),
            optdepends: self.optdepends.deep_view(),
            conflicts: self.conflicts.deep_view(),
            provides: self.provides.deep_view(),
            replaces: self.replaces.deep_view(),
            options: self.options.deep_view(),
        }
    }
}

/// The overrides of a manifest: its `[package.metadata.arch]` table, or the
/// table without any key where the manifest has none.
pub open spec fn overrides(manifest: CargoView) -> CargoArchView {
    match manifest.package.metadata {
        Some(metadata) => match metadata.arch {
            Some(arch) => arch,
            None => CargoArchView::empty(),
        },
        None => CargoArchView::empty(),
    }
}

/// The configuration that a manifest resolves to. Every field is its override
/// where the manifest has one. Failing that, the maintainers are the authors;
/// name, version and description are the package's own; release and epoch are
/// `1` and `0`; the address is the homepage, else the repository, else empty;
/// the licenses are those of the package's license expression; and every
/// other field is empty.
pub open spec fn resolved(manifest: CargoView) -> ArchConfigView {
    let package = manifest.package;
    let arch = overrides(manifest);
    ArchConfigView {
        maintainers: arch.maintainers.unwrap_or(package.authors),
        pkgname: arch.pkgname.unwrap_or(package.name),
        pkgver: arch.pkgver.unwrap_or(package.version),
        pkgrel: arch.pkgrel.unwrap_or(FIRST_RELEASE@),
        epoch: arch.epoch.unwrap_or(NO_EPOCH@),
        pkgdesc: arch.pkgdesc.unwrap_or(package.description),
        url: arch.url.unwrap_or(
            package.homepage.unwrap_or(package.repository.unwrap_or(Seq::empty())),
        ),
        license: arch.license.unwrap_or(license_list(package.license)),
        install: arch.install.unwrap_or(Seq::empty()),
        changelog: arch.changelog.unwrap_or(Seq::empty()),
        source: arch.source.unwrap_or(Seq::empty()),
        validpgpkeys: arch.validpgpkeys.unwrap_or(Seq::empty()),
        noextract: arch.noextract.unwrap_or(Seq::empty()),
        md5sums: arch.md5sums.unwrap_or(Seq::empty()),
        sha1sums: arch.sha1sums.unwrap_or(Seq::empty()),
        sha256sums: arch.sha256sums.unwrap_or(Seq::empty()),
        sha384sums: arch.sha384sums.unwrap_or(Seq::empty()),
        sha512sums: arch.sha512sums.unwrap_or(Seq::empty()),
        groups: arch.groups.unwrap_or(Seq::empty()),
        arch: arch.arch.unwrap_or(Seq::empty()),
        backup: arch.backup.unwrap_or(Seq::empty()),
        depends: arch.depends.unwrap_or(Seq::empty()),
        makedepends: arch.makedepends.unwrap_or(Seq::empty()),
        checkdepends: arch.checkdepends.unwrap_or(Seq::empty()),
        optdepends: arch.optdepends.unwrap_or(Seq::empty()),
        conflicts: arch.conflicts.unwrap_or(Seq::empty()),
        provides: arch.provides.unwrap_or(Seq::empty()),
        replaces: arch.replaces.unwrap_or(Seq::empty()),
        options: arch.options.unwrap_or(Seq::empty()),
    }
}

/// The override where there is one, else `otherwise`.
fn text_or(first: &Option<String>, otherwise: &str) -> (text: String)
    ensures
        text@ == first.deep_view().unwrap_or(otherwise@),
{
    match first {
        Some(text) => text.clone(),
        None => otherwise.to_owned(),
    }
}

/// The override where there is one, else the empty string.
fn text_or_none(first: &Option<String>) -> (text: String)
    ensures
        text@ == first.deep_view().unwrap_or(Seq::empty()),
{
    match first {
        Some(text) => text.clone(),
        None => String::new(),
    }
}

/// The override where there is one, else `otherwise`.
fn texts_or(first: &Option<Vec<String>>, otherwise: &Vec<String>) -> (texts: Vec<String>)
    ensures
        texts.deep_view() == first.deep_view().unwrap_or(otherwise.deep_view()),
{
    match first {
        Some(texts) => clone_texts(texts),
        None => clone_texts(otherwise),
    }
}

/// The override where there is one, else the empty list.
fn texts_or_none(first: &Option<Vec<String>>) -> (texts: Vec<String>)
    ensures
        texts.deep_view() == first.deep_view().unwrap_or(Seq::empty()),
{
    match first {
        Some(texts) => clone_texts(texts),
        None => {
            let texts: Vec<String> = Vec::new();
            assert(texts.deep_view() =~= Seq::<Seq<char>>::empty());
            texts
        },
    }
}

impl Cargo {
    /// Resolves the configuration of the package: see [`resolved`].
    pub fn to_config(&self) -> (config: ArchConfig)
        ensures
            config@ == resolved(self@),
    {
        let nothing = CargoArch::default();
        let arch: &CargoArch = match &self.package.metadata {
            Some(metadata) => match &metadata.arch {
                Some(arch) => arch,
                None => &nothing,
            },
            None => &nothing,
        };
        let package = &self.package;
        let url = match &arch.url {
            Some(url) => url.clone(),
            None => match &package.homepage {
                Some(homepage) => homepage.clone(),
                None => match &package.repository {
                    Some(repository) => repository.clone(),
                    None => String::new(),
                },
            },
        };
        let license = match &arch.license {
            Some(license) => clone_texts(license),
            None => split_license(package.license.as_str()),
        };
        ArchConfig {
            maintainers: texts_or(&arch.maintainers, &package.authors),
            pkgname: text_or(&arch.pkgname, package.name.as_str()),
            pkgver: text_or(&arch.pkgver, package.version.as_str()),
            pkgrel: text_or(&arch.pkgrel, FIRST_RELEASE),
            epoch: text_or(&arch.epoch, NO_EPOCH),
            pkgdesc: text_or(&arch.pkgdesc, package.description.as_str()),
            url,
            license,
            install: text_or_none(&arch.install),
            changelog: text_or_none(&arch.changelog),
            source: texts_or_none(&arch.source),
            validpgpkeys: texts_or_none(&arch.validpgpkeys),
            noextract: texts_or_none(&arch.noextract),
            md5sums: texts_or_none(&arch.md5sums),
            sha1sums: texts_or_none(&arch.sha1sums),
            sha256sums: texts_or_none(&arch.sha256sums),
            sha384sums: texts_or_none(&arch.sha384sums),
            sha512sums: texts_or_none(&arch.sha512sums),
            groups: texts_or_none(&arch.groups),
            arch: texts_or_none(&arch.arch),
            backup: texts_or_none(&arch.backup),
            depends: texts_or_none(&arch.depends),
            makedepends: texts_or_none(&arch.makedepends),
            checkdepends: texts_or_none(&arch.checkdepends),
            optdepends: texts_or_none(&arch.optdepends),
            conflicts: texts_or_none(&arch.conflicts),
            provides: texts_or_none(&arch.provides),
            replaces: texts_or_none(&arch.replaces),
            options: texts_or_none(&arch.options),
        }
    }
}

/// An override wins: a field that the overrides of a manifest set is resolved
/// to that value, whatever else the manifest holds.
pub proof fn lemma_override_wins(manifest: CargoView)
    ensures
        overrides(manifest).maintainers matches Some(value) ==> resolved(manifest).maintainers == value,
        overrides(manifest).pkgname matches Some(value) ==> resolved(manifest).pkgname == value,
        overrides(manifest).pkgver matches Some(value) ==> resolved(manifest).pkgver == value,
        overrides(manifest).pkgrel matches Some(value) ==> resolved(manifest).pkgrel == value,
        overrides(manifest).epoch matches Some(value) ==> resolved(manifest).epoch == value,
        overrides(manifest).pkgdesc matches Some(value) ==> resolved(manifest).pkgdesc == value,
        overrides(manifest).url matches Some(value) ==> resolved(manifest).url == value,
        overrides(manifest).license matches Some(value) ==> resolved(manifest).license == value,
        overrides(manifest).install matches Some(value) ==> resolved(manifest).install == value,
        overrides(manifest).changelog matches Some(value) ==> resolved(manifest).changelog == value,
        overrides(manifest).source matches Some(value) ==> resolved(manifest).source == value,
        overrides(manifest).validpgpkeys matches Some(value) ==> resolved(manifest).validpgpkeys == value,
        overrides(manifest).noextract matches Some(value) ==> resolved(manifest).noextract == value,
        overrides(manifest).md5sums matches Some(value) ==> resolved(manifest).md5sums == value,
        overrides(manifest).sha1sums matches Some(value) ==> resolved(manifest).sha1sums == value,
        overrides(manifest).sha256sums matches Some(value) ==> resolved(manifest).sha256sums == value,
        overrides(manifest).sha384sums matches Some(value) ==> resolved(manifest).sha384sums == value,
        overrides(manifest).sha512sums matches Some(value) ==> resolved(manifest).sha512sums == value,
        overrides(manifest).groups matches Some(value) ==> resolved(manifest).groups == value,
        overrides(manifest).arch matches Some(value) ==> resolved(manifest).arch == value,
        overrides(manifest).backup matches Some(value) ==> resolved(manifest).backup == value,
        overrides(manifest).depends matches Some(value) ==> resolved(manifest).depends == value,
        overrides(manifest).makedepends matches Some(value) ==> resolved(manifest).makedepends == value,
        overrides(manifest).checkdepends matches Some(value) ==> resolved(manifest).checkdepends == value,
        overrides(manifest).optdepends matches Some(value) ==> resolved(manifest).optdepends == value,
        overrides(manifest).conflicts matches Some(value) ==> resolved(manifest).conflicts == value,
        overrides(manifest).provides matches Some(value) ==> resolved(manifest).provides == value,
        overrides(manifest).replaces matches Some(value) ==> resolved(manifest).replaces == value,
        overrides(manifest).options matches Some(value) ==> resolved(manifest).options == value,
{
}

/// Where the address has no override, it is the homepage of the package;
/// without a homepage it is the repository; without either it is empty.
pub proof fn lemma_url_fallback(manifest: CargoView)
    requires
        overrides(manifest).url is None,
    ensures
        manifest.package.homepage matches Some(homepage) ==> resolved(manifest).url == homepage,
        manifest.package.homepage is None ==> (manifest.package.repository matches Some(
            repository,
        ) ==> resolved(manifest).url == repository),
        manifest.package.homepage is None && manifest.package.repository is None ==> resolved(
            manifest,
        ).url == Seq::<char>::empty(),
{
}

/// A manifest without overrides resolves to what the package says of itself
/// and to the defaults: release `1`, epoch `0`, the licenses of the license
/// expression, and nothing in any other field.
pub proof fn lemma_defaults(manifest: CargoView)
    requires
        overrides(manifest) == CargoArchView::empty(),
    ensures
        resolved(manifest).maintainers == manifest.package.authors,
        resolved(manifest).pkgname == manifest.package.name,
        resolved(manifest).pkgver == manifest.package.version,
        resolved(manifest).pkgrel == "1"@,
        resolved(manifest).epoch == "0"@,
        resolved(manifest).pkgdesc == manifest.package.description,
        resolved(manifest).license == license_list(manifest.package.license),
        resolved(manifest).install == Seq::<char>::empty(),
        resolved(manifest).changelog == Seq::<char>::empty(),
        resolved(manifest).source == Seq::<Seq<char>>::empty(),
        resolved(manifest).validpgpkeys == Seq::<Seq<char>>::empty(),
        resolved(manifest).noextract == Seq::<Seq<char>>::empty(),
        resolved(manifest).md5sums == Seq::<Seq<char>>::empty(),
        resolved(manifest).sha1sums == Seq::<Seq<char>>::empty(),
        resolved(manifest).sha256sums == Seq::<Seq<char>>::empty(),
        resolved(manifest).sha384sums == Seq::<Seq<char>>::empty(),
        resolved(manifest).sha512sums == Seq::<Seq<char>>::empty(),
        resolved(manifest).groups == Seq::<Seq<char>>::empty(),
        resolved(manifest).arch == Seq::<Seq<char>>::empty(),
        resolved(manifest).backup == Seq::<Seq<char>>::empty(),
        resolved(manifest).depends == Seq::<Seq<char>>::empty(),
        resolved(manifest).makedepends == Seq::<Seq<char>>::empty(),
        resolved(manifest).checkdepends == Seq::<Seq<char>>::empty(),
        resolved(manifest).optdepends == Seq::<Seq<char>>::empty(),
        resolved(manifest).conflicts == Seq::<Seq<char>>::empty(),
        resolved(manifest).provides == Seq::<Seq<char>>::empty(),
        resolved(manifest).replaces == Seq::<Seq<char>>::empty(),
        resolved(manifest).options == Seq::<Seq<char>>::empty(),
{
}

/// The configuration that the text of a manifest resolves to, or the first
/// fault of the text.
pub open spec fn config_of(text: Seq<char>) -> Result<ArchConfigView, Fault> {
    match manifest_of(text) {
        Ok(manifest) => Ok(resolved(manifest)),
        Err(fault) => Err(fault),
    }
}

impl ArchConfig {
    /// Reads the text of a manifest and resolves the configuration of its
    /// package. A text that is no manifest is refused with its first fault.
    pub fn new(manifest: &str) -> (read: Result<ArchConfig, ManifestError>)
        ensures
            match read {
                Ok(config) => config_of(manifest@) == Ok::<ArchConfigView, Fault>(config@),
                Err(e) => config_of(manifest@) == Err::<ArchConfigView, Fault>(e@),
            },
    {
        match Cargo::from_manifest(manifest) {
            Ok(cargo) => Ok(cargo.to_config()),
            Err(e) => Err(e),
        }
    }
}

} // verus!
