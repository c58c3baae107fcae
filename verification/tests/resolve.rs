use cargo_arch::config::arch::{ArchConfig, CargoArch};
use cargo_arch::config::manifest::{Cargo, CargoPackage};
use cargo_arch::config::meta::CargoMetadata;

fn texts(items: &[&str]) -> Vec<String> {
    items.iter().map(|item| item.to_string()).collect()
}

fn package() -> CargoPackage {
    CargoPackage {
        name: "bar".to_string(),
        version: "0.1.0".to_string(),
        authors: texts(&["A <a@x.com>", "B <b@x.com>"]),
        description: "a bar".to_string(),
        license: "MIT".to_string(),
        homepage: None,
        repository: None,
        metadata: None,
    }
}

fn manifest(package: CargoPackage, arch: Option<CargoArch>) -> Cargo {
    let mut package = package;
    package.metadata = Some(CargoMetadata { arch });
    Cargo { package }
}

fn every_override() -> CargoArch {
    CargoArch {
        maintainers: Some(texts(&["M <m@x.com>"])),
        pkgname: Some("foo".to_string()),
        pkgver: Some("9.9".to_string()),
        pkgrel: Some("7".to_string()),
        epoch: Some("3".to_string()),
        pkgdesc: Some("a foo".to_string()),
        url: Some("https://o".to_string()),
        license: Some(texts(&["GPL3"])),
        install: Some("foo.install".to_string()),
        changelog: Some("CHANGES".to_string()),
        source: Some(texts(&["a.tar.gz", "b.patch"])),
        validpgpkeys: Some(texts(&["ABCD"])),
        noextract: Some(texts(&["a.tar.gz"])),
        md5sums: Some(texts(&["m1", "m2"])),
        sha1sums: Some(texts(&["s1"])),
        sha256sums: Some(texts(&["s256"])),
        sha384sums: Some(texts(&["s384"])),
        sha512sums: Some(texts(&["s512"])),
        groups: Some(texts(&["base"])),
        arch: Some(texts(&["x86_64", "i686"])),
        backup: Some(texts(&["etc/foo.conf"])),
        depends: Some(texts(&["glibc"])),
        makedepends: Some(texts(&["cargo"])),
        checkdepends: Some(texts(&["python"])),
        optdepends: Some(texts(&["git: for cloning"])),
        conflicts: Some(texts(&["foo-git"])),
        provides: Some(texts(&["foo"])),
        replaces: Some(texts(&["oldfoo"])),
        options: Some(texts(&["!strip"])),
    }
}

#[test]
fn override_of_the_name_wins_over_the_manifest() {
    let mut arch = CargoArch::default();
    arch.pkgname = Some("foo".to_string());
    let config = manifest(package(), Some(arch)).to_config();
    assert_eq!(config.pkgname, "foo");
    assert_eq!(config.pkgver, "0.1.0");
}

#[test]
fn every_override_wins() {
    let arch = every_override();
    let mut full = package();
    full.homepage = Some("https://a".to_string());
    full.repository = Some("https://b".to_string());
    full.license = "MIT/Apache-2.0".to_string();
    let config = manifest(full, Some(arch.clone())).to_config();
    assert_eq!(Some(config.maintainers), arch.maintainers);
    assert_eq!(Some(config.pkgname), arch.pkgname);
    assert_eq!(Some(config.pkgver), arch.pkgver);
    assert_eq!(Some(config.pkgrel), arch.pkgrel);
    assert_eq!(Some(config.epoch), arch.epoch);
    assert_eq!(Some(config.pkgdesc), arch.pkgdesc);
    assert_eq!(Some(config.url), arch.url);
    assert_eq!(Some(config.license), arch.license);
    assert_eq!(Some(config.install), arch.install);
    assert_eq!(Some(config.changelog), arch.changelog);
    assert_eq!(Some(config.source), arch.source);
    assert_eq!(Some(config.validpgpkeys), arch.validpgpkeys);
    assert_eq!(Some(config.noextract), arch.noextract);
    assert_eq!(Some(config.md5sums), arch.md5sums);
    assert_eq!(Some(config.sha1sums), arch.sha1sums);
    assert_eq!(Some(config.sha256sums), arch.sha256sums);
    assert_eq!(Some(config.sha384sums), arch.sha384sums);
    assert_eq!(Some(config.sha512sums), arch.sha512sums);
    assert_eq!(Some(config.groups), arch.groups);
    assert_eq!(Some(config.arch), arch.arch);
    assert_eq!(Some(config.backup), arch.backup);
    assert_eq!(Some(config.depends), arch.depends);
    assert_eq!(Some(config.makedepends), arch.makedepends);
    assert_eq!(Some(config.checkdepends), arch.checkdepends);
    assert_eq!(Some(config.optdepends), arch.optdepends);
    assert_eq!(Some(config.conflicts), arch.conflicts);
    assert_eq!(Some(config.provides), arch.provides);
    assert_eq!(Some(config.replaces), arch.replaces);
    assert_eq!(Some(config.options), arch.options);
}

#[test]
fn overrides_do_not_depend_on_the_manifest() {
    let mut other = package();
    other.name = "quux".to_string();
    other.version = "3.0.0-rc1".to_string();
    other.authors = Vec::new();
    other.license = "ISC".to_string();
    let first = manifest(package(), Some(every_override())).to_config();
    let second = manifest(other, Some(every_override())).to_config();
    assert_eq!(first, second);
}

#[test]
fn without_overrides_the_package_speaks_for_itself() {
    let expected = ArchConfig {
        maintainers: texts(&["A <a@x.com>", "B <b@x.com>"]),
        pkgname: "bar".to_string(),
        pkgver: "0.1.0".to_string(),
        pkgrel: "1".to_string(),
        epoch: "0".to_string(),
        pkgdesc: "a bar".to_string(),
        url: String::new(),
        license: texts(&["MIT"]),
        install: String::new(),
        changelog: String::new(),
        source: Vec::new(),
        validpgpkeys: Vec::new(),
        noextract: Vec::new(),
        md5sums: Vec::new(),
        sha1sums: Vec::new(),
        sha256sums: Vec::new(),
        sha384sums: Vec::new(),
        sha512sums: Vec::new(),
        groups: Vec::new(),
        arch: Vec::new(),
        backup: Vec::new(),
        depends: Vec::new(),
        makedepends: Vec::new(),
        checkdepends: Vec::new(),
        optdepends: Vec::new(),
        conflicts: Vec::new(),
        provides: Vec::new(),
        replaces: Vec::new(),
        options: Vec::new(),
    };
    assert_eq!(Cargo { package: package() }.to_config(), expected);
    assert_eq!(manifest(package(), None).to_config(), expected);
    assert_eq!(manifest(package(), Some(CargoArch::default())).to_config(), expected);
}

#[test]
fn release_and_epoch_have_defaults() {
    let config = Cargo { package: package() }.to_config();
    assert_eq!(config.pkgrel, "1");
    assert_eq!(config.epoch, "0");
    let mut arch = CargoArch::default();
    arch.pkgrel = Some("4".to_string());
    arch.epoch = Some("2".to_string());
    let config = manifest(package(), Some(arch)).to_config();
    assert_eq!(config.pkgrel, "4");
    assert_eq!(config.epoch, "2");
}

#[test]
fn url_is_the_homepage_before_the_repository() {
    let mut both = package();
    both.homepage = Some("https://a".to_string());
    both.repository = Some("https://b".to_string());
    assert_eq!(Cargo { package: both }.to_config().url, "https://a");
}

#[test]
fn url_is_the_repository_without_a_homepage() {
    let mut only = package();
    only.repository = Some("https://b".to_string());
    assert_eq!(Cargo { package: only }.to_config().url, "https://b");
}

#[test]
fn url_is_empty_without_any_address() {
    assert_eq!(Cargo { package: package() }.to_config().url, "");
}

#[test]
fn url_override_wins_over_both_addresses() {
    let mut both = package();
    both.homepage = Some("https://a".to_string());
    both.repository = Some("https://b".to_string());
    let mut arch = CargoArch::default();
    arch.url = Some("https://o".to_string());
    assert_eq!(manifest(both, Some(arch)).to_config().url, "https://o");
}

#[test]
fn license_is_split_at_the_slash() {
    let mut dual = package();
    dual.license = "MIT/Apache-2.0".to_string();
    assert_eq!(Cargo { package: dual }.to_config().license, texts(&["MIT", "Apache-2.0"]));
}

#[test]
fn license_without_a_slash_is_one_license() {
    assert_eq!(Cargo { package: package() }.to_config().license, texts(&["MIT"]));
}

#[test]
fn license_pieces_are_trimmed() {
    let mut dual = package();
    dual.license = " MIT / Apache-2.0\t".to_string();
    assert_eq!(Cargo { package: dual }.to_config().license, texts(&["MIT", "Apache-2.0"]));
}

#[test]
fn license_override_is_not_split() {
    let mut arch = CargoArch::default();
    arch.license = Some(texts(&["MIT/X11"]));
    assert_eq!(manifest(package(), Some(arch)).to_config().license, texts(&["MIT/X11"]));
}

#[test]
fn maintainers_are_the_authors_unless_overridden() {
    assert_eq!(
        Cargo { package: package() }.to_config().maintainers,
        texts(&["A <a@x.com>", "B <b@x.com>"])
    );
    let mut arch = CargoArch::default();
    arch.maintainers = Some(Vec::new());
    assert_eq!(manifest(package(), Some(arch)).to_config().maintainers, texts(&[]));
}

#[test]
fn resolving_twice_gives_the_same_configuration() {
    let cargo = manifest(package(), Some(every_override()));
    assert_eq!(cargo.to_config(), cargo.to_config());
}

#[test]
fn the_default_overrides_are_all_absent() {
    let arch = CargoArch::default();
    assert_eq!(arch.maintainers, None);
    assert_eq!(arch.pkgname, None);
    assert_eq!(arch.license, None);
    assert_eq!(arch.options, None);
    assert_eq!(CargoMetadata::default().arch, None);
}
