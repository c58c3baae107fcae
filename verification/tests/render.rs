use cargo_arch::config::arch::ArchConfig;
use cargo_arch::config::pkgbuild::{
    declare, quote, render_array, FIELD_COUNT, PKGBUILD_FILE, PKGBUILD_TEMPLATE,
};

const KEYS: [&str; 28] = [
    "pkgname",
    "pkgver",
    "pkgrel",
    "epoch",
    "pkgdesc",
    "url",
    "license",
    "install",
    "changelog",
    "source",
    "validpgpkeys",
    "noextract",
    "md5sums",
    "sha1sums",
    "sha256sums",
    "sha384sums",
    "sha512sums",
    "groups",
    "arch",
    "backup",
    "depends",
    "makedepends",
    "checkdepends",
    "optdepends",
    "conflicts",
    "provides",
    "replaces",
    "options",
];

fn strings(items: &[&str]) -> Vec<String> {
    items.iter().map(|item| item.to_string()).collect()
}

fn bare() -> ArchConfig {
    ArchConfig {
        maintainers: strings(&["A <a@x.com>"]),
        pkgname: "demo".to_string(),
        pkgver: "0.1.0".to_string(),
        pkgrel: "1".to_string(),
        epoch: "0".to_string(),
        pkgdesc: "d".to_string(),
        url: String::new(),
        license: strings(&["MIT"]),
        install: String::new(),
        changelog: String::new(),
        source: Vec::new(),
        validpgpkeys: Vec::new(),
        noextract: Vec::new(),
        md5sums: Vec::new(),
        sha1sums: Vec::new(),
        sha256sums: Vec::new(),
        sha384sums: Vec::new(),
        sha512sums: Vec::new(),
        groups: Vec::new(),
        arch: Vec::new(),
        backup: Vec::new(),
        depends: Vec::new(),
        makedepends: Vec::new(),
        checkdepends: Vec::new(),
        optdepends: Vec::new(),
        conflicts: Vec::new(),
        provides: Vec::new(),
        replaces: Vec::new(),
        options: Vec::new(),
    }
}

fn full() -> ArchConfig {
    ArchConfig {
        maintainers: strings(&["M <m@x.com>", "N <n@x.com>"]),
        pkgname: "foo".to_string(),
        pkgver: "1.2.0-beta".to_string(),
        pkgrel: "7".to_string(),
        epoch: "3".to_string(),
        pkgdesc: "a foo".to_string(),
        url: "https://o".to_string(),
        license: strings(&["MIT", "Apache-2.0"]),
        install: "foo.install".to_string(),
        changelog: "CHANGES".to_string(),
        source: strings(&["a.tar.gz", "b.patch"]),
        validpgpkeys: strings(&["ABCD"]),
        noextract: strings(&["a.tar.gz"]),
        md5sums: strings(&["m1", "m2"]),
        sha1sums: strings(&["s1"]),
        sha256sums: strings(&["s256"]),
        sha384sums: strings(&["s384"]),
        sha512sums: strings(&["s512"]),
        groups: strings(&["base"]),
        arch: strings(&["x86_64", "i686"]),
        backup: strings(&["etc/foo.conf"]),
        depends: strings(&["glibc"]),
        makedepends: strings(&["cargo"]),
        checkdepends: strings(&["python"]),
        optdepends: strings(&["git: for cloning"]),
        conflicts: strings(&["foo-git"]),
        provides: strings(&["foo"]),
        replaces: strings(&["oldfoo"]),
        options: strings(&["!strip"]),
    }
}

fn key_of(line: &str) -> &str {
    match line.find('=') {
        Some(at) => &line[..at],
        None => panic!("no key in {:?}", line),
    }
}

#[test]
fn recipe_of_a_bare_configuration() {
    let expected = "# Maintainer: A <a@x.com>\n\
                    \n\
                    pkgname=demo\n\
                    pkgver=0.1.0\n\
                    pkgrel=1\n\
                    epoch=0\n\
                    pkgdesc=\"d\"\n\
                    url=\"\"\n\
                    license=(\"MIT\")\n\
                    install=\"\"\n\
                    changelog=\"\"\n\
                    source=()\n\
                    validpgpkeys=()\n\
                    noextract=()\n\
                    md5sums=()\n\
                    sha1sums=()\n\
                    sha256sums=()\n\
                    sha384sums=()\n\
                    sha512sums=()\n\
                    groups=()\n\
                    arch=()\n\
                    backup=()\n\
                    depends=()\n\
                    makedepends=()\n\
                    checkdepends=()\n\
                    optdepends=()\n\
                    conflicts=()\n\
                    provides=()\n\
                    replaces=()\n\
                    options=()\n\
                    \n"
        .to_string()
        + PKGBUILD_TEMPLATE;
    assert_eq!(bare().generate_pkgbuild(), expected);
}

#[test]
fn recipe_of_a_full_configuration() {
    let expected = "# Maintainer: M <m@x.com>\n\
                    # Maintainer: N <n@x.com>\n\
                    \n\
                    pkgname=foo\n\
                    pkgver=1.2.0_beta\n\
                    pkgrel=7\n\
                    epoch=3\n\
                    pkgdesc=\"a foo\"\n\
                    url=\"https://o\"\n\
                    license=(\"MIT\", \"Apache-2.0\")\n\
                    install=\"foo.install\"\n\
                    changelog=\"CHANGES\"\n\
                    source=(\"a.tar.gz\", \"b.patch\")\n\
                    validpgpkeys=(\"ABCD\")\n\
                    noextract=(\"a.tar.gz\")\n\
                    md5sums=(\"m1\", \"m2\")\n\
                    sha1sums=(\"s1\")\n\
                    sha256sums=(\"s256\")\n\
                    sha384sums=(\"s384\")\n\
                    sha512sums=(\"s512\")\n\
                    groups=(\"base\")\n\
                    arch=(\"x86_64\", \"i686\")\n\
                    backup=(\"etc/foo.conf\")\n\
                    depends=(\"glibc\")\n\
                    makedepends=(\"cargo\")\n\
                    checkdepends=(\"python\")\n\
                    optdepends=(\"git: for cloning\")\n\
                    conflicts=(\"foo-git\")\n\
                    provides=(\"foo\")\n\
                    replaces=(\"oldfoo\")\n\
                    options=(\"!strip\")\n\
                    \n"
        .to_string()
        + PKGBUILD_TEMPLATE;
    assert_eq!(full().generate_pkgbuild(), expected);
}

#[test]
fn version_line_has_underscores_for_hyphens() {
    let mut config = bare();
    config.pkgver = "1.2.0-beta".to_string();
    let lines = config.field_lines();
    assert_eq!(lines[1], "pkgver=1.2.0_beta\n");
    assert!(config.generate_pkgbuild().contains("\npkgver=1.2.0_beta\n"));
    assert_eq!(config.pkgver, "1.2.0-beta");
}

#[test]
fn empty_array_is_a_pair_of_parentheses() {
    assert_eq!(render_array(&Vec::new()), "()");
    assert_eq!(declare("depends", &render_array(&Vec::new())), "depends=()\n");
    let lines = bare().field_lines();
    assert_eq!(lines[9], "source=()\n");
    assert_eq!(lines[27], "options=()\n");
}

#[test]
fn array_items_are_quoted_and_separated() {
    assert_eq!(render_array(&strings(&["a"])), "(\"a\")");
    assert_eq!(render_array(&strings(&["a", "b"])), "(\"a\", \"b\")");
    assert_eq!(render_array(&strings(&["a", "", "c d"])), "(\"a\", \"\", \"c d\")");
}

#[test]
fn nothing_is_escaped() {
    assert_eq!(quote("say \"hi\"\n"), "\"say \"hi\"\n\"");
    assert_eq!(render_array(&strings(&["a\"b", "c)"])), "(\"a\"b\", \"c)\")");
    let mut config = bare();
    config.pkgdesc = "a \"quoted\" word".to_string();
    assert_eq!(config.field_lines()[4], "pkgdesc=\"a \"quoted\" word\"\n");
}

#[test]
fn install_and_changelog_are_quoted_even_when_empty() {
    let lines = bare().field_lines();
    assert_eq!(lines[7], "install=\"\"\n");
    assert_eq!(lines[8], "changelog=\"\"\n");
}

#[test]
fn name_release_and_epoch_stand_unquoted() {
    let lines = full().field_lines();
    assert_eq!(lines[0], "pkgname=foo\n");
    assert_eq!(lines[2], "pkgrel=7\n");
    assert_eq!(lines[3], "epoch=3\n");
}

#[test]
fn declarations_come_in_the_fixed_order() {
    assert_eq!(FIELD_COUNT, KEYS.len());
    for config in [bare(), full()] {
        let lines = config.field_lines();
        assert_eq!(lines.len(), KEYS.len());
        for (line, key) in lines.iter().zip(KEYS.iter()) {
            assert_eq!(key_of(line), *key);
            assert!(line.ends_with('\n'));
        }
    }
}

#[test]
fn recipe_holds_the_declarations_between_two_empty_lines() {
    for config in [bare(), full()] {
        let text = config.generate_pkgbuild();
        let mut expected = String::new();
        for name in &config.maintainers {
            expected.push_str(&format!("# Maintainer: {}\n", name));
        }
        expected.push('\n');
        expected.push_str(&config.field_lines().concat());
        expected.push('\n');
        expected.push_str(PKGBUILD_TEMPLATE);
        assert_eq!(text, expected);
    }
}

#[test]
fn without_maintainers_the_recipe_starts_with_the_empty_line() {
    let mut config = bare();
    config.maintainers = Vec::new();
    assert!(config.generate_pkgbuild().starts_with("\npkgname=demo\n"));
}

#[test]
fn rendering_twice_gives_the_same_text() {
    let config = full();
    assert_eq!(config.generate_pkgbuild(), config.generate_pkgbuild());
    assert_eq!(config.generate_pkgbuild(), config.generate_package_config());
    assert_eq!(config.clone().generate_pkgbuild(), config.generate_pkgbuild());
}

#[test]
fn template_closes_the_recipe() {
    let text = bare().generate_pkgbuild();
    assert!(text.ends_with(&format!("options=()\n\n{}", PKGBUILD_TEMPLATE)));
    assert!(PKGBUILD_TEMPLATE.contains("build()"));
    assert!(PKGBUILD_TEMPLATE.contains("package()"));
    assert!(PKGBUILD_TEMPLATE.ends_with('\n'));
    assert_eq!(PKGBUILD_FILE, "PKGBUILD");
}
