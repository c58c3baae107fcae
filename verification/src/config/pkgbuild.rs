//! The recipe: the text of a `PKGBUILD`, rendered from a resolved
//! configuration. One comment line names each maintainer; after an empty
//! line, one declaration stands for each field, always in the same order;
//! after another empty line, the build and package functions close the recipe.

use crate::config::arch::{overrides, resolved, ArchConfig, ArchConfigView, CargoArchView};
use crate::config::manifest::CargoView;
use crate::text::{sanitize_version, sanitized_version};
use vstd::prelude::*;
use vstd::string::StringExecFns;

verus! {

/// The name of the file that holds a recipe.
pub const PKGBUILD_FILE: &'static str = "PKGBUILD";

/// The functions that close every recipe. They build nothing ahead of time and
/// let `cargo install` put the binaries of the project under the package's
/// `usr` directory.
pub const PKGBUILD_TEMPLATE: &'static str =
    "build() {\n    return 0\n}\n\npackage() {\n    cd \"$startdir\"\n    cargo install --no-track --root \"$pkgdir/usr\" --path .\n}\n";

/// The number of declarations of a recipe.
pub const FIELD_COUNT: usize = 28;

/// The comment line that names a maintainer.
pub open spec fn maintainer_line(name: Seq<char>) -> Seq<char> {
    "# Maintainer: "@ + name + "\n"@
}

/// `text` between double quotes, as it is: nothing in it is escaped.
pub open spec fn quoted(text: Seq<char>) -> Seq<char> {
    "\""@ + text + "\""@
}

/// The items, each between double quotes, with a comma and a space between
/// one and the next.
pub open spec fn quoted_items(items: Seq<Seq<char>>) -> Seq<char>
    decreases items.len(),
{
    if items.len() == 0 {
        Seq::empty()
    } else if items.len() == 1 {
        quoted(items[0])
    } else {
        quoted_items(items.drop_last()) + ", "@ + quoted(items.last())
    }
}

/// The items as an array: quoted, and between parentheses.
pub open spec fn array(items: Seq<Seq<char>>) -> Seq<char> {
    "("@ + quoted_items(items) + ")"@
}

/// The declaration of `key` with the rendered `value`, as one line.
pub open spec fn declaration(key: Seq<char>, value: Seq<char>) -> Seq<char> {
    key + "="@ + value + "\n"@
}

/// The keys of the declarations, in the order in which every recipe has them.
pub open spec fn field_keys() -> Seq<Seq<char>> {
    seq![
        "pkgname"@,
        "pkgver"@,
        "pkgrel"@,
        "epoch"@,
        "pkgdesc"@,
        "url"@,
        "license"@,
        "install"@,
        "changelog"@,
        "source"@,
        "validpgpkeys"@,
        "noextract"@,
        "md5sums"@,
        "sha1sums"@,
        "sha256sums"@,
        "sha384sums"@,
        "sha512sums"@,
        "groups"@,
        "arch"@,
        "backup"@,
        "depends"@,
        "makedepends"@,
        "checkdepends"@,
        "optdepends"@,
        "conflicts"@,
        "provides"@,
        "replaces"@,
        "options"@,
    ]
}

/// The rendered values of the declarations, in the order of [`field_keys`].
/// Name, release and epoch stand as they are; the version has its hyphens
/// rewritten; description, address, install script and changelog are quoted;
/// every other field is an array.
pub open spec fn field_values(config: ArchConfigView) -> Seq<Seq<char>> {
    seq![
        config.pkgname,
        sanitized_version(config.pkgver),
        config.pkgrel,
        config.epoch,
        quoted(config.pkgdesc),
        quoted(config.url),
        array(config.license),
        quoted(config.install),
        quoted(config.changelog),
        array(config.source),
        array(config.validpgpkeys),
        array(config.noextract),
        array(config.md5sums),
        array(config.sha1sums),
        array(config.sha256sums),
        array(config.sha384sums),
        array(config.sha512sums),
        array(config.groups),
        array(config.arch),
        array(config.backup),
        array(config.depends),
        array(config.makedepends),
        array(config.checkdepends),
        array(config.optdepends),
        array(config.conflicts),
        array(config.provides),
        array(config.replaces),
        array(config.options),
    ]
}

/// The declarations of a recipe, one line each.
pub open spec fn field_lines(config: ArchConfigView) -> Seq<Seq<char>> {
    Seq::new(
        FIELD_COUNT as nat,
        |i: int| declaration(field_keys()[i], field_values(config)[i]),
    )
}

/// The text of the recipe of `config`.
pub open spec fn recipe(config: ArchConfigView) -> Seq<char> {
    config.maintainers.map_values(|name: Seq<char>| maintainer_line(name)).flatten() + "\n"@
        + field_lines(config).flatten() + "\n"@ + PKGBUILD_TEMPLATE@
}

/// Appends each of `parts` to `buffer`.
fn append_all(buffer: &mut String, parts: &Vec<String>)
    ensures
        final(buffer)@ == old(buffer)@ + parts.deep_view().flatten(),
{
    let ghost before = buffer@;
    let mut i: usize = 0;
    while i < parts.len()
        invariant
            i <= parts.len(),
            buffer@ == before + parts.deep_view().take(i as int).flatten(),
        decreases parts.len() - i,
    {
        proof {
            let done = parts.deep_view().take(i as int);
            let part = parts@[i as int]@;
            assert(parts.deep_view().take(i + 1) =~= done.push(part));
            done.lemma_flatten_push(part);
        }
        buffer.append(parts[i].as_str());
        i += 1;
    }
    assert(parts.deep_view().take(parts.len() as int) =~= parts.deep_view());
}

/// `text` between double quotes.
pub fn quote(text: &str) -> (out: String)
    ensures
        out@ == quoted(text@),
{
    "\"".to_owned().concat(text).concat("\"")
}

/// The items as an array: `("a", "b")`, and `()` where there is none.
pub fn render_array(items: &Vec<String>) -> (out: String)
    ensures
        out@ == array(items.deep_view()),
{
    let mut out = "(".to_owned();
    let mut i: usize = 0;
    assert("("@ + quoted_items(Seq::<Seq<char>>::empty()) =~= "("@);
    while i < items.len()
        invariant
            i <= items.len(),
            out@ == "("@ + quoted_items(items.deep_view().take(i as int)),
        decreases items.len() - i,
    {
        let ghost done = items.deep_view().take(i as int);
        let ghost next = items.deep_view().take(i + 1);
        assert(next.drop_last() =~= done);
        if i > 0 {
            out.append(", ");
        }
        out.append("\"");
        out.append(items[i].as_str());
        out.append("\"");
        proof {
            if i == 0 {
                assert(out@ =~= "("@ + quoted_items(next));
            } else {
                assert(out@ =~= "("@ + (quoted_items(done) + ", "@ + quoted(next.last())));
            }
        }
        i += 1;
    }
    assert(items.deep_view().take(items.len() as int) =~= items.deep_view());
    out.append(")");
    out
}

/// The line that declares `key` with the rendered `value`.
pub fn declare(key: &str, value: &str) -> (line: String)
    ensures
        line@ == declaration(key@, value@),
{
    key.to_owned().concat("=").concat(value).concat("\n")
}

impl ArchConfig {
    /// The declarations of the recipe, one line each, in the fixed order.
    pub fn field_lines(&self) -> (lines: Vec<String>)
        ensures
            lines.deep_view() == field_lines(self@),
    {
        let mut lines: Vec<String> = Vec::new();
        lines.push(declare("pkgname", self.pkgname.as_str()));
        lines.push(declare("pkgver", sanitize_version(self.pkgver.as_str()).as_str()));
        lines.push(declare("pkgrel", self.pkgrel.as_str()));
        lines.push(declare("epoch", self.epoch.as_str()));
        lines.push(declare("pkgdesc", quote(self.pkgdesc.as_str()).as_str()));
        lines.push(declare("url", quote(self.url.as_str()).as_str()));
        lines.push(declare("license", render_array(&self.license).as_str()));
        lines.push(declare("install", quote(self.install.as_str()).as_str()));
        lines.push(declare("changelog", quote(self.changelog.as_str()).as_str()));
        lines.push(declare("source", render_array(&self.source).as_str()));
        lines.push(declare("validpgpkeys", render_array(&self.validpgpkeys).as_str()));
        lines.push(declare("noextract", render_array(&self.noextract).as_str()));
        lines.push(declare("md5sums", render_array(&self.md5sums).as_str()));
        lines.push(declare("sha1sums", render_array(&self.sha1sums).as_str()));
        lines.push(declare("sha256sums", render_array(&self.sha256sums).as_str()));
        lines.push(declare("sha384sums", render_array(&self.sha384sums).as_str()));
        lines.push(declare("sha512sums", render_array(&self.sha512sums).as_str()));
        lines.push(declare("groups", render_array(&self.groups).as_str()));
        lines.push(declare("arch", render_array(&self.arch).as_str()));
        lines.push(declare("backup", render_array(&self.backup).as_str()));
        lines.push(declare("depends", render_array(&self.depends).as_str()));
        lines.push(declare("makedepends", render_array(&self.makedepends).as_str()));
        lines.push(declare("checkdepends", render_array(&self.checkdepends).as_str()));
        lines.push(declare("optdepends", render_array(&self.optdepends).as_str()));
        lines.push(declare("conflicts", render_array(&self.conflicts).as_str()));
        lines.push(declare("provides", render_array(&self.provides).as_str()));
        lines.push(declare("replaces", render_array(&self.replaces).as_str()));
        lines.push(declare("options", render_array(&self.options).as_str()));
        lines
    }

    /// Renders the recipe of this configuration: see [`recipe`].
    pub fn generate_pkgbuild(&self) -> (text: String)
        ensures
            text@ == recipe(self@),
    {
        let mut buffer = String::new();
        let ghost names = self.maintainers.deep_view();
        let mut i: usize = 0;
        while i < self.maintainers.len()
            invariant
                i <= self.maintainers.len(),
                names == self.maintainers.deep_view(),
                buffer@ == names.take(i as int).map_values(
                    |name: Seq<char>| maintainer_line(name),
                ).flatten(),
            decreases self.maintainers.len() - i,
        {
            let ghost done = names.take(i as int).map_values(
                |name: Seq<char>| maintainer_line(name),
            );
            proof {
                assert(names.take(i + 1).map_values(|name: Seq<char>| maintainer_line(name))
                    =~= done.push(maintainer_line(names[i as int])));
                done.lemma_flatten_push(maintainer_line(names[i as int]));
            }
            buffer.append("# Maintainer: ");
            buffer.append(self.maintainers[i].as_str());
            buffer.append("\n");
            i += 1;
        }
        assert(names.take(names.len() as int) =~= names);
        buffer.append("\n");
        let lines = self.field_lines();
        append_all(&mut buffer, &lines);
        buffer.append("\n");
        buffer.append(PKGBUILD_TEMPLATE);
        buffer
    }

    /// Renders the recipe of this configuration, as [`ArchConfig::generate_pkgbuild`]
    /// does.
    pub fn generate_package_config(&self) -> (text: String)
        ensures
            text@ == recipe(self@),
    {
        self.generate_pkgbuild()
    }
}

/// Every recipe declares the same keys in the same order, whatever the
/// configuration holds: its declarations are as many as [`field_keys`] lists,
/// and each is its key, an equals sign, its rendered value and a line end.
pub proof fn lemma_field_order(config: ArchConfigView)
    ensures
        field_keys().len() == FIELD_COUNT,
        field_lines(config).len() == FIELD_COUNT,
        forall|i: int|
            0 <= i < FIELD_COUNT ==> #[trigger] field_lines(config)[i] == field_keys()[i] + "="@
                + field_values(config)[i] + "\n"@,
        forall|i: int|
            0 <= i < FIELD_COUNT ==> (field_keys()[i] + "="@).is_prefix_of(
                #[trigger] field_lines(config)[i],
            ),
{
}

/// A field without any item is declared as `key=()`.
pub proof fn lemma_empty_array(key: Seq<char>)
    ensures
        declaration(key, array(Seq::empty())) == key + "=()\n"@,
{
    reveal_strlit("=");
    reveal_strlit("(");
    reveal_strlit(")");
    reveal_strlit("\n");
    reveal_strlit("=()\n");
}

/// In the recipe of a manifest without overrides, every array but that of the
/// licenses is declared empty: `key=()`.
pub proof fn lemma_unset_arrays(manifest: CargoView)
    requires
        overrides(manifest) == CargoArchView::empty(),
    ensures
        forall|i: int|
            9 <= i < FIELD_COUNT ==> #[trigger] field_lines(resolved(manifest))[i] == field_keys()[i]
                + "=()\n"@,
{
    assert forall|i: int| 9 <= i < FIELD_COUNT implies #[trigger] field_lines(
        resolved(manifest),
    )[i] == field_keys()[i] + "=()\n"@ by {
        lemma_empty_array(field_keys()[i]);
    }
}

/// The version is declared with every hyphen rewritten to an underscore, and
/// without quotes.
pub proof fn lemma_version_line(config: ArchConfigView)
    ensures
        field_lines(config)[1] == "pkgver="@ + sanitized_version(config.pkgver) + "\n"@,
        !sanitized_version(config.pkgver).contains('-'),
{
    reveal_strlit("=");
    reveal_strlit("pkgver");
    reveal_strlit("pkgver=");
}

/// Rendering is a function of the configuration: two recipes of one
/// configuration are the same text.
pub proof fn lemma_rendering_repeats(config: ArchConfigView, first: Seq<char>, second: Seq<char>)
    requires
        first == recipe(config),
        second == recipe(config),
    ensures
        first == second,
{
}

} // verus!
