//! The code emitter: pure, deterministic rendering of normalized icons and
//! aggregated results into generated source text. All ordering is the
//! caller's responsibility; rendering itself never reorders anything.
use vstd::prelude::*;

use crate::ident::{to_feature_flag_name, upper_camel_of};
use crate::model::{feature_views, icon_views, meta_views, str_views, Feature, Icon, IconMeta,
    IconModel};
use crate::package::{lib_name_spec, PackageType};

verus! {

/// One `pub mod <name>;` registration line.
pub open spec fn module_line_spec(m: Seq<char>) -> Seq<char> {
    "pub mod "@ + m + ";\n"@
}

/// The aggregate module-registration fragment, one line per module, in the
/// given order.
pub open spec fn registration_spec(ms: Seq<Seq<char>>) -> Seq<char>
    decreases ms.len(),
{
    if ms.len() == 0 {
        Seq::empty()
    } else {
        registration_spec(ms.drop_last()) + module_line_spec(ms.last())
    }
}

/// Renders the module-registration fragment for the given module names.
pub fn render_module_registration(modules: &Vec<String>) -> (r: String)
    ensures
        r@ == registration_spec(str_views(modules@)),
{
    let mut out = String::new();
    proof {
        assert(str_views(modules@).take(0) =~= Seq::<Seq<char>>::empty());
        assert(out@ =~= registration_spec(str_views(modules@).take(0)));
    }
    let mut i: usize = 0;
    while i < modules.len()
        invariant
            i <= modules.len(),
            out@ == registration_spec(str_views(modules@).take(i as int)),
        decreases modules.len() - i,
    {
        out.append("pub mod ");
        out.append(modules[i].as_str());
        out.append(";\n");
        proof {
            let vs = str_views(modules@);
            assert(vs.take(i + 1).drop_last() =~= vs.take(i as int));
            assert(vs.take(i + 1).last() == vs[i as int]);
        }
        i = i + 1;
    }
    proof {
        assert(str_views(modules@).take(modules@.len() as int) =~= str_views(modules@));
    }
    out
}

/// The fixed header of every generated per-package module file.
pub open spec fn module_header_spec() -> Seq<char> {
    "use leptos::*;\n\n"@
}

/// Renders the fixed header of a generated module file.
pub fn render_module_header() -> (r: String)
    ensures
        r@ == module_header_spec(),
{
    let mut out = String::new();
    out.append("use leptos::*;\n\n");
    out
}

/// The generated component definition for one icon.
pub open spec fn component_spec(icon: IconModel) -> Seq<char> {
    "#[component]\npub fn "@ + icon.component_name
        + "(cx: Scope) -> impl IntoView {\n    view! { cx,\n        <svg"@ + icon.svg_attributes
        + ">"@ + icon.svg_body + "</svg>\n    }\n}\n\n"@
}

/// Renders one icon into its component definition.
pub fn render_component(icon: &Icon) -> (r: String)
    ensures
        r@ == component_spec(icon@),
{
    let mut out = String::new();
    out.append("#[component]\npub fn ");
    out.append(icon.component_name.as_str());
    out.append("(cx: Scope) -> impl IntoView {\n    view! { cx,\n        <svg");
    out.append(icon.svg_attributes.as_str());
    out.append(">");
    out.append(icon.svg_body.as_str());
    out.append("</svg>\n    }\n}\n\n");
    out
}

/// The concatenation of component definitions, in the given order.
pub open spec fn components_spec(icons: Seq<IconModel>) -> Seq<char>
    decreases icons.len(),
{
    if icons.len() == 0 {
        Seq::empty()
    } else {
        components_spec(icons.drop_last()) + component_spec(icons.last())
    }
}

/// The full text of one generated module file: the fixed header followed
/// by one component per icon, in the given order.
pub open spec fn module_text_spec(icons: Seq<IconModel>) -> Seq<char> {
    module_header_spec() + components_spec(icons)
}

/// Renders a package's module file from its (already sorted) icons.
pub fn render_module(icons: &Vec<Icon>) -> (r: String)
    ensures
        r@ == module_text_spec(icon_views(icons@)),
{
    let mut out = render_module_header();
    proof {
        assert(icon_views(icons@).take(0) =~= Seq::<IconModel>::empty());
        assert(out@ =~= module_header_spec() + components_spec(icon_views(icons@).take(0)));
    }
    let mut i: usize = 0;
    while i < icons.len()
        invariant
            i <= icons.len(),
            out@ == module_header_spec() + components_spec(icon_views(icons@).take(i as int)),
        decreases icons.len() - i,
    {
        let comp = render_component(&icons[i]);
        out.append(comp.as_str());
        proof {
            let vs = icon_views(icons@);
            assert(vs.take(i + 1).drop_last() =~= vs.take(i as int));
            assert(vs.take(i + 1).last() == vs[i as int]);
        }
        i = i + 1;
    }
    proof {
        assert(icon_views(icons@).take(icons@.len() as int) =~= icon_views(icons@));
    }
    out
}

/// The banner written at the top of the generated manifest.
pub open spec fn base_cargo_toml_spec() -> Seq<char> {
    "# ----------------------------------------------------------------\n# Maintained by the icon build pipeline; manual edits are replaced.\n# ----------------------------------------------------------------\n\n"@
}

/// The `[package]` section of the generated manifest, for a library name.
pub open spec fn package_section_spec(lib_name: Seq<char>) -> Seq<char> {
    "[package]\nname = \""@ + lib_name
        + "\"\nversion = \"0.0.1\"\nauthors = [\"Charles Edward Gagnon\"]\nedition = \"2021\"\ndescription = \"Icons library for the leptos web framework\"\nreadme = \"./README.md\"\nrepository = \"https://github.com/Carlosted/leptos-icons\"\nlicense = \"MIT\"\nkeywords = [\"leptos\", \"icons\"]\ncategories = [\"web-programming\"]\n\n"@
}

/// One dependency line of the generated manifest.
pub open spec fn dependency_line_spec(lib: Seq<char>) -> Seq<char> {
    lib + " = {  path = \"../"@ + lib + "\", optional = true }\n"@
}

/// The per-library dependency lines, in the given order.
pub open spec fn dependency_lines_spec(libs: Seq<Seq<char>>) -> Seq<char>
    decreases libs.len(),
{
    if libs.len() == 0 {
        Seq::empty()
    } else {
        dependency_lines_spec(libs.drop_last()) + dependency_line_spec(libs.last())
    }
}

/// The `[dependencies]` section of the generated manifest.
pub open spec fn dependencies_section_spec(libs: Seq<Seq<char>>) -> Seq<char> {
    "[dependencies]\nleptos = { version = \"0.2.5\", default-features = false }\nleptos-icons-core = { path = \"../leptos-icons-core\" }\nserde = { version = \"1\", features = [\"derive\"], optional = true }\n\n"@
        + dependency_lines_spec(libs) + "\n"@
}

/// One umbrella feature flag line, such as `Ai = []`.
pub open spec fn umbrella_line_spec(short: Seq<char>) -> Seq<char> {
    upper_camel_of(short) + " = []\n"@
}

/// The umbrella flag lines, one per package short name, in order.
pub open spec fn umbrella_lines_spec(shorts: Seq<Seq<char>>) -> Seq<char>
    decreases shorts.len(),
{
    if shorts.len() == 0 {
        Seq::empty()
    } else {
        umbrella_lines_spec(shorts.drop_last()) + umbrella_line_spec(shorts.last())
    }
}

/// One icon feature line, linking the icon's flag to its package's
/// umbrella flag and the downstream crate-qualified flag.
pub open spec fn feature_line_spec(f: (Seq<char>, Seq<char>)) -> Seq<char> {
    f.0 + " = [\""@ + upper_camel_of(f.1) + "\", \""@ + lib_name_spec(f.1) + "/"@ + f.0 + "\"]\n"@
}

/// The per-icon feature lines, in the given order.
pub open spec fn feature_lines_spec(fs: Seq<(Seq<char>, Seq<char>)>) -> Seq<char>
    decreases fs.len(),
{
    if fs.len() == 0 {
        Seq::empty()
    } else {
        feature_lines_spec(fs.drop_last()) + feature_line_spec(fs.last())
    }
}

/// The `[features]` section: the fixed header, the umbrella flag of each
/// package, then one line per icon feature — a two-level feature graph.
pub open spec fn features_section_spec(
    shorts: Seq<Seq<char>>,
    fs: Seq<(Seq<char>, Seq<char>)>,
) -> Seq<char> {
    "[features]\nserde = [\"dep:serde\"]\n\n"@ + umbrella_lines_spec(shorts) + feature_lines_spec(
        fs,
    )
}

/// The generated manifest of the aggregate library, accumulated as text;
/// writing the text to disk is the caller's concern.
#[derive(Debug)]
pub struct CargoToml {
    pub content: String,
}

impl CargoToml {
    /// A fresh manifest holding only the banner.
    pub fn init() -> (r: CargoToml)
        ensures
            r.content@ == base_cargo_toml_spec(),
    {
        let mut content = String::new();
        content.append(
            "# ----------------------------------------------------------------\n# Maintained by the icon build pipeline; manual edits are replaced.\n# ----------------------------------------------------------------\n\n",
        );
        CargoToml { content }
    }

    /// Discards any accumulated text and starts over from the banner.
    /// Resetting twice in a row leaves exactly the same content as once.
    pub fn reset(&mut self)
        ensures
            final(self).content@ == base_cargo_toml_spec(),
    {
        let fresh = CargoToml::init();
        self.content = fresh.content;
    }

    /// Appends the `[package]` section for the given library name.
    pub fn write_package_section(&mut self, lib_name: &str)
        ensures
            final(self).content@ == old(self).content@ + package_section_spec(lib_name@),
    {
        self.content.append("[package]\nname = \"");
        self.content.append(lib_name);
        self.content.append(
            "\"\nversion = \"0.0.1\"\nauthors = [\"Charles Edward Gagnon\"]\nedition = \"2021\"\ndescription = \"Icons library for the leptos web framework\"\nreadme = \"./README.md\"\nrepository = \"https://github.com/Carlosted/leptos-icons\"\nlicense = \"MIT\"\nkeywords = [\"leptos\", \"icons\"]\ncategories = [\"web-programming\"]\n\n",
        );
    }

    /// Appends the `[dependencies]` section, one optional path dependency
    /// per generated per-package library, in the given order.
    pub fn write_dependencies_section(&mut self, libs: &Vec<String>)
        ensures
            final(self).content@ == old(self).content@ + dependencies_section_spec(
                str_views(libs@),
            ),
    {
        self.content.append(
            "[dependencies]\nleptos = { version = \"0.2.5\", default-features = false }\nleptos-icons-core = { path = \"../leptos-icons-core\" }\nserde = { version = \"1\", features = [\"derive\"], optional = true }\n\n",
        );
        let ghost base = self.content@;
        proof {
            assert(str_views(libs@).take(0) =~= Seq::<Seq<char>>::empty());
            assert(self.content@ =~= base + dependency_lines_spec(str_views(libs@).take(0)));
        }
        let mut i: usize = 0;
        while i < libs.len()
            invariant
                i <= libs.len(),
                self.content@ == base + dependency_lines_spec(str_views(libs@).take(i as int)),
            decreases libs.len() - i,
        {
            self.content.append(libs[i].as_str());
            self.content.append(" = {  path = \"../");
            self.content.append(libs[i].as_str());
            self.content.append("\", optional = true }\n");
            proof {
                let vs = str_views(libs@);
                assert(vs.take(i + 1).drop_last() =~= vs.take(i as int));
                assert(vs.take(i + 1).last() == vs[i as int]);
            }
            i = i + 1;
        }
        self.content.append("\n");
        proof {
            assert(str_views(libs@).take(libs@.len() as int) =~= str_views(libs@));
        }
    }

    /// Appends the `[features]` section: the fixed serde flag, one
    /// umbrella flag per package short name, then one line per icon
    /// feature gated behind both its umbrella flag and the downstream
    /// crate-qualified flag.
    pub fn write_features_section(&mut self, shorts: &Vec<String>, features: &Vec<Feature>)
        ensures
            final(self).content@ == old(self).content@ + features_section_spec(
                str_views(shorts@),
                feature_views(features@),
            ),
    {
        self.content.append("[features]\nserde = [\"dep:serde\"]\n\n");
        let ghost base = self.content@;
        proof {
            assert(str_views(shorts@).take(0) =~= Seq::<Seq<char>>::empty());
            assert(self.content@ =~= base + umbrella_lines_spec(str_views(shorts@).take(0)));
        }
        let mut i: usize = 0;
        while i < shorts.len()
            invariant
                i <= shorts.len(),
                self.content@ == base + umbrella_lines_spec(str_views(shorts@).take(i as int)),
            decreases shorts.len() - i,
        {
            let flag = to_feature_flag_name(shorts[i].as_str());
            self.content.append(flag.as_str());
            self.content.append(" = []\n");
            proof {
                let vs = str_views(shorts@);
                assert(vs.take(i + 1).drop_last() =~= vs.take(i as int));
                assert(vs.take(i + 1).last() == vs[i as int]);
            }
            i = i + 1;
        }
        let ghost base2 = self.content@;
        proof {
            assert(str_views(shorts@).take(shorts@.len() as int) =~= str_views(shorts@));
            assert(feature_views(features@).take(0) =~= Seq::<(Seq<char>, Seq<char>)>::empty());
            assert(self.content@ =~= base2 + feature_lines_spec(
                feature_views(features@).take(0),
            ));
        }
        let mut k: usize = 0;
        while k < features.len()
            invariant
                k <= features.len(),
                self.content@ == base2 + feature_lines_spec(
                    feature_views(features@).take(k as int),
                ),
            decreases features.len() - k,
        {
            let flag = to_feature_flag_name(features[k].package_short_name.as_str());
            self.content.append(features[k].name.as_str());
            self.content.append(" = [\"");
            self.content.append(flag.as_str());
            self.content.append("\", \"");
            self.content.append("leptos-icons-");
            self.content.append(features[k].package_short_name.as_str());
            self.content.append("/");
            self.content.append(features[k].name.as_str());
            self.content.append("\"]\n");
            proof {
                let vs = feature_views(features@);
                assert(vs.take(k + 1).drop_last() =~= vs.take(k as int));
                assert(vs.take(k + 1).last() == vs[k as int]);
            }
            k = k + 1;
        }
        proof {
            assert(feature_views(features@).take(features@.len() as int) =~= feature_views(
                features@,
            ));
        }
    }
}

/// The categories of one icon joined with `", "`, in source order.
pub open spec fn categories_join_spec(cs: Seq<Seq<char>>) -> Seq<char>
    decreases cs.len(),
{
    if cs.len() == 0 {
        Seq::empty()
    } else if cs.len() == 1 {
        cs[0]
    } else {
        categories_join_spec(cs.drop_last()) + ", "@ + cs.last()
    }
}

/// One documentation table row for an icon.
pub open spec fn table_row_spec(m: (Seq<char>, Seq<Seq<char>>)) -> Seq<char> {
    "| "@ + m.0 + " | "@ + categories_join_spec(m.1) + " |\n"@
}

/// The table rows of one package's icons, in the given order.
pub open spec fn table_rows_spec(ms: Seq<(Seq<char>, Seq<Seq<char>>)>) -> Seq<char>
    decreases ms.len(),
{
    if ms.len() == 0 {
        Seq::empty()
    } else {
        table_rows_spec(ms.drop_last()) + table_row_spec(ms.last())
    }
}

/// One package's documentation section: a heading with its short name,
/// then one row per icon.
pub open spec fn table_section_spec(ty: PackageType, ms: Seq<(Seq<char>, Seq<Seq<char>>)>) -> Seq<
    char,
> {
    "## "@ + ty.short_name_spec() + "\n\n"@ + table_rows_spec(ms) + "\n"@
}

/// The views of the per-package-type metadata table.
pub open spec fn table_entry_views(s: Seq<(PackageType, Vec<IconMeta>)>) -> Seq<
    (PackageType, Seq<(Seq<char>, Seq<Seq<char>>)>),
> {
    s.map_values(|e: (PackageType, Vec<IconMeta>)| (e.0, meta_views(e.1@)))
}

/// The whole documentation table, one section per known package type, in
/// table order.
pub open spec fn icon_table_spec(
    entries: Seq<(PackageType, Seq<(Seq<char>, Seq<Seq<char>>)>)>,
) -> Seq<char>
    decreases entries.len(),
{
    if entries.len() == 0 {
        Seq::empty()
    } else {
        icon_table_spec(entries.drop_last()) + table_section_spec(
            entries.last().0,
            entries.last().1,
        )
    }
}

/// Joins an icon's categories with `", "`.
fn render_categories(cs: &Vec<String>) -> (r: String)
    ensures
        r@ == categories_join_spec(cs.deep_view()),
{
    let mut out = String::new();
    proof {
        assert(cs.deep_view().take(0) =~= Seq::<Seq<char>>::empty());
        assert(out@ =~= categories_join_spec(cs.deep_view().take(0)));
    }
    let mut i: usize = 0;
    while i < cs.len()
        invariant
            i <= cs.len(),
            out@ == categories_join_spec(cs.deep_view().take(i as int)),
        decreases cs.len() - i,
    {
        if i > 0 {
            out.append(", ");
        }
        out.append(cs[i].as_str());
        proof {
            let vs = cs.deep_view();
            assert(vs.take(i + 1).drop_last() =~= vs.take(i as int));
            assert(vs.take(i + 1).last() == vs[i as int]);
            assert(vs[i as int] == cs@[i as int]@);
        }
        i = i + 1;
    }
    proof {
        assert(cs.deep_view().take(cs@.len() as int) =~= cs.deep_view());
    }
    out
}

/// Renders the table rows of one package's icon metadata.
fn render_table_rows(ms: &Vec<IconMeta>) -> (r: String)
    ensures
        r@ == table_rows_spec(meta_views(ms@)),
{
    let mut out = String::new();
    proof {
        assert(meta_views(ms@).take(0) =~= Seq::<(Seq<char>, Seq<Seq<char>>)>::empty());
        assert(out@ =~= table_rows_spec(meta_views(ms@).take(0)));
    }
    let mut i: usize = 0;
    while i < ms.len()
        invariant
            i <= ms.len(),
            out@ == table_rows_spec(meta_views(ms@).take(i as int)),
        decreases ms.len() - i,
    {
        let cats = render_categories(&ms[i].categories);
        out.append("| ");
        out.append(ms[i].name.as_str());
        out.append(" | ");
        out.append(cats.as_str());
        out.append(" |\n");
        proof {
            let vs = meta_views(ms@);
            assert(vs.take(i + 1).drop_last() =~= vs.take(i as int));
            assert(vs.take(i + 1).last() == vs[i as int]);
        }
        i = i + 1;
    }
    proof {
        assert(meta_views(ms@).take(ms@.len() as int) =~= meta_views(ms@));
    }
    out
}

/// Renders the aggregate documentation table, keyed by package type, one
/// row per icon listing its name and categories.
pub fn render_icon_table(entries: &Vec<(PackageType, Vec<IconMeta>)>) -> (r: String)
    ensures
        r@ == icon_table_spec(table_entry_views(entries@)),
{
    let mut out = String::new();
    proof {
        assert(table_entry_views(entries@).take(0) =~= Seq::<
            (PackageType, Seq<(Seq<char>, Seq<Seq<char>>)>),
        >::empty());
        assert(out@ =~= icon_table_spec(table_entry_views(entries@).take(0)));
    }
    let mut i: usize = 0;
    while i < entries.len()
        invariant
            i <= entries.len(),
            out@ == icon_table_spec(table_entry_views(entries@).take(i as int)),
        decreases entries.len() - i,
    {
        let rows = render_table_rows(&entries[i].1);
        out.append("## ");
        out.append(entries[i].0.short_name());
        out.append("\n\n");
        out.append(rows.as_str());
        out.append("\n");
        proof {
            let vs = table_entry_views(entries@);
            assert(vs.take(i + 1).drop_last() =~= vs.take(i as int));
            assert(vs.take(i + 1).last() == vs[i as int]);
        }
        i = i + 1;
    }
    proof {
        assert(table_entry_views(entries@).take(entries@.len() as int) =~= table_entry_views(
            entries@,
        ));
    }
    out
}

} // verus!
