//! The per-package processing core and the driver's finalization pass.
//! Outside work — downloading sources, walking directories, writing files
//! — happens at the caller's edge; everything that decides or computes
//! stands here.
use vstd::prelude::*;
use vstd::relations::sorted_by;

use crate::aggregate::Aggregator;
use crate::emit::{features_section_spec, icon_table_spec, module_text_spec, registration_spec,
    render_icon_table, render_module_registration, table_entry_views, CargoToml};
use crate::extract::{extract_icon, svg_attrs_spec, svg_body_spec, svg_well_formed,
    ExtractionError};
use crate::ident::icon_feature_name_spec;
use crate::model::{feature_views, icon_views, meta_views, str_views, Feature, Icon, IconMeta,
    IconModel};
use crate::order::{lemma_lex_total_ordering, lemma_pair_total_ordering, lemma_sorted_unique,
    lex_leq_fn, pair_leq_fn, str_eq};
use crate::package::{Package, PackageType};
use crate::sort::{sort_features, sort_icons, sort_strings};
use crate::model::icon_leq_fn;

verus! {

/// Why one package's processing ended without output. A failure is
/// terminal for its package only; the run continues with the others.
#[derive(Clone, Copy, Debug, PartialEq, Eq, Structural)]
pub enum ProcessError {
    /// Fetching or unpacking the package's source failed.
    Acquisition,
    /// An icon-definition unit was malformed or incomplete.
    Extraction(ExtractionError),
    /// A file could not be created, written, or flushed.
    Io,
}

/// One raw icon-definition unit located in a package's source material:
/// the icon's raw name, its category taxonomy, and its SVG markup.
#[derive(Debug)]
pub struct RawUnit {
    pub name: String,
    pub categories: Vec<String>,
    pub svg: String,
}

impl View for RawUnit {
    type V = (Seq<char>, Seq<Seq<char>>, Seq<char>);

    open spec fn view(&self) -> (Seq<char>, Seq<Seq<char>>, Seq<char>) {
        (self.name@, self.categories.deep_view(), self.svg@)
    }
}

/// The views of a sequence of raw units.
pub open spec fn unit_views(s: Seq<RawUnit>) -> Seq<(Seq<char>, Seq<Seq<char>>, Seq<char>)> {
    s.map_values(|u: RawUnit| u@)
}

/// Whether one raw unit can be extracted: it carries a name and
/// well-formed markup.
pub open spec fn unit_ok(u: (Seq<char>, Seq<Seq<char>>, Seq<char>)) -> bool {
    u.0.len() > 0 && svg_well_formed(u.2)
}

/// The extraction error a bad unit produces.
pub open spec fn unit_error(u: (Seq<char>, Seq<Seq<char>>, Seq<char>)) -> ExtractionError {
    if u.0.len() == 0 {
        ExtractionError::MissingName
    } else {
        ExtractionError::MalformedSvg
    }
}

/// The icon a good unit extracts to, for a given package type.
pub open spec fn unit_icon_model(ty: PackageType, u: (Seq<char>, Seq<Seq<char>>, Seq<char>))
    -> IconModel {
    IconModel {
        ty,
        component_name: icon_feature_name_spec(ty.short_name_spec(), u.0),
        feature: (icon_feature_name_spec(ty.short_name_spec(), u.0), ty.short_name_spec()),
        categories: u.1,
        svg_attributes: svg_attrs_spec(u.2),
        svg_body: svg_body_spec(u.2),
    }
}

/// Extracts every unit of one package into icons. Succeeds exactly when
/// every unit is extractable; the first bad unit aborts the package with
/// its error.
pub fn extract_icons(ty: PackageType, units: &Vec<RawUnit>) -> (r: Result<
    Vec<Icon>,
    ExtractionError,
>)
    ensures
        r is Ok <==> (forall|j: int|
            0 <= j < units@.len() ==> unit_ok(#[trigger] unit_views(units@)[j])),
        r matches Ok(icons) ==> icon_views(icons@) == unit_views(units@).map_values(
            |u: (Seq<char>, Seq<Seq<char>>, Seq<char>)| unit_icon_model(ty, u),
        ),
        r matches Err(e) ==> exists|j: int|
            0 <= j < units@.len() && !unit_ok(#[trigger] unit_views(units@)[j]) && e == unit_error(
                unit_views(units@)[j],
            ) && (forall|k: int| 0 <= k < j ==> unit_ok(#[trigger] unit_views(units@)[k])),
{
    let mut icons: Vec<Icon> = Vec::new();
    let mut i: usize = 0;
    while i < units.len()
        invariant
            i <= units.len(),
            forall|k: int| 0 <= k < i ==> unit_ok(#[trigger] unit_views(units@)[k]),
            icon_views(icons@) =~= unit_views(units@).take(i as int).map_values(
                |u: (Seq<char>, Seq<Seq<char>>, Seq<char>)| unit_icon_model(ty, u),
            ),
        decreases units.len() - i,
    {
        let unit = &units[i];
        let cats = crate::model::clone_strings(&unit.categories);
        match extract_icon(ty, unit.name.as_str(), cats, unit.svg.as_str()) {
            Ok(icon) => {
                icons.push(icon);
                proof {
                    let f = |u: (Seq<char>, Seq<Seq<char>>, Seq<char>)| unit_icon_model(ty, u);
                    assert(unit_views(units@).take(i + 1).map_values(f) =~= unit_views(
                        units@,
                    ).take(i as int).map_values(f).push(f(unit_views(units@)[i as int])));
                    assert(icon_views(icons@) =~= unit_views(units@).take(i + 1).map_values(f));
                }
            },
            Err(e) => {
                proof {
                    assert(!unit_ok(unit_views(units@)[i as int]));
                }
                return Err(e);
            },
        }
        i = i + 1;
    }
    proof {
        let f = |u: (Seq<char>, Seq<Seq<char>>, Seq<char>)| unit_icon_model(ty, u);
        assert(unit_views(units@).take(units@.len() as int) =~= unit_views(units@));
        assert(icon_views(icons@) =~= unit_views(units@).map_values(f));
    }
    Ok(icons)
}

/// Everything one successfully processed package hands back: its type,
/// its module name, its features and metadata for the aggregate state,
/// and the rendered text of its module file.
#[derive(Debug)]
pub struct PackageOutput {
    pub ty: PackageType,
    pub module_name: String,
    pub features: Vec<Feature>,
    pub metas: Vec<IconMeta>,
    pub module_text: String,
}

/// Sorts a package's extracted icons by component name and renders its
/// module file, features, and metadata, all in that one sorted order.
pub fn process_extracted(package: &Package, icons: Vec<Icon>) -> (out: PackageOutput)
    ensures
        out.ty == package.ty,
        out.module_name@ == package.ty.short_name_spec(),
        exists|s: Seq<IconModel>|
            {
                &&& sorted_by(s, icon_leq_fn())
                &&& s.to_multiset() == icon_views(icons@).to_multiset()
                &&& feature_views(out.features@) == s.map_values(|m: IconModel| m.feature)
                &&& meta_views(out.metas@) == s.map_values(
                    |m: IconModel| (m.feature.0, m.categories),
                )
                &&& out.module_text@ == module_text_spec(s)
            },
{
    let sorted = sort_icons(&icons);
    let ghost s = icon_views(sorted@);
    let module_text = crate::emit::render_module(&sorted);
    let mut features: Vec<Feature> = Vec::new();
    let mut metas: Vec<IconMeta> = Vec::new();
    let mut i: usize = 0;
    proof {
        assert(feature_views(features@) =~= s.take(0).map_values(|m: IconModel| m.feature));
        assert(meta_views(metas@) =~= s.take(0).map_values(
            |m: IconModel| (m.feature.0, m.categories),
        ));
    }
    while i < sorted.len()
        invariant
            i <= sorted.len(),
            s == icon_views(sorted@),
            feature_views(features@) == s.take(i as int).map_values(|m: IconModel| m.feature),
            meta_views(metas@) == s.take(i as int).map_values(
                |m: IconModel| (m.feature.0, m.categories),
            ),
        decreases sorted.len() - i,
    {
        features.push(sorted[i].feature.duplicate());
        metas.push(sorted[i].meta());
        proof {
            let ff = |m: IconModel| m.feature;
            let fm = |m: IconModel| (m.feature.0, m.categories);
            assert(s.take(i + 1).map_values(ff) =~= s.take(i as int).map_values(ff).push(
                ff(s[i as int])));
            assert(s.take(i + 1).map_values(fm) =~= s.take(i as int).map_values(fm).push(
                fm(s[i as int])));
            assert(feature_views(features@) =~= s.take(i + 1).map_values(ff));
            assert(meta_views(metas@) =~= s.take(i + 1).map_values(fm));
        }
        i = i + 1;
    }
    proof {
        assert(s.take(sorted@.len() as int) =~= s);
    }
    let module_name = package.short_name().to_owned();
    PackageOutput { ty: package.ty, module_name, features, metas, module_text }
}

/// Processes one package from its located raw units: extraction, sorting,
/// and rendering. Succeeds exactly when every unit is extractable.
pub fn process_units(package: &Package, units: &Vec<RawUnit>) -> (r: Result<
    PackageOutput,
    ProcessError,
>)
    ensures
        r is Ok <==> (forall|j: int|
            0 <= j < units@.len() ==> unit_ok(#[trigger] unit_views(units@)[j])),
        r matches Ok(out) ==> {
            &&& out.ty == package.ty
            &&& out.module_name@ == package.ty.short_name_spec()
            &&& exists|s: Seq<IconModel>|
                {
                    &&& sorted_by(s, icon_leq_fn())
                    &&& s.to_multiset() == unit_views(units@).map_values(
                        |u: (Seq<char>, Seq<Seq<char>>, Seq<char>)|
                            unit_icon_model(package.ty, u),
                    ).to_multiset()
                    &&& feature_views(out.features@) == s.map_values(|m: IconModel| m.feature)
                    &&& meta_views(out.metas@) == s.map_values(
                        |m: IconModel| (m.feature.0, m.categories),
                    )
                    &&& out.module_text@ == module_text_spec(s)
                }
        },
        r matches Err(e) ==> (e matches ProcessError::Extraction(x) && exists|j: int|
            0 <= j < units@.len() && !unit_ok(#[trigger] unit_views(units@)[j]) && x == unit_error(
                unit_views(units@)[j],
            )),
{
    match extract_icons(package.ty, units) {
        Err(e) => Err(ProcessError::Extraction(e)),
        Ok(icons) => Ok(process_extracted(package, icons)),
    }
}

/// Records one package's outcome in the aggregate state. A failed package
/// contributes nothing at all; a successful one contributes its module
/// name, its features, and its metadata entry, and nothing else changes.
pub fn record_outcome(agg: &mut Aggregator, outcome: Result<PackageOutput, ProcessError>)
    requires
        old(agg).wf(),
    ensures
        final(agg).wf(),
        outcome matches Err(_) ==> *final(agg) == *old(agg),
        outcome matches Ok(o) ==> {
            &&& final(agg).modules@ == old(agg).modules@.push(o.module_name)
            &&& final(agg).features@ == old(agg).features@ + o.features@
            &&& final(agg).package_icon_metadata@.len() == old(agg).package_icon_metadata@.len()
            &&& (forall|i: int|
                0 <= i < old(agg).package_icon_metadata@.len()
                    && (#[trigger] old(agg).package_icon_metadata@[i]).0 != o.ty
                    ==> final(agg).package_icon_metadata@[i] == old(agg).package_icon_metadata@[i])
            &&& (forall|i: int|
                0 <= i < old(agg).package_icon_metadata@.len()
                    && (#[trigger] old(agg).package_icon_metadata@[i]).0 == o.ty
                    ==> final(agg).package_icon_metadata@[i] == (o.ty, o.metas))
        },
{
    match outcome {
        Err(_) => (),
        Ok(o) => {
            agg.set_package_icon_meta(o.ty, o.metas);
            agg.append_features(o.features);
            agg.append_module(o.module_name);
        },
    }
}

/// The aggregate artifacts written once after all packages finish.
#[derive(Debug)]
pub struct Artifacts {
    /// The module-registration fragment of the generated library root.
    pub lib_registration: String,
    /// The `[features]` fragment of the generated manifest.
    pub features_section: String,
    /// The documentation table keyed by package type.
    pub icon_table: String,
}

/// The driver's finalization pass: sorts the aggregate module and feature
/// lists — the sole point where global determinism is established — and
/// renders the aggregate artifacts from the sorted lists.
pub fn finalize(agg: &Aggregator) -> (r: Artifacts)
    ensures
        r.lib_registration@ == registration_spec(str_views(agg.modules@).sort_by(lex_leq_fn())),
        r.features_section@ == features_section_spec(
            str_views(agg.modules@).sort_by(lex_leq_fn()),
            feature_views(agg.features@).sort_by(pair_leq_fn()),
        ),
        r.icon_table@ == icon_table_spec(table_entry_views(agg.package_icon_metadata@)),
{
    let modules = sort_strings(&agg.modules);
    let features = sort_features(&agg.features);
    let lib_registration = render_module_registration(&modules);
    let mut manifest = CargoToml { content: String::new() };
    manifest.write_features_section(&modules, &features);
    proof {
        assert(Seq::<char>::empty() + features_section_spec(
            str_views(modules@),
            feature_views(features@),
        ) =~= features_section_spec(str_views(modules@), feature_views(features@)));
    }
    let icon_table = render_icon_table(&agg.package_icon_metadata);
    Artifacts { lib_registration, features_section: manifest.content, icon_table }
}

/// Shuffling the completion order of the packages cannot change the final
/// aggregate artifacts: two runs that collect the same modules and the
/// same features, in whatever order, render identical registration and
/// feature fragments.
pub proof fn lemma_run_deterministic(
    m1: Seq<Seq<char>>,
    m2: Seq<Seq<char>>,
    f1: Seq<(Seq<char>, Seq<char>)>,
    f2: Seq<(Seq<char>, Seq<char>)>,
)
    requires
        m1.to_multiset() == m2.to_multiset(),
        f1.to_multiset() == f2.to_multiset(),
    ensures
        registration_spec(m1.sort_by(lex_leq_fn())) == registration_spec(
            m2.sort_by(lex_leq_fn()),
        ),
        features_section_spec(m1.sort_by(lex_leq_fn()), f1.sort_by(pair_leq_fn()))
            == features_section_spec(m2.sort_by(lex_leq_fn()), f2.sort_by(pair_leq_fn())),
{
    lemma_lex_total_ordering();
    lemma_pair_total_ordering();
    m1.lemma_sort_by_ensures(lex_leq_fn());
    m2.lemma_sort_by_ensures(lex_leq_fn());
    f1.lemma_sort_by_ensures(pair_leq_fn());
    f2.lemma_sort_by_ensures(pair_leq_fn());
    lemma_sorted_unique(m1.sort_by(lex_leq_fn()), m2.sort_by(lex_leq_fn()), lex_leq_fn());
    lemma_sorted_unique(f1.sort_by(pair_leq_fn()), f2.sort_by(pair_leq_fn()), pair_leq_fn());
}

/// Regenerating one package from the same extracted icons emits identical
/// module text: any two sorted arrangements of those icons render the
/// same file, whenever component names are distinct (the packages' naming
/// discipline, assumed upstream).
pub proof fn lemma_module_text_deterministic(s1: Seq<IconModel>, s2: Seq<IconModel>)
    requires
        sorted_by(s1, icon_leq_fn()),
        sorted_by(s2, icon_leq_fn()),
        s1.to_multiset() == s2.to_multiset(),
        crate::model::distinct_component_names(s1),
    ensures
        module_text_spec(s1) == module_text_spec(s2),
        s1.map_values(|m: IconModel| m.feature) == s2.map_values(|m: IconModel| m.feature),
        s1.map_values(|m: IconModel| (m.feature.0, m.categories)) == s2.map_values(
            |m: IconModel| (m.feature.0, m.categories),
        ),
{
    crate::sort::lemma_sorted_icons_unique(s1, s2);
}

/// Checks that the two working directories the pipeline was pointed at
/// are the expected ones, guarding against file operations in the wrong
/// place. The caller hands in the final path component of each root.
pub fn assert_paths(build_root_name: &str, library_root_name: &str) -> (ok: bool)
    ensures
        ok == (build_root_name@ == "build"@ && library_root_name@ == "leptos-icons"@),
{
    let build_ok = str_eq(build_root_name, "build");
    let lib_ok = str_eq(library_root_name, "leptos-icons");
    build_ok && lib_ok
}

} // verus!
