//! The icon data model: features, icons, and the metadata projection kept
//! for documentation.
use vstd::prelude::*;

use crate::order::{lex_le, pair_le};
use crate::order::{str_eq, str_le};
use crate::package::PackageType;

verus! {

/// The externally addressable name of one icon, scoped to its owning
/// package. Features order by name, ties broken by the package short name.
#[derive(Debug, Clone)]
pub struct Feature {
    pub name: String,
    pub package_short_name: String,
}

impl View for Feature {
    type V = (Seq<char>, Seq<char>);

    open spec fn view(&self) -> (Seq<char>, Seq<char>) {
        (self.name@, self.package_short_name@)
    }
}

impl Feature {
    /// Executable comparison matching `pair_le` on the views.
    pub fn le(&self, other: &Feature) -> (r: bool)
        ensures
            r == pair_le(self@, other@),
    {
        if str_eq(self.name.as_str(), other.name.as_str()) {
            str_le(self.package_short_name.as_str(), other.package_short_name.as_str())
        } else {
            str_le(self.name.as_str(), other.name.as_str())
        }
    }

    pub fn duplicate(&self) -> (r: Feature)
        ensures
            r@ == self@,
    {
        Feature { name: self.name.clone(), package_short_name: self.package_short_name.clone() }
    }
}

/// The mathematical value of one icon.
#[verifier::ext_equal]
pub ghost struct IconModel {
    pub ty: PackageType,
    pub component_name: Seq<char>,
    pub feature: (Seq<char>, Seq<char>),
    pub categories: Seq<Seq<char>>,
    pub svg_attributes: Seq<char>,
    pub svg_body: Seq<char>,
}

/// One glyph extracted from a package: its owning package type, its
/// naming, its category taxonomy, and the SVG payload used only to render
/// the component body.
#[derive(Debug)]
pub struct Icon {
    pub ty: PackageType,
    pub component_name: String,
    pub feature: Feature,
    pub categories: Vec<String>,
    pub svg_attributes: String,
    pub svg_body: String,
}

impl View for Icon {
    type V = IconModel;

    open spec fn view(&self) -> IconModel {
        IconModel {
            ty: self.ty,
            component_name: self.component_name@,
            feature: self.feature@,
            categories: self.categories.deep_view(),
            svg_attributes: self.svg_attributes@,
            svg_body: self.svg_body@,
        }
    }
}

/// Order on icon models: by component name.
pub open spec fn icon_le(a: IconModel, b: IconModel) -> bool {
    lex_le(a.component_name, b.component_name)
}

/// The order relation `icon_le`, packaged for use with `sorted_by`.
pub open spec fn icon_leq_fn() -> spec_fn(IconModel, IconModel) -> bool {
    |a: IconModel, b: IconModel| icon_le(a, b)
}

/// Copies a vector of strings, element by element.
pub fn clone_strings(v: &Vec<String>) -> (r: Vec<String>)
    ensures
        r.deep_view() == v.deep_view(),
        r@.len() == v@.len(),
{
    let mut r: Vec<String> = Vec::new();
    let mut i: usize = 0;
    while i < v.len()
        invariant
            i <= v.len(),
            r@.len() == i,
            forall|k: int| 0 <= k < i ==> r@[k]@ == v@[k]@,
        decreases v.len() - i,
    {
        r.push(v[i].clone());
        i = i + 1;
    }
    proof {
        assert(r.deep_view() =~= v.deep_view());
    }
    r
}

impl Icon {
    pub fn duplicate(&self) -> (r: Icon)
        ensures
            r@ == self@,
    {
        let r = Icon {
            ty: self.ty,
            component_name: self.component_name.clone(),
            feature: self.feature.duplicate(),
            categories: clone_strings(&self.categories),
            svg_attributes: self.svg_attributes.clone(),
            svg_body: self.svg_body.clone(),
        };
        proof {
            assert(r@ =~= self@);
        }
        r
    }

    /// Executable comparison matching `icon_le` on the views.
    pub fn le(&self, other: &Icon) -> (r: bool)
        ensures
            r == icon_le(self@, other@),
    {
        str_le(self.component_name.as_str(), other.component_name.as_str())
    }

    /// The metadata projection of this icon, kept for documentation after
    /// the full icon is consumed.
    pub fn meta(&self) -> (r: IconMeta)
        ensures
            r@ == (self@.feature.0, self@.categories),
    {
        IconMeta { name: self.feature.name.clone(), categories: clone_strings(&self.categories) }
    }
}

/// The `{name, categories}` projection of an icon, retained for the
/// aggregate documentation table.
#[derive(Debug)]
pub struct IconMeta {
    pub name: String,
    pub categories: Vec<String>,
}

impl View for IconMeta {
    type V = (Seq<char>, Seq<Seq<char>>);

    open spec fn view(&self) -> (Seq<char>, Seq<Seq<char>>) {
        (self.name@, self.categories.deep_view())
    }
}

/// No two icons share a component name. Collisions are a hard upstream
/// data error, assumed impossible by the packages' naming discipline.
pub open spec fn distinct_component_names(s: Seq<IconModel>) -> bool {
    forall|i: int, j: int| 0 <= i < j < s.len() ==> s[i].component_name != s[j].component_name
}

/// The views of a sequence of strings.
pub open spec fn str_views(s: Seq<String>) -> Seq<Seq<char>> {
    s.map_values(|x: String| x@)
}

/// The views of a sequence of features.
pub open spec fn feature_views(s: Seq<Feature>) -> Seq<(Seq<char>, Seq<char>)> {
    s.map_values(|f: Feature| f@)
}

/// The views of a sequence of icons.
pub open spec fn icon_views(s: Seq<Icon>) -> Seq<IconModel> {
    s.map_values(|i: Icon| i@)
}

/// The views of a sequence of icon metadata records.
pub open spec fn meta_views(s: Seq<IconMeta>) -> Seq<(Seq<char>, Seq<Seq<char>>)> {
    s.map_values(|m: IconMeta| m@)
}

} // verus!
