//! Deterministic sorting of the pipeline's collections. The string and
//! feature sorts are canonical: their result is the unique sorted
//! permutation of the input, which is what makes repeated runs produce
//! byte-identical aggregate output.
use vstd::prelude::*;
use vstd::relations::{sorted_by, total_ordering};

use crate::model::{feature_views, icon_views, str_views, Feature, Icon, IconModel};
use crate::model::{icon_le, icon_leq_fn};
use crate::order::{lemma_lex_le_total, lemma_lex_le_trans, lemma_lex_total_ordering,
    lemma_pair_total, lemma_pair_total_ordering, lemma_pair_trans, lemma_sorted_insert,
    lemma_sorted_unique, lex_le, lex_leq_fn, pair_le, pair_leq_fn, str_le};

verus! {

/// Finds the insertion position of `x` in a vector of strings: the first
/// index whose element is not below `x`.
fn find_pos_str(out: &Vec<String>, x: &String) -> (j: usize)
    ensures
        j <= out@.len(),
        forall|k: int| 0 <= k < j ==> lex_le(#[trigger] str_views(out@)[k], x@),
        j < out@.len() ==> !lex_le(str_views(out@)[j as int], x@),
{
    let mut j: usize = 0;
    while j < out.len()
        invariant
            j <= out.len(),
            forall|k: int| 0 <= k < j ==> lex_le(#[trigger] str_views(out@)[k], x@),
        decreases out.len() - j,
    {
        if !str_le(out[j].as_str(), x.as_str()) {
            return j;
        }
        j = j + 1;
    }
    j
}

/// Finds the insertion position of `x` in a vector of features.
fn find_pos_feature(out: &Vec<Feature>, x: &Feature) -> (j: usize)
    ensures
        j <= out@.len(),
        forall|k: int| 0 <= k < j ==> pair_le(#[trigger] feature_views(out@)[k], x@),
        j < out@.len() ==> !pair_le(feature_views(out@)[j as int], x@),
{
    let mut j: usize = 0;
    while j < out.len()
        invariant
            j <= out.len(),
            forall|k: int| 0 <= k < j ==> pair_le(#[trigger] feature_views(out@)[k], x@),
        decreases out.len() - j,
    {
        if !out[j].le(x) {
            return j;
        }
        j = j + 1;
    }
    j
}

/// Finds the insertion position of `x` in a vector of icons.
fn find_pos_icon(out: &Vec<Icon>, x: &Icon) -> (j: usize)
    ensures
        j <= out@.len(),
        forall|k: int| 0 <= k < j ==> icon_le(#[trigger] icon_views(out@)[k], x@),
        j < out@.len() ==> !icon_le(icon_views(out@)[j as int], x@),
{
    let mut j: usize = 0;
    while j < out.len()
        invariant
            j <= out.len(),
            forall|k: int| 0 <= k < j ==> icon_le(#[trigger] icon_views(out@)[k], x@),
        decreases out.len() - j,
    {
        if !out[j].le(x) {
            return j;
        }
        j = j + 1;
    }
    j
}

/// Sorts module names lexicographically. The result is the canonical
/// sorted form of the input: a function of the input's multiset alone.
pub fn sort_strings(v: &Vec<String>) -> (r: Vec<String>)
    ensures
        str_views(r@) == str_views(v@).sort_by(lex_leq_fn()),
        sorted_by(str_views(r@), lex_leq_fn()),
        str_views(r@).to_multiset() == str_views(v@).to_multiset(),
{
    let ghost leq = lex_leq_fn();
    proof {
        lemma_lex_total_ordering();
    }
    let mut out: Vec<String> = Vec::new();
    let mut idx: usize = 0;
    proof {
        assert(str_views(out@) =~= Seq::<Seq<char>>::empty());
        assert(str_views(v@.take(0)) =~= Seq::<Seq<char>>::empty());
        Seq::<Seq<char>>::empty().to_multiset_ensures();
    }
    while idx < v.len()
        invariant
            idx <= v.len(),
            sorted_by(str_views(out@), leq),
            str_views(out@).to_multiset() == str_views(v@.take(idx as int)).to_multiset(),
            leq == lex_leq_fn(),
        decreases v.len() - idx,
    {
        let x = v[idx].clone();
        let j = find_pos_str(&out, &x);
        let ghost jj = j as int;
        let ghost pre = str_views(out@);
        out.insert(j, x);
        proof {
            assert(str_views(out@) =~= pre.insert(jj, x@));
            assert forall|u: Seq<char>, w: Seq<char>| #[trigger] leq(u, w) || #[trigger] leq(
                w,
                u,
            ) by {
                lemma_lex_le_total(u, w);
            }
            assert forall|u: Seq<char>, w: Seq<char>, y: Seq<char>|
                #[trigger] leq(u, w) && #[trigger] leq(w, y) implies leq(u, y) by {
                lemma_lex_le_trans(u, w, y);
            }
            lemma_sorted_insert(pre, jj, x@, leq);
            assert(str_views(v@.take(idx + 1)) =~= str_views(v@.take(idx as int)).push(
                v@[idx as int]@));
            str_views(v@.take(idx as int)).to_multiset_ensures();
        }
        idx = idx + 1;
    }
    proof {
        assert(v@.take(v@.len() as int) =~= v@);
        lemma_lex_total_ordering();
        str_views(v@).lemma_sort_by_ensures(leq);
        lemma_sorted_unique(str_views(out@), str_views(v@).sort_by(leq), leq);
    }
    out
}

/// Sorts features by name, ties broken by package short name. Canonical,
/// as for `sort_strings`.
pub fn sort_features(v: &Vec<Feature>) -> (r: Vec<Feature>)
    ensures
        feature_views(r@) == feature_views(v@).sort_by(pair_leq_fn()),
        sorted_by(feature_views(r@), pair_leq_fn()),
        feature_views(r@).to_multiset() == feature_views(v@).to_multiset(),
{
    let ghost leq = pair_leq_fn();
    proof {
        lemma_pair_total_ordering();
    }
    let mut out: Vec<Feature> = Vec::new();
    let mut idx: usize = 0;
    proof {
        assert(feature_views(out@) =~= Seq::<(Seq<char>, Seq<char>)>::empty());
        assert(feature_views(v@.take(0)) =~= Seq::<(Seq<char>, Seq<char>)>::empty());
        Seq::<(Seq<char>, Seq<char>)>::empty().to_multiset_ensures();
    }
    while idx < v.len()
        invariant
            idx <= v.len(),
            sorted_by(feature_views(out@), leq),
            feature_views(out@).to_multiset() == feature_views(v@.take(idx as int)).to_multiset(),
            leq == pair_leq_fn(),
        decreases v.len() - idx,
    {
        let x = v[idx].duplicate();
        let j = find_pos_feature(&out, &x);
        let ghost jj = j as int;
        let ghost pre = feature_views(out@);
        out.insert(j, x);
        proof {
            assert(feature_views(out@) =~= pre.insert(jj, v@[idx as int]@));
            assert forall|u: (Seq<char>, Seq<char>), w: (Seq<char>, Seq<char>)|
                #[trigger] leq(u, w) || #[trigger] leq(w, u) by {
                lemma_pair_total(u, w);
            }
            assert forall|u: (Seq<char>, Seq<char>), w: (Seq<char>, Seq<char>), y: (
                Seq<char>,
                Seq<char>,
            )| #[trigger] leq(u, w) && #[trigger] leq(w, y) implies leq(u, y) by {
                lemma_pair_trans(u, w, y);
            }
            lemma_sorted_insert(pre, jj, v@[idx as int]@, leq);
            assert(feature_views(v@.take(idx + 1)) =~= feature_views(v@.take(idx as int)).push(
                v@[idx as int]@));
            feature_views(v@.take(idx as int)).to_multiset_ensures();
        }
        idx = idx + 1;
    }
    proof {
        assert(v@.take(v@.len() as int) =~= v@);
        lemma_pair_total_ordering();
        feature_views(v@).lemma_sort_by_ensures(leq);
        lemma_sorted_unique(feature_views(out@), feature_views(v@).sort_by(leq), leq);
    }
    out
}

/// Sorts a package's icons by component name, so the emitted module is
/// order-stable no matter the extraction order.
pub fn sort_icons(v: &Vec<Icon>) -> (r: Vec<Icon>)
    ensures
        sorted_by(icon_views(r@), icon_leq_fn()),
        icon_views(r@).to_multiset() == icon_views(v@).to_multiset(),
{
    let ghost leq = icon_leq_fn();
    let mut out: Vec<Icon> = Vec::new();
    let mut idx: usize = 0;
    proof {
        assert(icon_views(out@) =~= Seq::<crate::model::IconModel>::empty());
        assert(icon_views(v@.take(0)) =~= Seq::<crate::model::IconModel>::empty());
        Seq::<crate::model::IconModel>::empty().to_multiset_ensures();
    }
    while idx < v.len()
        invariant
            idx <= v.len(),
            sorted_by(icon_views(out@), leq),
            icon_views(out@).to_multiset() == icon_views(v@.take(idx as int)).to_multiset(),
            leq == icon_leq_fn(),
        decreases v.len() - idx,
    {
        let x = v[idx].duplicate();
        let j = find_pos_icon(&out, &x);
        let ghost jj = j as int;
        let ghost pre = icon_views(out@);
        out.insert(j, x);
        proof {
            assert(icon_views(out@) =~= pre.insert(jj, v@[idx as int]@));
            assert forall|u: crate::model::IconModel, w: crate::model::IconModel|
                #[trigger] leq(u, w) || #[trigger] leq(w, u) by {
                lemma_lex_le_total(u.component_name, w.component_name);
            }
            assert forall|u: crate::model::IconModel, w: crate::model::IconModel, y:
                crate::model::IconModel|
                #[trigger] leq(u, w) && #[trigger] leq(w, y) implies leq(u, y) by {
                lemma_lex_le_trans(u.component_name, w.component_name, y.component_name);
            }
            lemma_sorted_insert(pre, jj, v@[idx as int]@, leq);
            assert(icon_views(v@.take(idx + 1)) =~= icon_views(v@.take(idx as int)).push(
                v@[idx as int]@));
            icon_views(v@.take(idx as int)).to_multiset_ensures();
        }
        idx = idx + 1;
    }
    proof {
        assert(v@.take(v@.len() as int) =~= v@);
    }
    out
}

/// Two sorted arrangements of the same icons are equal whenever component
/// names are distinct: sorting a package's icons has exactly one result.
pub proof fn lemma_sorted_icons_unique(a: Seq<IconModel>, b: Seq<IconModel>)
    requires
        sorted_by(a, icon_leq_fn()),
        sorted_by(b, icon_leq_fn()),
        a.to_multiset() == b.to_multiset(),
        crate::model::distinct_component_names(a),
    ensures
        a == b,
{
    let leq = icon_leq_fn();
    let key = |m: IconModel| m.component_name;
    assert forall|x: IconModel| #[trigger] leq(x, x) by {
        lemma_lex_le_total(x.component_name, x.component_name);
    }
    assert forall|x: IconModel, y: IconModel| #[trigger] leq(x, y) && #[trigger] leq(y, x)
        implies key(x) == key(y) by {
        crate::order::lemma_lex_le_antisym(x.component_name, y.component_name);
    }
    crate::order::lemma_sorted_unique_by_key(a, b, leq, key);
}

} // verus!
