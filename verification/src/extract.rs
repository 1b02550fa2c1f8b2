//! Icon extraction: turning one raw icon-definition unit (name, category
//! taxonomy, SVG markup) into a normalized `Icon` record, or an error
//! telling why the unit is unusable.
use vstd::prelude::*;

use crate::ident::{icon_feature_name, icon_feature_name_spec};
use crate::model::{Feature, Icon};
use crate::package::PackageType;

verus! {

/// Why one icon-definition unit could not be turned into an `Icon`.
#[derive(Clone, Copy, Debug, PartialEq, Eq, Structural)]
pub enum ExtractionError {
    /// Required metadata is absent: the unit carries no icon name.
    MissingName,
    /// The unit's SVG markup is malformed.
    MalformedSvg,
}

/// The index of the first `'>'` in `s` at or after position `i`, or
/// `s.len()` if there is none.
pub open spec fn first_gt_from(s: Seq<char>, i: int) -> int
    decreases s.len() - i,
    when 0 <= i <= s.len()
{
    if i >= s.len() {
        s.len() as int
    } else if s[i] == '>' {
        i
    } else {
        first_gt_from(s, i + 1)
    }
}

/// An icon's markup is well formed when it is an `<svg ...>...</svg>`
/// element: the opening tag's attribute text ends at the first `'>'`, and
/// that must come before the closing tag.
pub open spec fn svg_well_formed(s: Seq<char>) -> bool {
    &&& s.len() >= 11
    &&& s.subrange(0, 4) == "<svg"@
    &&& s.subrange(s.len() - 6, s.len() as int) == "</svg>"@
    &&& first_gt_from(s, 4) <= s.len() - 7
}

/// The attribute text of a well-formed icon markup: everything between
/// `<svg` and the first `'>'`.
pub open spec fn svg_attrs_spec(s: Seq<char>) -> Seq<char> {
    s.subrange(4, first_gt_from(s, 4))
}

/// The child content of a well-formed icon markup: everything between the
/// first `'>'` and the closing `</svg>`.
pub open spec fn svg_body_spec(s: Seq<char>) -> Seq<char> {
    s.subrange(first_gt_from(s, 4) + 1, s.len() - 6)
}

/// Finds the first `'>'` at or after position 4.
fn find_first_gt(s: &str) -> (g: usize)
    requires
        s@.len() >= 4,
    ensures
        g as int == first_gt_from(s@, 4),
        4 <= g <= s@.len(),
{
    let n = s.unicode_len();
    let mut i: usize = 4;
    while i < n
        invariant
            4 <= i <= n,
            n == s@.len(),
            first_gt_from(s@, 4) == first_gt_from(s@, i as int),
        decreases n - i,
    {
        if s.get_char(i) == '>' {
            return i;
        }
        proof {
            assert(first_gt_from(s@, i as int) == first_gt_from(s@, i + 1));
        }
        i = i + 1;
    }
    i
}

/// Splits an icon's SVG markup into its attribute text and child content,
/// exactly when the markup is well formed.
pub fn parse_svg(svg: &str) -> (r: Result<(String, String), ExtractionError>)
    ensures
        r is Ok <==> svg_well_formed(svg@),
        r matches Ok(p) ==> p.0@ == svg_attrs_spec(svg@) && p.1@ == svg_body_spec(svg@),
        r matches Err(e) ==> e == ExtractionError::MalformedSvg,
{
    proof {
        reveal_strlit("<svg");
        reveal_strlit("</svg>");
    }
    let n = svg.unicode_len();
    if n < 11 {
        return Err(ExtractionError::MalformedSvg);
    }
    let prefix_ok = svg.get_char(0) == '<' && svg.get_char(1) == 's' && svg.get_char(2) == 'v'
        && svg.get_char(3) == 'g';
    proof {
        if prefix_ok {
            assert(svg@.subrange(0, 4) =~= "<svg"@);
        } else {
            if svg@.subrange(0, 4) == "<svg"@ {
                assert(svg@[0] == svg@.subrange(0, 4)[0]);
                assert(svg@[1] == svg@.subrange(0, 4)[1]);
                assert(svg@[2] == svg@.subrange(0, 4)[2]);
                assert(svg@[3] == svg@.subrange(0, 4)[3]);
            }
        }
    }
    if !prefix_ok {
        return Err(ExtractionError::MalformedSvg);
    }
    let suffix_ok = svg.get_char(n - 6) == '<' && svg.get_char(n - 5) == '/' && svg.get_char(n - 4)
        == 's' && svg.get_char(n - 3) == 'v' && svg.get_char(n - 2) == 'g' && svg.get_char(n - 1)
        == '>';
    proof {
        let tail = svg@.subrange(svg@.len() - 6, svg@.len() as int);
        if suffix_ok {
            assert(tail =~= "</svg>"@);
        } else {
            if tail == "</svg>"@ {
                assert(svg@[svg@.len() - 6] == tail[0]);
                assert(svg@[svg@.len() - 5] == tail[1]);
                assert(svg@[svg@.len() - 4] == tail[2]);
                assert(svg@[svg@.len() - 3] == tail[3]);
                assert(svg@[svg@.len() - 2] == tail[4]);
                assert(svg@[svg@.len() - 1] == tail[5]);
            }
        }
    }
    if !suffix_ok {
        return Err(ExtractionError::MalformedSvg);
    }
    let g = find_first_gt(svg);
    if g > n - 7 {
        return Err(ExtractionError::MalformedSvg);
    }
    let attrs = svg.substring_char(4, g).to_owned();
    let body = svg.substring_char(g + 1, n - 6).to_owned();
    Ok((attrs, body))
}

/// Parses one icon-definition unit into a normalized `Icon`.
///
/// Succeeds exactly when the unit carries a name and well-formed markup;
/// the resulting icon's component and feature name is the upper-camel-case
/// join of the package short name and the raw name, and the category list
/// is preserved verbatim in source order.
pub fn extract_icon(ty: PackageType, raw_name: &str, categories: Vec<String>, svg: &str) -> (r:
    Result<Icon, ExtractionError>)
    ensures
        r is Ok <==> (raw_name@.len() > 0 && svg_well_formed(svg@)),
        r matches Ok(icon) ==> {
            &&& icon.ty == ty
            &&& icon@.component_name == icon_feature_name_spec(ty.short_name_spec(), raw_name@)
            &&& icon@.feature == (
                icon_feature_name_spec(ty.short_name_spec(), raw_name@),
                ty.short_name_spec(),
            )
            &&& icon@.categories == categories.deep_view()
            &&& icon@.svg_attributes == svg_attrs_spec(svg@)
            &&& icon@.svg_body == svg_body_spec(svg@)
        },
        r matches Err(e) ==> e == (if raw_name@.len() == 0 {
            ExtractionError::MissingName
        } else {
            ExtractionError::MalformedSvg
        }),
{
    if raw_name.unicode_len() == 0 {
        return Err(ExtractionError::MissingName);
    }
    match parse_svg(svg) {
        Err(e) => Err(e),
        Ok((attrs, body)) => {
            let name = icon_feature_name(ty.short_name(), raw_name);
            let feature = Feature {
                name: name.clone(),
                package_short_name: ty.short_name().to_owned(),
            };
            Ok(
                Icon {
                    ty,
                    component_name: name,
                    feature,
                    categories,
                    svg_attributes: attrs,
                    svg_body: body,
                },
            )
        },
    }
}

} // verus!
