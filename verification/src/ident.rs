//! Identifier normalization: raw package and icon names become
//! upper-camel-case identifiers usable both as component names and as
//! build-feature-flag tokens.
use vstd::prelude::*;

verus! {

/// The upper-camel-case form of a character sequence, as computed by the
/// conversion this pipeline relies on. The result depends on the input
/// characters alone.
pub uninterp spec fn upper_camel_of(s: Seq<char>) -> Seq<char>;

/// Relies on heck's `str::to_upper_camel_case`: a deterministic, pure
/// word-splitting and capitalization of its input; an empty input yields
/// an empty result.
#[verifier::external_body]
pub(crate) fn to_upper_camel(s: &str) -> (r: String)
    ensures
        r@ == upper_camel_of(s@),
        s@.len() == 0 ==> r@.len() == 0,
{
    heck::ToUpperCamelCase::to_upper_camel_case(s)
}

/// Turns a raw icon name into the upper-camel-case component identifier.
pub fn to_component_name(raw_icon_name: &str) -> (r: String)
    ensures
        r@ == upper_camel_of(raw_icon_name@),
{
    to_upper_camel(raw_icon_name)
}

/// Turns a package short name into its umbrella feature-flag identifier,
/// such as `Ai` for `ai`.
pub fn to_feature_flag_name(package_short_name: &str) -> (r: String)
    ensures
        r@ == upper_camel_of(package_short_name@),
{
    to_upper_camel(package_short_name)
}

/// The canonical feature name of one icon: the upper-camel-case form of
/// the package short name joined to the raw icon name.
pub open spec fn icon_feature_name_spec(short: Seq<char>, raw: Seq<char>) -> Seq<char> {
    upper_camel_of(short + "-"@ + raw)
}

/// Builds the feature name of one icon from its package short name and
/// its raw name.
pub fn icon_feature_name(short: &str, raw: &str) -> (r: String)
    ensures
        r@ == icon_feature_name_spec(short@, raw@),
{
    let mut joined = String::new();
    joined.append(short);
    joined.append("-");
    joined.append(raw);
    to_upper_camel(joined.as_str())
}

} // verus!
