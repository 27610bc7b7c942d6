//! Annotations read from the attributes of a syntax tree.

use crate::tree::{optional_paths, Annotation, NamePath, NamePathView};
use vstd::prelude::*;

verus! {

#[verifier::external_type_specification]
#[verifier::external_body]
pub struct ExAttribute(syn::Attribute);

/// Whether every path has at least one name.
pub open spec fn all_named(paths: Seq<NamePathView>) -> bool {
    forall|i: int| 0 <= i < paths.len() ==> (#[trigger] paths[i]).segments.len() > 0
}

/// The path of an attribute, as `syn::Attribute::path` gives it.
pub uninterp spec fn attribute_path_of(attribute: syn::Attribute) -> NamePathView;

/// The paths of the nested items of an attribute, as the parser of
/// `syn::MetaList::parse_nested_meta` finds them; nothing for an attribute
/// that is no list, and for a list that the parser refuses.
pub uninterp spec fn nested_paths_of(attribute: syn::Attribute) -> Option<Seq<NamePathView>>;

/// Calls `syn::Attribute::path` and copies the path that comes back: whether
/// it starts with `::`, and the names of its segments. The contract gives
/// that path its name and claims nothing else of it.
#[verifier::external_body]
fn attribute_path(attribute: &syn::Attribute) -> (path: NamePath)
    ensures
        path@ == attribute_path_of(*attribute),
{
    let path = attribute.path();
    NamePath {
        leading_separator: path.leading_colon.is_some(),
        segments: path.segments.iter().map(|segment| segment.ident.to_string()).collect(),
    }
}

/// Calls `syn::MetaList::parse_nested_meta` on an attribute that is a list,
/// and copies the path of every nested item that it hands out, in order.
/// Nothing comes back where the call fails, and for an attribute that is no
/// list, on which the call is not made. The contract gives the result its
/// name. Beyond that it claims what the parser shows of every path that it
/// hands out: it starts with a name.
#[verifier::external_body]
fn nested_paths(attribute: &syn::Attribute) -> (paths: Option<Vec<NamePath>>)
    ensures
        optional_paths(paths) == nested_paths_of(*attribute),
        optional_paths(paths) matches Some(paths) ==> all_named(paths),
{
    let list = match &attribute.meta {
        syn::Meta::List(list) => list,
        syn::Meta::Path(_) => return None,
        syn::Meta::NameValue(_) => return None,
    };
    let mut paths: Vec<syn::Path> = Vec::new();
    let parsed = list.parse_nested_meta(|meta| Ok(paths.push(meta.path)));
    let plain = paths.iter().map(|path| NamePath {
        leading_separator: path.leading_colon.is_some(),
        segments: path.segments.iter().map(|segment| segment.ident.to_string()).collect(),
    });
    parsed.ok().map(|()| plain.collect())
}

/// Describes an attribute as an annotation. The marker is the path of the
/// attribute as it is written. The payload holds the paths of the nested
/// items of the attribute, where it is a list of them.
pub fn read_annotation(attribute: &syn::Attribute) -> (annotation: Annotation)
    ensures
        annotation@.marker == attribute_path_of(*attribute).text(),
        annotation@.payload == nested_paths_of(*attribute),
        annotation@.payload matches Some(paths) ==> all_named(paths),
{
    let path = attribute_path(attribute);
    Annotation { marker: path.text(), payload: nested_paths(attribute) }
}

} // verus!
