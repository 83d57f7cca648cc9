//! File-system path manipulation through `std::path`, on paths held as text.

use vstd::prelude::*;

verus! {

/// What `Path::file_name` gives for a path, as text: `None` when the path
/// ends in `..` or has no final component.
pub uninterp spec fn spec_path_file_name(path: Seq<char>) -> Option<Seq<char>>;

/// What `Path::extension` gives for a path, as text.
pub uninterp spec fn spec_path_extension(path: Seq<char>) -> Option<Seq<char>>;

/// What `Path::file_stem` gives for a path, as text.
pub uninterp spec fn spec_path_file_stem(path: Seq<char>) -> Option<Seq<char>>;

/// What `Path::join` gives for a base path and a further part.
pub uninterp spec fn spec_path_join(base: Seq<char>, part: Seq<char>) -> Seq<char>;

/// What `Path::parent` gives for a path, as text.
pub uninterp spec fn spec_path_parent(path: Seq<char>) -> Option<Seq<char>>;

/// What `Path::strip_prefix` gives for a path and a base, as text: `None`
/// when the base is not a prefix of the path.
pub uninterp spec fn spec_path_strip_prefix(path: Seq<char>, base: Seq<char>) -> Option<Seq<char>>;

/// The components that `Path::iter` gives for a path, as texts.
pub uninterp spec fn spec_path_components(path: Seq<char>) -> Seq<Seq<char>>;

/// Calls `std::path::Path::file_name` on `path`; the result is named
/// `spec_path_file_name` of the path.
#[verifier::external_body]
pub(crate) fn path_file_name(path: &str) -> (r: Option<String>)
    ensures
        r.deep_view() == spec_path_file_name(path@),
{
    std::path::Path::new(path).file_name().and_then(|n| n.to_str()).map(|n| n.to_string())
}

/// Calls `std::path::Path::extension` on `path`; the result is named
/// `spec_path_extension` of the path.
#[verifier::external_body]
pub(crate) fn path_extension(path: &str) -> (r: Option<String>)
    ensures
        r.deep_view() == spec_path_extension(path@),
{
    std::path::Path::new(path).extension().and_then(|n| n.to_str()).map(|n| n.to_string())
}

/// Calls `std::path::Path::file_stem` on `path`; the result is named
/// `spec_path_file_stem` of the path.
#[verifier::external_body]
pub(crate) fn path_file_stem(path: &str) -> (r: Option<String>)
    ensures
        r.deep_view() == spec_path_file_stem(path@),
{
    std::path::Path::new(path).file_stem().and_then(|n| n.to_str()).map(|n| n.to_string())
}

/// Calls `std::path::Path::join`; the result is named `spec_path_join` of the
/// two parts. Text in, text out: a join of two UTF-8 paths is UTF-8.
#[verifier::external_body]
pub(crate) fn path_join(base: &str, part: &str) -> (r: String)
    ensures
        r@ == spec_path_join(base@, part@),
{
    std::path::Path::new(base).join(part).to_string_lossy().into_owned()
}

/// Calls `std::path::Path::parent` on `path`; the result is named
/// `spec_path_parent` of the path.
#[verifier::external_body]
pub(crate) fn path_parent(path: &str) -> (r: Option<String>)
    ensures
        r.deep_view() == spec_path_parent(path@),
{
    std::path::Path::new(path).parent().and_then(|p| p.to_str()).map(|p| p.to_string())
}

/// Calls `std::path::Path::strip_prefix`; the result is named
/// `spec_path_strip_prefix` of the path and the base.
#[verifier::external_body]
pub(crate) fn path_strip_prefix(path: &str, base: &str) -> (r: Option<String>)
    ensures
        r.deep_view() == spec_path_strip_prefix(path@, base@),
{
    std::path::Path::new(path).strip_prefix(base).ok().and_then(|p| p.to_str()).map(|p| p.to_string())
}

/// Calls `std::path::Path::iter` on `path`, each component as text; the
/// result is named `spec_path_components` of the path.
#[verifier::external_body]
pub(crate) fn path_components(path: &str) -> (r: Vec<String>)
    ensures
        r@.map_values(|c: String| c@) == spec_path_components(path@),
{
    std::path::Path::new(path).iter().map(|c| c.to_string_lossy().into_owned()).collect()
}

} // verus!
