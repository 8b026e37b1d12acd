use vstd::prelude::*;

verus! {

/// The text of an optional string.
pub open spec fn opt_text(o: Option<String>) -> Option<Seq<char>> {
    match o {
        Some(s) => Some(s@),
        None => None,
    }
}

/// What `std::path::Path::parent` gives for the path with this text.
pub uninterp spec fn path_parent(path: Seq<char>) -> Option<Seq<char>>;

/// What `std::path::Path::extension` gives for the path with this text.
pub uninterp spec fn path_extension(path: Seq<char>) -> Option<Seq<char>>;

/// What `std::path::Path::file_stem` gives for the path with this text.
pub uninterp spec fn path_file_stem(path: Seq<char>) -> Option<Seq<char>>;

/// Calls `std::path::Path::parent`. The contract only ties the result to the
/// path's text through the name `path_parent`: the parent depends on the
/// path alone. A sub-path of a UTF-8 path is UTF-8, so the conversion back to
/// text loses nothing.
#[verifier::external_body]
pub(crate) fn parent_of(path: &str) -> (r: Option<String>)
    ensures
        opt_text(r) == path_parent(path@),
{
    match std::path::Path::new(path).parent() {
        Some(p) => Some(p.to_string_lossy().into_owned()),
        None => None,
    }
}

/// Calls `std::path::Path::extension`; the result is named by `path_extension`.
#[verifier::external_body]
pub(crate) fn extension_of(path: &str) -> (r: Option<String>)
    ensures
        opt_text(r) == path_extension(path@),
{
    match std::path::Path::new(path).extension() {
        Some(e) => Some(e.to_string_lossy().into_owned()),
        None => None,
    }
}

/// Calls `std::path::Path::file_stem`; the result is named by `path_file_stem`.
#[verifier::external_body]
pub(crate) fn file_stem_of(path: &str) -> (r: Option<String>)
    ensures
        opt_text(r) == path_file_stem(path@),
{
    match std::path::Path::new(path).file_stem() {
        Some(s) => Some(s.to_string_lossy().into_owned()),
        None => None,
    }
}

/// Whether the path's extension is exactly `conf`.
pub open spec fn has_conf_extension(path: Seq<char>) -> bool {
    path_extension(path) == Some("conf"@)
}

/// Checks whether the path's extension is exactly `conf`.
pub fn is_conf_path(path: &str) -> (r: bool)
    ensures
        r == has_conf_extension(path@),
{
    match extension_of(path) {
        Some(ext) => {
            let conf = String::from_str("conf");
            ext == conf
        },
        None => false,
    }
}

/// The file name of the path without its extension, or the empty text
/// when the path has no file name.
pub open spec fn stem_or_empty(path: Seq<char>) -> Seq<char> {
    match path_file_stem(path) {
        Some(s) => s,
        None => Seq::empty(),
    }
}

/// The path's file stem, or an empty string when it has none.
pub fn stem_of(path: &str) -> (r: String)
    ensures
        r@ == stem_or_empty(path@),
{
    match file_stem_of(path) {
        Some(s) => s,
        None => String::new(),
    }
}

} // verus!
