//! File-system paths, held as strings. Each wrapper here makes one call of
//! `std::path::Path` (`dir_status` also reads the two fields it hands out); the path grammar (separators, prefixes, extensions) is
//! std's and is not restated: the names below stand for what std computes on
//! the target this crate is built for.

use vstd::prelude::*;

verus! {

/// Whether `std::path::Path::file_name` finds a final component in `path`.
pub uninterp spec fn path_has_file_name(path: Seq<char>) -> bool;

/// What `std::path::Path::file_stem` gives for `path`: the final component
/// without its extension, `None` where there is no final component.
pub uninterp spec fn path_file_stem(path: Seq<char>) -> Option<Seq<char>>;

/// What `std::path::Path::join` gives for `base` and `part`.
pub uninterp spec fn path_join(base: Seq<char>, part: Seq<char>) -> Seq<char>;

/// Calls `std::path::Path::file_name` and says whether it found a component;
/// the contract claims that the answer is `path_has_file_name` of the text.
#[verifier::external_body]
pub fn has_file_name(path: &str) -> (r: bool)
    ensures
        r == path_has_file_name(path@),
{
    std::path::Path::new(path).file_name().is_some()
}

/// Calls `std::path::Path::file_stem`; the contract claims that the stem,
/// converted to a `String` (lossless, as it is a part of a `str`), is
/// `path_file_stem` of the text.
#[verifier::external_body]
pub fn file_stem(path: &str) -> (r: Option<String>)
    ensures
        r is Some <==> path_file_stem(path@) is Some,
        r matches Some(s) ==> s@ == path_file_stem(path@)->0,
{
    std::path::Path::new(path).file_stem().map(|s| s.to_string_lossy().into_owned())
}

/// Calls `std::path::Path::join`; the contract claims that the joined path,
/// converted to a `String` (lossless, as both parts are `str`), is
/// `path_join` of the two texts.
#[verifier::external_body]
pub fn join(base: &str, part: &str) -> (r: String)
    ensures
        r@ == path_join(base@, part@),
{
    std::path::Path::new(base).join(part).to_string_lossy().into_owned()
}

/// Calls `std::path::Path::is_file`, which asks the file system whether a
/// regular file stands at `path`. Nothing is claimed of the answer: it
/// depends on the disk at the moment of the call.
#[verifier::external_body]
pub fn is_file(path: &str) -> (r: bool) {
    std::path::Path::new(path).is_file()
}

/// Calls `std::path::Path::metadata`, which asks the file system what
/// stands at `path` (following symbolic links), and hands out whether it is
/// a directory (`Metadata::is_dir`) and whether its permissions are
/// read-only (`Permissions::readonly`); `None` when the call fails, as when
/// nothing stands there. Nothing is claimed of the answer: it depends on the
/// disk at the moment of the call.
#[verifier::external_body]
pub fn dir_status(path: &str) -> (r: Option<(bool, bool)>) {
    match std::path::Path::new(path).metadata() {
        Ok(meta) => Some((meta.is_dir(), meta.permissions().readonly())),
        Err(_) => None,
    }
}

} // verus!
