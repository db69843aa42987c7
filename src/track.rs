//! The label under which a loaded track is shown.
use vstd::prelude::*;

verus! {

/// The final component of a path, as `std::path::Path::file_name` finds it, or the
/// empty text where the path has none.
pub uninterp spec fn base_name_of(path: Seq<char>) -> Seq<char>;

/// Relies on `std::path::Path::file_name`: the final component of the path, or none
/// where the path ends in `..` or is a root (then the empty text). The component of a
/// path given as UTF-8 is UTF-8, so `to_string_lossy` loses nothing. Under the
/// platform's path syntax the result depends on the path's text alone.
#[verifier::external_body]
pub(crate) fn base_name(path: &str) -> (r: String)
    ensures
        r@ == base_name_of(path@),
{
    std::path::Path::new(path).file_name().unwrap_or_default().to_string_lossy().to_string()
}

} // verus!
