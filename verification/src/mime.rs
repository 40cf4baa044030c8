//! MIME type inference from a file name's extension.

use vstd::prelude::*;
use crate::paths::valid_filename;

verus! {

/// The MIME type that extension-based inference assigns to `path`; a pure
/// function of the path, with `text/plain` standing in for unknown extensions.
pub uninterp spec fn mime_of(path: Seq<char>) -> Seq<char>;

/// `s` is longer than its `.mp4` suffix and ends in it.
pub open spec fn is_mp4_name(s: Seq<char>) -> bool {
    s.len() > 4 && s.subrange(s.len() - 4, s.len() as int) == ".mp4"@
}

/// Relies on `mime_guess::from_path(..).first_or_text_plain()`: the result is
/// a function of the path alone, and a separator-free file name that ends in
/// `.mp4` (with a non-leading dot) has extension `mp4`, whose first mapping in
/// the crate's table is `video/mp4`.
#[verifier::external_body]
pub(crate) fn guess_mime(path: &str) -> (r: String)
    ensures
        r@ == mime_of(path@),
        valid_filename(path@) && is_mp4_name(path@) ==> r@ == "video/mp4"@,
{
    String::from(mime_guess::from_path(path).first_or_text_plain().as_ref())
}

} // verus!
