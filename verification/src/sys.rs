//! The few calls the library makes outside of itself: case folding, UTF-8
//! decoding, and two environment queries.  Each stands behind a single
//! trusted wrapper; everything that follows from their results is verified.

use vstd::prelude::*;

verus! {

/// The lowercase form of a sequence of characters, as `str::to_lowercase`
/// computes it.  It depends on the characters alone.
pub uninterp spec fn lower_of(s: Seq<char>) -> Seq<char>;

/// Relies on `str::to_lowercase`: the result depends on the characters alone.
#[verifier::external_body]
pub(crate) fn lowercase(s: &str) -> (r: String)
    ensures
        r@ == lower_of(s@),
{
    s.to_lowercase()
}

/// The text that a byte sequence decodes to as UTF-8, or `None` where the
/// bytes are not valid UTF-8.  It depends on the bytes alone.
pub uninterp spec fn utf8_of(bytes: Seq<u8>) -> Option<Seq<char>>;

/// Relies on `String::from_utf8`: it succeeds exactly on valid UTF-8, and
/// the decoded characters depend on the bytes alone.
#[verifier::external_body]
pub(crate) fn decode_utf8(bytes: Vec<u8>) -> (r: Option<String>)
    ensures
        r is Some <==> utf8_of(bytes@) is Some,
        r matches Some(s) ==> utf8_of(bytes@) == Some(s@),
{
    String::from_utf8(bytes).ok()
}

/// Relies on `std::path::Path::is_dir`: whether the path names an existing
/// directory at the moment of the call.  The answer depends on the state of
/// the file system, so nothing is promised of it.
#[verifier::external_body]
pub(crate) fn path_is_dir(path: &str) -> bool {
    std::path::Path::new(path).is_dir()
}

/// Relies on `dirs::home_dir`: the current user's home directory, if the
/// platform reports one whose path is valid Unicode.  The answer depends on
/// the environment, so nothing is promised of it.
#[verifier::external_body]
pub(crate) fn home_dir_string() -> Option<String> {
    dirs::home_dir().and_then(|p| p.to_str().map(|s| s.to_string()))
}

} // verus!
