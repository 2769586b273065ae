//! The few places where the library leans on code it does not verify:
//! identifier generation, mime-type guessing, the wall clock, and one
//! `String` method that vstd leaves unspecified.

use vstd::prelude::*;

verus! {

/// The mime type that the extension table assigns to a file name: a pure
/// function of the name alone, left abstract because the table is large.
pub uninterp spec fn mime_of(name: Seq<char>) -> Seq<char>;

/// Relies on `mime_guess::from_path` followed by `first_or_octet_stream`:
/// the guess is a lookup of the name's extension in a static table, with
/// `application/octet-stream` as the fallback, so it depends on the
/// characters of the name alone.
#[verifier::external_body]
pub(crate) fn guess_mime(name: &str) -> (r: String)
    ensures
        r@ == mime_of(name@),
{
    mime_guess::from_path(std::path::Path::new(name))
        .first_or_octet_stream()
        .to_string()
}

/// Relies on `uuid::Uuid::new_v4` and its `Display` form: a fresh random
/// identifier rendered as 36 hyphenated lowercase hex characters. The value
/// is random, so nothing beyond its shape is promised.
#[verifier::external_body]
pub(crate) fn fresh_id() -> (r: String)
    ensures
        r@.len() == 36,
{
    uuid::Uuid::new_v4().to_string()
}

/// Relies on `chrono::Utc::now` and `DateTime::timestamp_millis`: the
/// current wall-clock instant in milliseconds since the Unix epoch. The
/// clock decides the value, so nothing is promised of it.
#[verifier::external_body]
pub(crate) fn now_millis() -> i64 {
    chrono::Utc::now().timestamp_millis()
}

/// Relies on `String::push`: appends the given character at the end of the
/// string, per its documentation.
#[verifier::external_body]
pub(crate) fn push_char(s: &mut String, c: char)
    ensures
        final(s)@ == old(s)@.push(c),
{
    s.push(c);
}

} // verus!
