//! Session ids: random UUIDs in their usual text form.

use vstd::prelude::*;

verus! {

/// `c` is one of `0`..`9`, `a`..`f`.
pub open spec fn is_lower_hex(c: char) -> bool {
    ('0' <= c && c <= '9') || ('a' <= c && c <= 'f')
}

/// The places of the four hyphens in a UUID's text.
pub open spec fn is_hyphen_position(i: int) -> bool {
    i == 8 || i == 13 || i == 18 || i == 23
}

/// `s` has the shape of a version 4 UUID written in lower case with hyphens:
/// 36 characters, hyphens after the 8th, 12th, 16th and 20th hex digit, the
/// version digit `4`.
pub open spec fn is_uuid_text(s: Seq<char>) -> bool {
    &&& s.len() == 36
    &&& forall|i: int|
        0 <= i < 36 ==> if is_hyphen_position(i) {
            s[i] == '-'
        } else {
            is_lower_hex(#[trigger] s[i])
        }
    &&& s[14] == '4'
}

/// Draws a random session id: `uuid::Uuid::new_v4`, written out by the `Display`
/// of `Uuid`. Trusted: the text is in the hyphenated lower-case form, and the
/// version digit is `4`. Which id comes is left open; two calls may even give
/// the same. (The generator panics where the operating system gives it no
/// random bytes.)
#[verifier::external_body]
pub(crate) fn new_v4_text() -> (id: String)
    ensures
        is_uuid_text(id@),
{
    uuid::Uuid::new_v4().to_string()
}

} // verus!
