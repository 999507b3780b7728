//! Random identifiers in the hyphenated text form of a version 4 UUID.

use uuid::Uuid;
use vstd::prelude::*;

verus! {

/// `c` is a digit or one of the letters `a` to `f`.
pub open spec fn is_lower_hex(c: char) -> bool {
    ('0' <= c && c <= '9') || ('a' <= c && c <= 'f')
}

/// `i` is one of the four places of a hyphen among the 36 characters.
pub open spec fn is_hyphen_place(i: int) -> bool {
    i == 8 || i == 13 || i == 18 || i == 23
}

/// `text` is a version 4 UUID in hyphenated lower-case form: 32 hexadecimal
/// digits in groups of 8, 4, 4, 4 and 12, the third group starting with the
/// version `4` and the fourth with one of `8`, `9`, `a`, `b`.
pub open spec fn is_uuid_v4_text(text: Seq<char>) -> bool {
    &&& text.len() == 36
    &&& forall|i: int|
        0 <= i < 36 ==> if is_hyphen_place(i) {
            #[trigger] text[i] == '-'
        } else {
            is_lower_hex(text[i])
        }
    &&& text[14] == '4'
    &&& (text[19] == '8' || text[19] == '9' || text[19] == 'a' || text[19] == 'b')
}

/// Calls `uuid::Uuid::new_v4` and renders the value with its `Display`.
///
/// Trusted: the sixteen bytes are drawn from the operating system's random
/// source with the version and variant bits set, and are written out as
/// lower-case hexadecimal digits with four hyphens. Nothing is claimed about
/// which of those texts comes back. `new_v4` panics where the random source
/// fails.
#[verifier::external_body]
pub(crate) fn random_uuid_text() -> (text: String)
    ensures
        is_uuid_v4_text(text@),
{
    Uuid::new_v4().to_string()
}

} // verus!
