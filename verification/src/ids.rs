//! Where the broker's identifiers come from.

use vstd::prelude::*;

verus! {

/// Whether `c` is a digit or one of the letters `a` to `f`.
pub open spec fn is_lower_hex(c: char) -> bool {
    ('0' <= c && c <= '9') || ('a' <= c && c <= 'f')
}

/// The shape of a random identifier: 32 lower-case hexadecimal digits, of
/// which the thirteenth is `4` and the seventeenth one of `8`, `9`, `a`, `b`.
pub open spec fn is_random_id(text: Seq<char>) -> bool {
    &&& text.len() == 32
    &&& forall|i: int| 0 <= i < 32 ==> is_lower_hex(#[trigger] text[i])
    &&& text[12] == '4'
    &&& (text[16] == '8' || text[16] == '9' || text[16] == 'a' || text[16] == 'b')
}

/// Calls `uuid::Uuid::new_v4` and writes the result with `Uuid::simple`,
/// which gives the 32 hexadecimal digits of a version 4 (random) UUID in
/// lower case, without hyphens. Which digits come is left open, but for the
/// two places that hold the version and the variant.
#[verifier::external_body]
pub(crate) fn random_id() -> (text: String)
    ensures
        is_random_id(text@),
{
    uuid::Uuid::new_v4().simple().to_string()
}

} // verus!
