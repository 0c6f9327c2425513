//! What every new record gets from outside: an identifier drawn at random
//! and the time of its creation.

use vstd::prelude::*;

verus! {

/// A digit of lower-case hexadecimal.
pub open spec fn is_lower_hex(c: char) -> bool {
    ('0' <= c && c <= '9') || ('a' <= c && c <= 'f')
}

/// The shape of a random (version 4) UUID written in lower case with
/// hyphens: 36 characters in groups of 8, 4, 4, 4 and 12 hexadecimal
/// digits, the third group starting with the version and the fourth with
/// the variant.
pub open spec fn is_random_id(text: Seq<char>) -> bool {
    &&& text.len() == 36
    &&& forall|i: int|
        0 <= i < 36 ==> if i == 8 || i == 13 || i == 18 || i == 23 {
            text[i] == '-'
        } else {
            is_lower_hex(#[trigger] text[i])
        }
    &&& text[14] == '4'
    &&& (text[19] == '8' || text[19] == '9' || text[19] == 'a' || text[19] == 'b')
}

/// Calls `uuid::Uuid::new_v4` and writes the result with `to_string`. The
/// identifier is drawn at random, so only its shape is claimed: uuid sets
/// the version and variant bits of every such value and prints it in lower
/// case with hyphens.
#[verifier::external_body]
pub(crate) fn fresh_id() -> (id: String)
    ensures
        is_random_id(id@),
{
    uuid::Uuid::new_v4().to_string()
}

/// Calls `chrono::Utc::now` and writes the result with `to_rfc3339`. The
/// text depends on the clock, so nothing is claimed of it.
#[verifier::external_body]
pub(crate) fn current_timestamp() -> (now: String) {
    chrono::Utc::now().to_rfc3339()
}

} // verus!
