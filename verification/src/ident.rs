//! Identifiers for new records.

use vstd::prelude::*;

verus! {

/// `c` is a digit or one of the letters `a` to `f`.
pub open spec fn is_lower_hex(c: char) -> bool {
    ('0' <= c && c <= '9') || ('a' <= c && c <= 'f')
}

/// `i` is one of the four places where a hyphen stands.
pub open spec fn is_hyphen_place(i: int) -> bool {
    i == 8 || i == 13 || i == 18 || i == 23
}

/// The text of a random (version 4) UUID: 36 characters in the groups
/// 8-4-4-4-12, lower-case hexadecimal digits between the hyphens, the version
/// digit `4` and a variant digit of `8`, `9`, `a` or `b`.
pub open spec fn is_uuid_text(s: Seq<char>) -> bool {
    &&& s.len() == 36
    &&& forall|i: int|
        0 <= i < 36 ==> if is_hyphen_place(i) {
            #[trigger] s[i] == '-'
        } else {
            is_lower_hex(s[i])
        }
    &&& s[14] == '4'
    &&& (s[19] == '8' || s[19] == '9' || s[19] == 'a' || s[19] == 'b')
}

/// Draws a fresh identifier with `uuid::Uuid::new_v4` and writes it out with
/// the `Display` of `uuid::Uuid`.
///
/// Believed, not proved: the text has the hyphenated lower-case form of a
/// version 4 UUID. Nothing is claimed about which identifier comes out.
#[verifier::external_body]
pub(crate) fn new_id() -> (id: String)
    ensures
        is_uuid_text(id@),
{
    uuid::Uuid::new_v4().to_string()
}

} // verus!
