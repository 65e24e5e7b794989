//! Identifier generation.

use vstd::prelude::*;

verus! {

/// `uuid::Uuid::new_v4` shown with `to_string`: the claim is that the text is
/// a hyphenated lower-case UUID (36 characters, `-` at positions 8, 13, 18
/// and 23, lower-case hex digits elsewhere) of version 4 (`4` at position 14)
/// and of the RFC 4122 variant (`8`, `9`, `a` or `b` at position 19). The
/// value itself is random.
#[verifier::external_body]
fn new_v4_text() -> (res: String)
    ensures
        is_uuid_v4_text(res@),
{
    uuid::Uuid::new_v4().to_string()
}

/// Whether a character is a lower-case hexadecimal digit.
pub open spec fn is_lower_hex_digit(c: char) -> bool {
    ('0' <= c <= '9') || ('a' <= c <= 'f')
}

/// Whether a text has the shape of a hyphenated lower-case version-4 UUID of
/// the RFC 4122 variant.
pub open spec fn is_uuid_v4_text(s: Seq<char>) -> bool {
    &&& s.len() == 36
    &&& s[8] == '-' && s[13] == '-' && s[18] == '-' && s[23] == '-'
    &&& forall|i: int|
        0 <= i < 36 && i != 8 && i != 13 && i != 18 && i != 23 ==> is_lower_hex_digit(#[trigger] s[i])
    &&& s[14] == '4'
    &&& s[19] == '8' || s[19] == '9' || s[19] == 'a' || s[19] == 'b'
}

/// A fresh random UUID (version 4) in hyphenated form.
pub fn generate_uuid() -> (res: String)
    ensures
        is_uuid_v4_text(res@),
{
    new_v4_text()
}

} // verus!
