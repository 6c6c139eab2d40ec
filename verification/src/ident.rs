//! Identifiers of requests.
//!
//! Every request gets a fresh random identifier in the usual hyphenated
//! form, 36 characters long. Which one is drawn is left open; its shape is
//! not.

use vstd::prelude::*;
use vstd::string::*;
use crate::text::chars_of;

verus! {

/// A decimal digit or a lower-case letter from `a` to `f`.
pub open spec fn is_hex_digit(c: char) -> bool {
    ('0' <= c && c <= '9') || ('a' <= c && c <= 'f')
}

/// The places of the four hyphens.
pub open spec fn is_hyphen_place(i: int) -> bool {
    i == 8 || i == 13 || i == 18 || i == 23
}

/// The shape of a random identifier: five groups of 8, 4, 4, 4 and 12
/// lower-case hexadecimal digits, joined by hyphens; the third group starts
/// with `4`, the fourth with `8`, `9`, `a` or `b`.
pub open spec fn is_identifier(s: Seq<char>) -> bool {
    &&& s.len() == 36
    &&& forall|i: int|
        0 <= i < 36 ==> if is_hyphen_place(i) {
            #[trigger] s[i] == '-'
        } else {
            is_hex_digit(s[i])
        }
    &&& s[14] == '4'
    &&& (s[19] == '8' || s[19] == '9' || s[19] == 'a' || s[19] == 'b')
}

/// `Uuid::new_v4`, displayed. The sixteen bytes are random but for the
/// version and variant bits; the display writes them as lower-case
/// hexadecimal digits in hyphenated groups. The call fails only where the
/// operating system hands out no random bytes.
#[verifier::external_body]
pub(crate) fn fresh_identifier() -> (r: String)
    ensures
        is_identifier(r@),
{
    uuid::Uuid::new_v4().to_string()
}

/// Tells whether `s` has the shape of a random identifier.
pub fn has_identifier_shape(s: &str) -> (r: bool)
    ensures
        r == is_identifier(s@),
{
    let chars = chars_of(s);
    if chars.len() != 36 {
        return false;
    }
    let mut i: usize = 0;
    while i < 36
        invariant
            0 <= i <= 36,
            chars@ == s@,
            chars.len() == 36,
            forall|j: int|
                0 <= j < i ==> if is_hyphen_place(j) {
                    #[trigger] s@[j] == '-'
                } else {
                    is_hex_digit(s@[j])
                },
        decreases 36 - i,
    {
        let c = chars[i];
        let hyphen_place = i == 8 || i == 13 || i == 18 || i == 23;
        let fits = if hyphen_place {
            c == '-'
        } else {
            (c >= '0' && c <= '9') || (c >= 'a' && c <= 'f')
        };
        if !fits {
            return false;
        }
        i += 1;
    }
    let v = chars[19];
    chars[14] == '4' && (v == '8' || v == '9' || v == 'a' || v == 'b')
}

} // verus!
