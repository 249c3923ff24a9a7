//! Fresh identifiers for users, tasks and server runs.

use vstd::prelude::*;

verus! {

/// The number of characters of an identifier: thirty-two hexadecimal digits
/// in five groups, with a hyphen between groups.
pub const IDENTIFIER_LENGTH: usize = 36;

/// Whether `c` is a hexadecimal digit in lower case.
pub open spec fn is_lower_hex(c: char) -> bool {
    ('0' as u32 <= c as u32 && c as u32 <= '9' as u32) || ('a' as u32 <= c as u32 && c as u32
        <= 'f' as u32)
}

/// Whether a hyphen stands at place `i` of an identifier.
pub open spec fn is_hyphen_place(i: int) -> bool {
    i == 8 || i == 13 || i == 18 || i == 23
}

/// Whether `text` has the form of an identifier: groups of eight, four,
/// four, four and twelve hexadecimal digits in lower case, with a hyphen
/// between groups.
pub open spec fn is_identifier(text: Seq<char>) -> bool {
    &&& text.len() == IDENTIFIER_LENGTH
    &&& forall|i: int|
        0 <= i < text.len() ==> if is_hyphen_place(i) {
            #[trigger] text[i] == '-'
        } else {
            is_lower_hex(text[i])
        }
}

/// A new random identifier, from `uuid::Uuid::new_v4` rendered by its
/// `Display`. Which identifier comes back is left open; every one is
/// rendered in the hyphenated lower-case form.
#[verifier::external_body]
pub(crate) fn random_identifier() -> (id: String)
    ensures
        is_identifier(id@),
{
    uuid::Uuid::new_v4().to_string()
}

} // verus!
