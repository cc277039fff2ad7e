//! UUIDs as 128-bit integers, with the text forms the `uuid` crate reads and writes.

use vstd::prelude::*;
use vstd::arithmetic::power::pow;

verus! {

/// The lowercase hexadecimal digit of a value below 16.
pub open spec fn hex_digit(d: int) -> char {
    if d < 10 {
        (('0' as int) + d) as char
    } else {
        (('a' as int) + d - 10) as char
    }
}

/// The `k`-th of the 32 hexadecimal digits of `id`, counted from the most significant one.
pub open spec fn uuid_nibble(id: u128, k: int) -> int {
    (id as int / pow(16, (31 - k) as nat)) % 16
}

/// Which hexadecimal digit stands at position `i` of the hyphenated text.
pub open spec fn text_digit_index(i: int) -> int {
    if i < 8 {
        i
    } else if i < 13 {
        i - 1
    } else if i < 18 {
        i - 2
    } else if i < 23 {
        i - 3
    } else {
        i - 4
    }
}

/// The hyphenated lowercase form `xxxxxxxx-xxxx-xxxx-xxxx-xxxxxxxxxxxx` of a UUID,
/// which is what `uuid::Uuid` prints through `Display`.
pub open spec fn uuid_text(id: u128) -> Seq<char> {
    Seq::new(
        36,
        |i: int|
            if i == 8 || i == 13 || i == 18 || i == 23 {
                '-'
            } else {
                hex_digit(uuid_nibble(id, text_digit_index(i)))
            },
    )
}

/// What `uuid::Uuid::parse_str` gives for a text, as the UUID's 128-bit value.
pub uninterp spec fn spec_uuid_parse(text: Seq<char>) -> Option<u128>;

/// Calls `uuid::Uuid::parse_str`. The accepted forms (simple, hyphenated, braced,
/// URN, with either case of hex digits) are not written out: the result is the
/// named function `spec_uuid_parse` of the text. What is claimed besides the name
/// is that the hyphenated form of a UUID reads back as that UUID.
#[verifier::external_body]
pub(crate) fn parse_uuid(text: &str) -> (r: Option<u128>)
    ensures
        r == spec_uuid_parse(text@),
        forall|id: u128| text@ == uuid_text(id) ==> r == Some(id),
{
    match uuid::Uuid::parse_str(text) {
        Ok(u) => Some(u.as_u128()),
        Err(_) => None,
    }
}

/// Calls `Display` of `uuid::Uuid` (through `to_string`). Claimed: the text is the
/// hyphenated lowercase form of the value, and `uuid::Uuid::parse_str` reads it back.
#[verifier::external_body]
pub(crate) fn uuid_to_string(id: u128) -> (r: String)
    ensures
        r@ == uuid_text(id),
        spec_uuid_parse(r@) == Some(id),
{
    uuid::Uuid::from_u128(id).to_string()
}

/// Calls `uuid::Uuid::new_v4`, a random UUID. Nothing is claimed of its value.
#[verifier::external_body]
pub(crate) fn new_uuid() -> (r: u128) {
    uuid::Uuid::new_v4().as_u128()
}

} // verus!
