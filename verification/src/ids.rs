//! Record identifiers: 128-bit UUID values and their text forms.

use vstd::prelude::*;
use crate::text::digit_char;

verus! {

/// The lowercase hexadecimal digit for `d` (`0 <= d < 16`).
pub open spec fn hex_digit(d: int) -> char {
    if d < 10 { digit_char(d) }
    else if d == 10 { 'a' }
    else if d == 11 { 'b' }
    else if d == 12 { 'c' }
    else if d == 13 { 'd' }
    else if d == 14 { 'e' }
    else { 'f' }
}

/// The `k`-th hexadecimal digit of an identifier, counted from the most
/// significant one (`0 <= k < 32`).
pub open spec fn nibble(id: u128, k: int) -> int {
    (id as int / vstd::arithmetic::power::pow(16, (31 - k) as nat)) % 16
}

/// The "simple" text of a UUID: its 32 lowercase hex digits, most significant first.
pub open spec fn uuid_simple_text(id: u128) -> Seq<char> {
    Seq::new(32, |k: int| hex_digit(nibble(id, k)))
}

/// The hyphenated text of a UUID: `xxxxxxxx-xxxx-xxxx-xxxx-xxxxxxxxxxxx`.
pub open spec fn uuid_hyphenated_text(id: u128) -> Seq<char> {
    let s = uuid_simple_text(id);
    s.subrange(0, 8) + seq!['-'] + s.subrange(8, 12) + seq!['-'] + s.subrange(12, 16)
        + seq!['-'] + s.subrange(16, 20) + seq!['-'] + s.subrange(20, 32)
}

/// `uuid::Uuid::simple`: the identifier as 32 lowercase hex digits, most
/// significant first (the crate builds the value big-endian from the `u128`).
#[verifier::external_body]
pub(crate) fn uuid_simple_string(id: u128) -> (s: String)
    ensures
        s@ == uuid_simple_text(id),
{
    uuid::Uuid::from_u128(id).simple().to_string()
}

/// `uuid::Uuid`'s `Display`: the lowercase hyphenated form.
#[verifier::external_body]
pub(crate) fn uuid_hyphenated_string(id: u128) -> (s: String)
    ensures
        s@ == uuid_hyphenated_text(id),
{
    uuid::Uuid::from_u128(id).hyphenated().to_string()
}

/// `uuid::Uuid::new_v4`: a fresh random identifier. Nothing is promised of
/// its value: it comes from the operating system's random source.
#[verifier::external_body]
pub(crate) fn new_random_id() -> (id: u128) {
    uuid::Uuid::new_v4().as_u128()
}

} // verus!
