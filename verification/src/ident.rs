use vstd::prelude::*;

use crate::json::digit_char;

verus! {

/// The character for one hexadecimal digit, in lower case.
pub open spec fn hex_char(digit: nat) -> char
    recommends
        digit < 16,
{
    if digit < 10 {
        digit_char(digit)
    } else if digit == 10 {
        'a'
    } else if digit == 11 {
        'b'
    } else if digit == 12 {
        'c'
    } else if digit == 13 {
        'd'
    } else if digit == 14 {
        'e'
    } else {
        'f'
    }
}

/// The last `width` hexadecimal digits of `value`, the most significant first.
pub open spec fn hex_digits(value: nat, width: nat) -> Seq<char>
    decreases width,
{
    if width == 0 {
        Seq::empty()
    } else {
        hex_digits(value / 16, (width - 1) as nat).push(hex_char(value % 16))
    }
}

/// The text form of the UUID whose 128 bits are `id`: its 32 hexadecimal digits in lower
/// case, the most significant first, in groups of 8, 4, 4, 4 and 12 with hyphens between
/// them.
pub open spec fn uuid_text(id: u128) -> Seq<char> {
    hex_digits(id as nat / 0x1_0000_0000_0000_0000_0000_0000, 8) + seq!['-'] + hex_digits(
        id as nat / 0x1_0000_0000_0000_0000_0000,
        4,
    ) + seq!['-'] + hex_digits(id as nat / 0x1_0000_0000_0000_0000, 4) + seq!['-'] + hex_digits(
        id as nat / 0x1_0000_0000_0000,
        4,
    ) + seq!['-'] + hex_digits(id as nat, 12)
}

/// `uuid::Uuid::from_u128`, then the UUID's `Display`. The contract claims that the text is
/// the hyphenated lower case form of the 128 bits, as `uuid_text` states it.
#[verifier::external_body]
pub(crate) fn write_uuid(id: u128) -> (text: String)
    ensures
        text@ == uuid_text(id),
{
    uuid::Uuid::from_u128(id).to_string()
}

} // verus!
