//! Session ids are 128-bit values written as hyphenated UUID text.

use vstd::prelude::*;

verus! {

/// The lower-case hexadecimal digit of a value under 16.
pub open spec fn hex_char(n: int) -> char {
    if n < 10 {
        (('0' as int) + n) as char
    } else {
        (('a' as int) + n - 10) as char
    }
}

/// The last `n` hexadecimal digits of `x`, most significant first.
pub open spec fn hex_digits(x: nat, n: nat) -> Seq<char>
    decreases n,
{
    if n == 0 {
        seq![]
    } else {
        hex_digits(x / 16, (n - 1) as nat).push(hex_char((x % 16) as int))
    }
}

/// The hyphenated text of a UUID: its 32 hexadecimal digits, most
/// significant first, in groups of 8, 4, 4, 4 and 12 joined by `-`.
pub open spec fn uuid_text(id: u128) -> Seq<char> {
    let d = hex_digits(id as nat, 32);
    d.subrange(0, 8) + seq!['-'] + d.subrange(8, 12) + seq!['-'] + d.subrange(12, 16) + seq!['-']
        + d.subrange(16, 20) + seq!['-'] + d.subrange(20, 32)
}

/// `uuid::Uuid::from_u128(id).to_string()`. Claimed: the text is
/// `uuid_text(id)`. `from_u128` reads the value big-endian and `Display`
/// writes the hyphenated lower-case form, as the uuid crate documents with
/// `a1a2a3a4-b1b2-c1c2-d1d2-d3d4d5d6d7d8` for `0xa1a2a3a4b1b2c1c2d1d2d3d4d5d6d7d8`.
#[verifier::external_body]
pub(crate) fn uuid_string(id: u128) -> (s: String)
    ensures
        s@ == uuid_text(id),
{
    uuid::Uuid::from_u128(id).to_string()
}

} // verus!
