//! Identifiers: 128-bit values in the shape of a version 4 UUID, and the
//! hyphenated text that stands for one.

use crate::text::digit_char;
use argon2::password_hash::rand_core::{OsRng, RngCore};
use uuid::{Builder, Uuid};
use vstd::prelude::*;

verus! {

/// Sixteen to the power `n`.
pub open spec fn pow16(n: nat) -> nat
    decreases n,
{
    if n == 0 {
        1
    } else {
        16 * pow16((n - 1) as nat)
    }
}

/// The hexadecimal digit of a 128-bit value at place `k`, where place 0 is
/// the most significant of the 32.
pub open spec fn hex_digit_at(value: u128, k: int) -> nat {
    (value as nat / pow16((31 - k) as nat)) % 16
}

/// How many hyphens stand before position `i` of a hyphenated identifier.
pub open spec fn hyphens_before(i: int) -> int {
    if i < 8 {
        0
    } else if i < 13 {
        1
    } else if i < 18 {
        2
    } else if i < 23 {
        3
    } else {
        4
    }
}

/// The hyphenated text of an identifier: its 32 lowercase hexadecimal digits
/// in groups of 8, 4, 4, 4 and 12.
pub open spec fn uuid_text(id: u128) -> Seq<char> {
    Seq::new(
        36,
        |i: int|
            if i == 8 || i == 13 || i == 18 || i == 23 {
                '-'
            } else {
                digit_char(hex_digit_at(id, i - hyphens_before(i)))
            },
    )
}

/// Whether a value has the marks of a random (version 4) UUID: the digit 4
/// at place 12, and one of 8, 9, a and b at place 16.
pub open spec fn version_four(id: u128) -> bool {
    hex_digit_at(id, 12) == 4 && 8 <= hex_digit_at(id, 16) < 12
}

/// What `Uuid::parse_str` reads from a text: the identifier's value, or
/// `None` where the text is in none of the forms it accepts.
pub uninterp spec fn parsed_uuid(text: Seq<char>) -> Option<u128>;

/// Draws sixteen bytes from the system with `OsRng`'s `try_fill_bytes` and
/// stamps them as a version 4 UUID with `Builder::from_random_bytes`, which
/// sets the version and variant marks. `None` where the system gives no
/// random bytes. Nothing else is claimed of the value.
#[verifier::external_body]
pub(crate) fn random_uuid() -> (r: Option<u128>)
    ensures
        r matches Some(id) ==> version_four(id),
{
    let mut bytes = [0u8; 16];
    OsRng.try_fill_bytes(&mut bytes).ok()?;
    Some(Builder::from_random_bytes(bytes).into_uuid().as_u128())
}

/// Writes the identifier as `Uuid`'s `Display` does, through
/// `Uuid::from_u128`: lowercase, hyphenated.
#[verifier::external_body]
pub(crate) fn uuid_hyphenated(id: u128) -> (r: String)
    ensures
        r@ == uuid_text(id),
{
    Uuid::from_u128(id).to_string()
}

/// Reads an identifier with `Uuid::parse_str` and takes its value with
/// `as_u128`.
#[verifier::external_body]
pub(crate) fn uuid_value(text: &str) -> (r: Option<u128>)
    ensures
        r == parsed_uuid(text@),
{
    Some(Uuid::parse_str(text).ok()?.as_u128())
}

} // verus!
