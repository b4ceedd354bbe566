//! The canonical textual form of an identifier value.
//!
//! The standard rendering is the hyphenated form: thirty-two lowercase
//! hexadecimal digits of the value in big-endian order, with hyphens after
//! the eighth, twelfth, sixteenth and twentieth digit.

use crate::id::Id;
use vstd::prelude::*;

verus! {

/// The sixteen lowercase hexadecimal digit characters, in value order.
pub open spec fn hex_digits() -> Seq<char> {
    seq!['0', '1', '2', '3', '4', '5', '6', '7', '8', '9', 'a', 'b', 'c', 'd', 'e', 'f']
}

/// The canonical hyphenated textual form of a 128-bit identifier value.
pub open spec fn hyphenated_of(bits: u128) -> Seq<char> {
    seq![
        hex_digits()[((bits >> 124) & 0xF) as int],
        hex_digits()[((bits >> 120) & 0xF) as int],
        hex_digits()[((bits >> 116) & 0xF) as int],
        hex_digits()[((bits >> 112) & 0xF) as int],
        hex_digits()[((bits >> 108) & 0xF) as int],
        hex_digits()[((bits >> 104) & 0xF) as int],
        hex_digits()[((bits >> 100) & 0xF) as int],
        hex_digits()[((bits >> 96) & 0xF) as int],
        '-',
        hex_digits()[((bits >> 92) & 0xF) as int],
        hex_digits()[((bits >> 88) & 0xF) as int],
        hex_digits()[((bits >> 84) & 0xF) as int],
        hex_digits()[((bits >> 80) & 0xF) as int],
        '-',
        hex_digits()[((bits >> 76) & 0xF) as int],
        hex_digits()[((bits >> 72) & 0xF) as int],
        hex_digits()[((bits >> 68) & 0xF) as int],
        hex_digits()[((bits >> 64) & 0xF) as int],
        '-',
        hex_digits()[((bits >> 60) & 0xF) as int],
        hex_digits()[((bits >> 56) & 0xF) as int],
        hex_digits()[((bits >> 52) & 0xF) as int],
        hex_digits()[((bits >> 48) & 0xF) as int],
        '-',
        hex_digits()[((bits >> 44) & 0xF) as int],
        hex_digits()[((bits >> 40) & 0xF) as int],
        hex_digits()[((bits >> 36) & 0xF) as int],
        hex_digits()[((bits >> 32) & 0xF) as int],
        hex_digits()[((bits >> 28) & 0xF) as int],
        hex_digits()[((bits >> 24) & 0xF) as int],
        hex_digits()[((bits >> 20) & 0xF) as int],
        hex_digits()[((bits >> 16) & 0xF) as int],
        hex_digits()[((bits >> 12) & 0xF) as int],
        hex_digits()[((bits >> 8) & 0xF) as int],
        hex_digits()[((bits >> 4) & 0xF) as int],
        hex_digits()[(bits & 0xF) as int],
    ]
}

/// Relies on the `uuid` crate's `Display` rendering of `uuid::Uuid`: the
/// hyphenated form, thirty-two lowercase hexadecimal digits of the value in
/// big-endian order with hyphens after the eighth, twelfth, sixteenth and
/// twentieth, and on `uuid::Uuid::from_u128` for the conversion in.
#[verifier::external_body]
fn render_hyphenated(bits: u128) -> (r: String)
    ensures
        r@ == hyphenated_of(bits),
{
    format!("{}", uuid::Uuid::from_u128(bits))
}

impl<T, Version> Id<T, Version> {
    /// The canonical hyphenated textual form of the underlying value. The
    /// phantom subject and scheme contribute nothing to it.
    pub fn to_hyphenated_string(&self) -> (r: String)
        ensures
            r@ == hyphenated_of(self@),
            r@.len() == 36,
    {
        render_hyphenated(self.as_u128())
    }
}

} // verus!
