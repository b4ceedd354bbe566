//! Bit-level model of the standard 128-bit identifier layout.
//!
//! An identifier value is modelled as a `u128` holding the sixteen bytes of
//! the identifier in big-endian order. The layout embeds a 4-bit version
//! field (the high nibble of the seventh byte) recording which generation
//! scheme produced the value, and a variant field in the high bits of the
//! ninth byte.

use vstd::prelude::*;

verus! {

/// The 4-bit version field embedded in the standard 128-bit identifier
/// layout: the high nibble of the seventh byte in big-endian order.
pub open spec fn version_nibble(bits: u128) -> u128 {
    (bits >> 76) & 0xF
}

/// The version field is a nibble: it always fits in four bits.
pub proof fn lemma_version_nibble_bounded(bits: u128)
    by (bit_vector)
    ensures
        version_nibble(bits) < 16,
{
}

/// The big-endian byte sequence of a 128-bit identifier value.
pub open spec fn bytes_of_bits(bits: u128) -> Seq<u8> {
    seq![
        ((bits >> 120) & 0xFF) as u8,
        ((bits >> 112) & 0xFF) as u8,
        ((bits >> 104) & 0xFF) as u8,
        ((bits >> 96) & 0xFF) as u8,
        ((bits >> 88) & 0xFF) as u8,
        ((bits >> 80) & 0xFF) as u8,
        ((bits >> 72) & 0xFF) as u8,
        ((bits >> 64) & 0xFF) as u8,
        ((bits >> 56) & 0xFF) as u8,
        ((bits >> 48) & 0xFF) as u8,
        ((bits >> 40) & 0xFF) as u8,
        ((bits >> 32) & 0xFF) as u8,
        ((bits >> 24) & 0xFF) as u8,
        ((bits >> 16) & 0xFF) as u8,
        ((bits >> 8) & 0xFF) as u8,
        (bits & 0xFF) as u8,
    ]
}

/// The 128-bit value held by a sequence of sixteen bytes in big-endian
/// order.
pub open spec fn bits_of_bytes(s: Seq<u8>) -> u128
    recommends
        s.len() == 16,
{
    ((s[0] as u128) << 120) | ((s[1] as u128) << 112) | ((s[2] as u128) << 104)
        | ((s[3] as u128) << 96) | ((s[4] as u128) << 88) | ((s[5] as u128) << 80)
        | ((s[6] as u128) << 72) | ((s[7] as u128) << 64) | ((s[8] as u128) << 56)
        | ((s[9] as u128) << 48) | ((s[10] as u128) << 40) | ((s[11] as u128) << 32)
        | ((s[12] as u128) << 24) | ((s[13] as u128) << 16) | ((s[14] as u128) << 8)
        | (s[15] as u128)
}

proof fn lemma_reassemble(
    bits: u128,
    b0: u8, b1: u8, b2: u8, b3: u8, b4: u8, b5: u8, b6: u8, b7: u8,
    b8: u8, b9: u8, b10: u8, b11: u8, b12: u8, b13: u8, b14: u8, b15: u8,
)
    by (bit_vector)
    requires
        b0 == ((bits >> 120) & 0xFF) as u8,
        b1 == ((bits >> 112) & 0xFF) as u8,
        b2 == ((bits >> 104) & 0xFF) as u8,
        b3 == ((bits >> 96) & 0xFF) as u8,
        b4 == ((bits >> 88) & 0xFF) as u8,
        b5 == ((bits >> 80) & 0xFF) as u8,
        b6 == ((bits >> 72) & 0xFF) as u8,
        b7 == ((bits >> 64) & 0xFF) as u8,
        b8 == ((bits >> 56) & 0xFF) as u8,
        b9 == ((bits >> 48) & 0xFF) as u8,
        b10 == ((bits >> 40) & 0xFF) as u8,
        b11 == ((bits >> 32) & 0xFF) as u8,
        b12 == ((bits >> 24) & 0xFF) as u8,
        b13 == ((bits >> 16) & 0xFF) as u8,
        b14 == ((bits >> 8) & 0xFF) as u8,
        b15 == (bits & 0xFF) as u8,
    ensures
        ((b0 as u128) << 120) | ((b1 as u128) << 112) | ((b2 as u128) << 104)
            | ((b3 as u128) << 96) | ((b4 as u128) << 88) | ((b5 as u128) << 80)
            | ((b6 as u128) << 72) | ((b7 as u128) << 64) | ((b8 as u128) << 56)
            | ((b9 as u128) << 48) | ((b10 as u128) << 40) | ((b11 as u128) << 32)
            | ((b12 as u128) << 24) | ((b13 as u128) << 16) | ((b14 as u128) << 8)
            | (b15 as u128) == bits,
{
}

/// Taking the big-endian bytes of a value and reading them back as a
/// big-endian number reproduces the value exactly.
pub proof fn lemma_bytes_round_trip(bits: u128)
    ensures
        bits_of_bytes(bytes_of_bits(bits)) == bits,
{
    let s = bytes_of_bits(bits);
    lemma_reassemble(
        bits,
        s[0], s[1], s[2], s[3], s[4], s[5], s[6], s[7],
        s[8], s[9], s[10], s[11], s[12], s[13], s[14], s[15],
    );
}

proof fn lemma_disassemble(
    b0: u8, b1: u8, b2: u8, b3: u8, b4: u8, b5: u8, b6: u8, b7: u8,
    b8: u8, b9: u8, b10: u8, b11: u8, b12: u8, b13: u8, b14: u8, b15: u8,
    c0: u8, c1: u8, c2: u8, c3: u8, c4: u8, c5: u8, c6: u8, c7: u8,
    c8: u8, c9: u8, c10: u8, c11: u8, c12: u8, c13: u8, c14: u8, c15: u8,
)
    by (bit_vector)
    requires
        ((b0 as u128) << 120) | ((b1 as u128) << 112) | ((b2 as u128) << 104)
            | ((b3 as u128) << 96) | ((b4 as u128) << 88) | ((b5 as u128) << 80)
            | ((b6 as u128) << 72) | ((b7 as u128) << 64) | ((b8 as u128) << 56)
            | ((b9 as u128) << 48) | ((b10 as u128) << 40) | ((b11 as u128) << 32)
            | ((b12 as u128) << 24) | ((b13 as u128) << 16) | ((b14 as u128) << 8)
            | (b15 as u128)
            == ((c0 as u128) << 120) | ((c1 as u128) << 112) | ((c2 as u128) << 104)
            | ((c3 as u128) << 96) | ((c4 as u128) << 88) | ((c5 as u128) << 80)
            | ((c6 as u128) << 72) | ((c7 as u128) << 64) | ((c8 as u128) << 56)
            | ((c9 as u128) << 48) | ((c10 as u128) << 40) | ((c11 as u128) << 32)
            | ((c12 as u128) << 24) | ((c13 as u128) << 16) | ((c14 as u128) << 8)
            | (c15 as u128),
    ensures
        b0 == c0 && b1 == c1 && b2 == c2 && b3 == c3 && b4 == c4 && b5 == c5
            && b6 == c6 && b7 == c7 && b8 == c8 && b9 == c9 && b10 == c10
            && b11 == c11 && b12 == c12 && b13 == c13 && b14 == c14 && b15 == c15,
{
}

/// Reading sixteen bytes as a big-endian number loses nothing: two byte
/// sequences holding the same value are the same sequence. Together with
/// [`lemma_bytes_round_trip`] this pins the byte form of a value uniquely.
pub proof fn lemma_bits_of_bytes_injective(s: Seq<u8>, t: Seq<u8>)
    requires
        s.len() == 16,
        t.len() == 16,
        bits_of_bytes(s) == bits_of_bytes(t),
    ensures
        s == t,
{
    lemma_disassemble(
        s[0], s[1], s[2], s[3], s[4], s[5], s[6], s[7],
        s[8], s[9], s[10], s[11], s[12], s[13], s[14], s[15],
        t[0], t[1], t[2], t[3], t[4], t[5], t[6], t[7],
        t[8], t[9], t[10], t[11], t[12], t[13], t[14], t[15],
    );
    assert(s =~= t);
}

/// The variant field of the standard 128-bit identifier layout: the top
/// two bits of the ninth byte in big-endian order. Every scheme of this
/// library produces values with the standard `10` pattern, value 2.
pub open spec fn variant_bits(bits: u128) -> u128 {
    (bits >> 62) & 0x3
}

/// The node-identifier field of the time-based layouts: the low 48 bits of
/// the value, holding the six node bytes in order.
pub open spec fn node_field(bits: u128) -> u128 {
    bits & 0xFFFF_FFFF_FFFF
}

/// The 48-bit value held by a six-byte node identifier in big-endian order.
pub open spec fn node_bits(node: Seq<u8>) -> u128
    recommends
        node.len() == 6,
{
    ((node[0] as u128) << 40) | ((node[1] as u128) << 32) | ((node[2] as u128) << 24)
        | ((node[3] as u128) << 16) | ((node[4] as u128) << 8) | (node[5] as u128)
}

/// The version-and-variant stamping performed by the custom (v8) scheme:
/// the version nibble is overwritten with 8 and the variant field with the
/// standard layout's `10` bit pattern; every other bit is kept.
pub open spec fn stamp_v8(bits: u128) -> u128 {
    (bits & 0xFFFF_FFFF_FFFF_0FFF_3FFF_FFFF_FFFF_FFFF)
        | 0x0000_0000_0000_8000_8000_0000_0000_0000
}

/// A stamped custom value always carries version number 8 and the standard
/// variant.
pub proof fn lemma_stamp_v8_version(bits: u128)
    by (bit_vector)
    ensures
        version_nibble(stamp_v8(bits)) == 8,
        variant_bits(stamp_v8(bits)) == 2,
{
}

} // verus!
