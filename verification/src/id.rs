//! The typed identifier wrapper and its error type.

use crate::bits::bits_of_bytes;
use crate::bits::bytes_of_bits;
use crate::bits::lemma_bytes_round_trip;
use crate::bits::lemma_version_nibble_bounded;
use crate::bits::version_nibble;
use core::marker::PhantomData;
use vstd::prelude::*;

verus! {

/// Errors which might occur when using [`Id`].
#[derive(Debug, Clone, Copy, PartialEq, Eq, Structural)]
pub enum Error {
    /// Attempted to coerce an untyped identifier into an [`Id`] whose scheme
    /// declares a different version number than the one embedded in the
    /// value.
    WrongVersion {
        /// The version number declared by the scheme parameter of the [`Id`].
        expected: usize,
        /// The version number embedded in the untyped value.
        actual: usize,
    },
}

/// Typed wrapper around a 128-bit identifier value.
///
/// `T` names the kind of entity the identifier stands for and `Version` the
/// generation scheme that produced it. Both are phantom parameters: they
/// occupy no space at runtime and only keep identifiers of different kinds
/// or schemes apart in the type system.
#[derive(Debug, Hash)]
pub struct Id<T, Version> {
    bits: u128,
    marker: PhantomData<(T, Version)>,
}

impl<T, Version> View for Id<T, Version> {
    type V = u128;

    closed spec fn view(&self) -> u128 {
        self.bits
    }
}

impl<T, Version> Clone for Id<T, Version> {
    fn clone(&self) -> (r: Self)
        ensures
            r@ == self@,
    {
        Id { bits: self.bits, marker: PhantomData }
    }
}

impl<T, Version> Copy for Id<T, Version> {

}

impl<T, Version> PartialEq for Id<T, Version> {
    fn eq(&self, other: &Self) -> (r: bool)
        ensures
            r == (self@ == other@),
    {
        self.bits == other.bits
    }
}

impl<T, Version> vstd::std_specs::cmp::PartialEqSpecImpl for Id<T, Version> {
    open spec fn obeys_eq_spec() -> bool {
        true
    }

    open spec fn eq_spec(&self, other: &Self) -> bool {
        self@ == other@
    }
}

impl<T, Version> Eq for Id<T, Version> {

}

impl<T, Version> PartialEq<u128> for Id<T, Version> {
    fn eq(&self, other: &u128) -> (r: bool)
        ensures
            r == (self@ == other),
    {
        self.bits == *other
    }
}

impl<T, Version> vstd::std_specs::cmp::PartialEqSpecImpl<u128> for Id<T, Version> {
    open spec fn obeys_eq_spec() -> bool {
        true
    }

    open spec fn eq_spec(&self, other: &u128) -> bool {
        self@ == other
    }
}

impl<T, Version> PartialOrd for Id<T, Version> {
    fn partial_cmp(&self, other: &Self) -> (r: Option<core::cmp::Ordering>)
        ensures
            r == Some(spec_order(self@, other@)),
    {
        if self.bits < other.bits {
            Some(core::cmp::Ordering::Less)
        } else if self.bits == other.bits {
            Some(core::cmp::Ordering::Equal)
        } else {
            Some(core::cmp::Ordering::Greater)
        }
    }
}

impl<T, Version> vstd::std_specs::cmp::PartialOrdSpecImpl for Id<T, Version> {
    open spec fn obeys_partial_cmp_spec() -> bool {
        true
    }

    open spec fn partial_cmp_spec(&self, other: &Self) -> Option<core::cmp::Ordering> {
        Some(spec_order(self@, other@))
    }
}

/// How two identifier values compare: by their underlying bits alone.
pub open spec fn spec_order(a: u128, b: u128) -> core::cmp::Ordering {
    if a < b {
        core::cmp::Ordering::Less
    } else if a == b {
        core::cmp::Ordering::Equal
    } else {
        core::cmp::Ordering::Greater
    }
}

impl<T, Version> Id<T, Version> {
    /// Wrap raw identifier bits without validating the embedded version
    /// number against the scheme parameter.
    ///
    /// This is the deserialization path: a value received in its raw form is
    /// trusted to match the declared scheme. Use the scheme's
    /// `from_generic_uuid` to have the version number checked instead.
    pub fn from_u128(bits: u128) -> (r: Self)
        ensures
            r@ == bits,
    {
        Id { bits, marker: PhantomData }
    }

    /// The underlying 128-bit identifier value.
    pub fn as_u128(&self) -> (r: u128)
        ensures
            r == self@,
    {
        self.bits
    }

    /// Wrap the big-endian byte form of an identifier without validating the
    /// embedded version number, as [`Id::from_u128`] does for the integer
    /// form.
    pub fn from_bytes(buf: &[u8; 16]) -> (r: Self)
        ensures
            r@ == bits_of_bytes(buf@),
    {
        Id { bits: assemble_bits(buf), marker: PhantomData }
    }

    /// The underlying identifier value as sixteen bytes in big-endian order.
    pub fn to_bytes(&self) -> (r: [u8; 16])
        ensures
            r@ == bytes_of_bits(self@),
            bits_of_bytes(r@) == self@,
    {
        proof {
            lemma_bytes_round_trip(self.bits);
        }
        let b = self.bits;
        let r: [u8; 16] = [
            ((b >> 120) & 0xFF) as u8,
            ((b >> 112) & 0xFF) as u8,
            ((b >> 104) & 0xFF) as u8,
            ((b >> 96) & 0xFF) as u8,
            ((b >> 88) & 0xFF) as u8,
            ((b >> 80) & 0xFF) as u8,
            ((b >> 72) & 0xFF) as u8,
            ((b >> 64) & 0xFF) as u8,
            ((b >> 56) & 0xFF) as u8,
            ((b >> 48) & 0xFF) as u8,
            ((b >> 40) & 0xFF) as u8,
            ((b >> 32) & 0xFF) as u8,
            ((b >> 24) & 0xFF) as u8,
            ((b >> 16) & 0xFF) as u8,
            ((b >> 8) & 0xFF) as u8,
            (b & 0xFF) as u8,
        ];
        proof {
            assert(r@ =~= bytes_of_bits(self.bits));
        }
        r
    }

    /// The version number embedded in the underlying value: which generation
    /// scheme claims to have produced it.
    pub fn get_version_num(&self) -> (v: usize)
        ensures
            v == version_nibble(self@),
    {
        proof {
            lemma_version_nibble_bounded(self.bits);
        }
        ((self.bits >> 76) & 0xF) as usize
    }
}

/// Read sixteen big-endian bytes as a single 128-bit value.
fn assemble_bits(buf: &[u8; 16]) -> (r: u128)
    ensures
        r == bits_of_bytes(buf@),
{
    ((buf[0] as u128) << 120) | ((buf[1] as u128) << 112) | ((buf[2] as u128) << 104)
        | ((buf[3] as u128) << 96) | ((buf[4] as u128) << 88) | ((buf[5] as u128) << 80)
        | ((buf[6] as u128) << 72) | ((buf[7] as u128) << 64) | ((buf[8] as u128) << 56)
        | ((buf[9] as u128) << 48) | ((buf[10] as u128) << 40) | ((buf[11] as u128) << 32)
        | ((buf[12] as u128) << 24) | ((buf[13] as u128) << 16) | ((buf[14] as u128) << 8)
        | (buf[15] as u128)
}

} // verus!
