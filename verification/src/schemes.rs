//! The generation schemes: one marker type and one constructor per scheme,
//! plus the validating coercion from an untyped value.
//!
//! Generating identifier bits (entropy, clock reads, hashing) is the job of
//! the `uuid` crate; this module only tags the produced value with its
//! scheme and validates the embedded version number when coercing.

use crate::bits::bits_of_bytes;
use crate::bits::lemma_stamp_v8_version;
use crate::bits::node_bits;
use crate::bits::node_field;
use crate::bits::stamp_v8;
use crate::bits::variant_bits;
use crate::bits::version_nibble;
use crate::id::Error;
use crate::id::Id;
use vstd::prelude::*;

verus! {

/// Carries `uuid::Timestamp` values through to the time-based schemes; the
/// library never reads them itself.
#[verifier::external_type_specification]
#[verifier::external_body]
pub struct ExTimestamp(uuid::Timestamp);

/// Relies on `uuid::Uuid::new_v1`, which encodes the timestamp, counter and
/// node identifier into the time-based layout: version number 1 in the
/// version field, the standard variant, and the six node bytes in the low
/// 48 bits; and on `uuid::Uuid::as_u128` for the big-endian integer form.
#[verifier::external_body]
fn gen_v1(ts: uuid::Timestamp, node_id: &[u8; 6]) -> (r: u128)
    ensures
        version_nibble(r) == 1,
        variant_bits(r) == 2,
        node_field(r) == node_bits(node_id@),
{
    uuid::Uuid::new_v1(ts, node_id).as_u128()
}

/// What the MD5 name-based scheme produces: a pure function of the
/// namespace and the name bytes.
pub uninterp spec fn v3_bits(namespace: u128, name: Seq<u8>) -> u128;

/// Relies on `uuid::Uuid::new_v3`: an MD5 name-based identifier, depending
/// on nothing but the namespace and name and always carrying version number
/// 3, and on `uuid::Uuid::from_u128` / `as_u128` for the integer form.
#[verifier::external_body]
fn gen_v3(namespace: u128, name: &[u8]) -> (r: u128)
    ensures
        r == v3_bits(namespace, name@),
        version_nibble(r) == 3,
        variant_bits(r) == 2,
{
    uuid::Uuid::new_v3(&uuid::Uuid::from_u128(namespace), name).as_u128()
}

/// Relies on `uuid::Uuid::new_v4`: random bits with the version field set
/// to 4 and the variant field to the standard pattern. Nothing more holds
/// of every outcome, and two calls may differ.
#[verifier::external_body]
fn gen_v4() -> (r: u128)
    ensures
        version_nibble(r) == 4,
        variant_bits(r) == 2,
{
    uuid::Uuid::new_v4().as_u128()
}

/// What the SHA-1 name-based scheme produces: a pure function of the
/// namespace and the name bytes.
pub uninterp spec fn v5_bits(namespace: u128, name: Seq<u8>) -> u128;

/// Relies on `uuid::Uuid::new_v5`: a SHA-1 name-based identifier, depending
/// on nothing but the namespace and name and always carrying version number
/// 5, and on `uuid::Uuid::from_u128` / `as_u128` for the integer form.
#[verifier::external_body]
fn gen_v5(namespace: u128, name: &[u8]) -> (r: u128)
    ensures
        r == v5_bits(namespace, name@),
        version_nibble(r) == 5,
        variant_bits(r) == 2,
{
    uuid::Uuid::new_v5(&uuid::Uuid::from_u128(namespace), name).as_u128()
}

/// Relies on `uuid::Uuid::new_v6`, which encodes the timestamp, counter and
/// node identifier into the index-friendly reordered layout: version number
/// 6 in the version field, the standard variant, and the six node bytes in
/// the low 48 bits; and on `uuid::Uuid::as_u128` for the integer form.
#[verifier::external_body]
fn gen_v6(ts: uuid::Timestamp, node_id: &[u8; 6]) -> (r: u128)
    ensures
        version_nibble(r) == 6,
        variant_bits(r) == 2,
        node_field(r) == node_bits(node_id@),
{
    uuid::Uuid::new_v6(ts, node_id).as_u128()
}

/// Relies on `uuid::Uuid::new_v7`, which encodes the millisecond timestamp
/// and counter and always writes version number 7 into the version field
/// and the standard variant into the variant field, and on
/// `uuid::Uuid::as_u128` for the integer form.
#[verifier::external_body]
fn gen_v7(ts: uuid::Timestamp) -> (r: u128)
    ensures
        version_nibble(r) == 7,
        variant_bits(r) == 2,
{
    uuid::Uuid::new_v7(ts).as_u128()
}

/// The custom (v8) stamping, written out: overwrite the version nibble
/// with 8 and the variant field with the standard pattern, and keep every
/// other bit of the payload.
fn stamp_custom(bits: u128) -> (r: u128)
    ensures
        r == stamp_v8(bits),
{
    (bits & 0xFFFF_FFFF_FFFF_0FFF_3FFF_FFFF_FFFF_FFFF)
        | 0x0000_0000_0000_8000_8000_0000_0000_0000
}

/// Validate the version number embedded in an untyped value against the
/// number the scheme declares, and wrap the value unchanged on success.
fn coerce<T, Version>(uuid: u128, expected: usize) -> (r: Result<Id<T, Version>, Error>)
    ensures
        version_nibble(uuid) == expected ==> (r matches Ok(id) && id@ == uuid),
        version_nibble(uuid) != expected ==> (r matches Err(e) && e == (Error::WrongVersion {
            expected: expected,
            actual: version_nibble(uuid) as usize,
        })),
{
    let id: Id<T, Version> = Id::from_u128(uuid);
    let actual: usize = id.get_version_num();
    if actual == expected {
        Ok(id)
    } else {
        Err(Error::WrongVersion { expected, actual })
    }
}

/// Denotes that the contained identifier was produced by the time-based
/// (v1) scheme.
#[derive(Debug, Hash)]
pub struct V1;

impl<T> Id<T, V1> {
    /// Construct a new typed v1 identifier from a timestamp and a node
    /// identifier. The produced value always carries version number 1 and
    /// the standard variant, and embeds the node bytes in its low 48 bits.
    pub fn new(ts: uuid::Timestamp, node_id: &[u8; 6]) -> (r: Self)
        ensures
            version_nibble(r@) == 1,
            variant_bits(r@) == 2,
            node_field(r@) == node_bits(node_id@),
    {
        Id::from_u128(gen_v1(ts, node_id))
    }

    /// Attempt to coerce an untyped identifier value into a typed [`Id`].
    ///
    /// Succeeds exactly when the value's embedded version number is 1 and
    /// returns the same bits unchanged; fails with [`Error::WrongVersion`]
    /// carrying the expected and found numbers otherwise.
    pub fn from_generic_uuid(uuid: u128) -> (r: Result<Self, Error>)
        ensures
            version_nibble(uuid) == 1 ==> (r matches Ok(id) && id@ == uuid),
            version_nibble(uuid) != 1 ==> (r matches Err(e) && e == (Error::WrongVersion {
                expected: 1,
                actual: version_nibble(uuid) as usize,
            })),
    {
        coerce(uuid, 1)
    }
}

/// Denotes that the contained identifier was produced by the MD5
/// name-based (v3) scheme.
#[derive(Debug, Hash)]
pub struct V3;

impl<T> Id<T, V3> {
    /// Construct a new typed v3 identifier from a namespace and a name.
    ///
    /// Deterministic: the result is a pure function of the namespace and
    /// name, and always carries version number 3 and the standard variant.
    pub fn new(namespace: u128, name: &[u8]) -> (r: Self)
        ensures
            r@ == v3_bits(namespace, name@),
            version_nibble(r@) == 3,
            variant_bits(r@) == 2,
    {
        Id::from_u128(gen_v3(namespace, name))
    }

    /// Attempt to coerce an untyped identifier value into a typed [`Id`].
    ///
    /// Succeeds exactly when the value's embedded version number is 3 and
    /// returns the same bits unchanged; fails with [`Error::WrongVersion`]
    /// carrying the expected and found numbers otherwise.
    pub fn from_generic_uuid(uuid: u128) -> (r: Result<Self, Error>)
        ensures
            version_nibble(uuid) == 3 ==> (r matches Ok(id) && id@ == uuid),
            version_nibble(uuid) != 3 ==> (r matches Err(e) && e == (Error::WrongVersion {
                expected: 3,
                actual: version_nibble(uuid) as usize,
            })),
    {
        coerce(uuid, 3)
    }
}

/// Denotes that the contained identifier was produced by the random (v4)
/// scheme.
#[derive(Debug, Hash)]
pub struct V4;

impl<T> Id<T, V4> {
    /// Construct a new typed v4 identifier from random bits. The produced
    /// value always carries version number 4 and the standard variant.
    pub fn new() -> (r: Self)
        ensures
            version_nibble(r@) == 4,
            variant_bits(r@) == 2,
    {
        Id::from_u128(gen_v4())
    }

    /// Attempt to coerce an untyped identifier value into a typed [`Id`].
    ///
    /// Succeeds exactly when the value's embedded version number is 4 and
    /// returns the same bits unchanged; fails with [`Error::WrongVersion`]
    /// carrying the expected and found numbers otherwise.
    pub fn from_generic_uuid(uuid: u128) -> (r: Result<Self, Error>)
        ensures
            version_nibble(uuid) == 4 ==> (r matches Ok(id) && id@ == uuid),
            version_nibble(uuid) != 4 ==> (r matches Err(e) && e == (Error::WrongVersion {
                expected: 4,
                actual: version_nibble(uuid) as usize,
            })),
    {
        coerce(uuid, 4)
    }
}

/// Denotes that the contained identifier was produced by the SHA-1
/// name-based (v5) scheme.
#[derive(Debug, Hash)]
pub struct V5;

impl<T> Id<T, V5> {
    /// Construct a new typed v5 identifier from a namespace and a name.
    ///
    /// Deterministic: the result is a pure function of the namespace and
    /// name, and always carries version number 5 and the standard variant.
    pub fn new(namespace: u128, name: &[u8]) -> (r: Self)
        ensures
            r@ == v5_bits(namespace, name@),
            version_nibble(r@) == 5,
            variant_bits(r@) == 2,
    {
        Id::from_u128(gen_v5(namespace, name))
    }

    /// Attempt to coerce an untyped identifier value into a typed [`Id`].
    ///
    /// Succeeds exactly when the value's embedded version number is 5 and
    /// returns the same bits unchanged; fails with [`Error::WrongVersion`]
    /// carrying the expected and found numbers otherwise.
    pub fn from_generic_uuid(uuid: u128) -> (r: Result<Self, Error>)
        ensures
            version_nibble(uuid) == 5 ==> (r matches Ok(id) && id@ == uuid),
            version_nibble(uuid) != 5 ==> (r matches Err(e) && e == (Error::WrongVersion {
                expected: 5,
                actual: version_nibble(uuid) as usize,
            })),
    {
        coerce(uuid, 5)
    }
}

/// Denotes that the contained identifier was produced by the reordered
/// time-based (v6) scheme.
#[derive(Debug, Hash)]
pub struct V6;

impl<T> Id<T, V6> {
    /// Construct a new typed v6 identifier from a timestamp and a node
    /// identifier. The produced value always carries version number 6 and
    /// the standard variant, and embeds the node bytes in its low 48 bits.
    pub fn new(ts: uuid::Timestamp, node_id: &[u8; 6]) -> (r: Self)
        ensures
            version_nibble(r@) == 6,
            variant_bits(r@) == 2,
            node_field(r@) == node_bits(node_id@),
    {
        Id::from_u128(gen_v6(ts, node_id))
    }

    /// Attempt to coerce an untyped identifier value into a typed [`Id`].
    ///
    /// Succeeds exactly when the value's embedded version number is 6 and
    /// returns the same bits unchanged; fails with [`Error::WrongVersion`]
    /// carrying the expected and found numbers otherwise.
    pub fn from_generic_uuid(uuid: u128) -> (r: Result<Self, Error>)
        ensures
            version_nibble(uuid) == 6 ==> (r matches Ok(id) && id@ == uuid),
            version_nibble(uuid) != 6 ==> (r matches Err(e) && e == (Error::WrongVersion {
                expected: 6,
                actual: version_nibble(uuid) as usize,
            })),
    {
        coerce(uuid, 6)
    }
}

/// Denotes that the contained identifier was produced by the
/// monotonic-friendly time-based (v7) scheme.
#[derive(Debug, Hash)]
pub struct V7;

impl<T> Id<T, V7> {
    /// Construct a new typed v7 identifier from a timestamp. The produced
    /// value always carries version number 7 and the standard variant.
    pub fn new(ts: uuid::Timestamp) -> (r: Self)
        ensures
            version_nibble(r@) == 7,
            variant_bits(r@) == 2,
    {
        Id::from_u128(gen_v7(ts))
    }

    /// Attempt to coerce an untyped identifier value into a typed [`Id`].
    ///
    /// Succeeds exactly when the value's embedded version number is 7 and
    /// returns the same bits unchanged; fails with [`Error::WrongVersion`]
    /// carrying the expected and found numbers otherwise.
    pub fn from_generic_uuid(uuid: u128) -> (r: Result<Self, Error>)
        ensures
            version_nibble(uuid) == 7 ==> (r matches Ok(id) && id@ == uuid),
            version_nibble(uuid) != 7 ==> (r matches Err(e) && e == (Error::WrongVersion {
                expected: 7,
                actual: version_nibble(uuid) as usize,
            })),
    {
        coerce(uuid, 7)
    }
}

/// Denotes that the contained identifier was produced by the custom
/// payload (v8) scheme.
#[derive(Debug, Hash)]
pub struct V8;

impl<T> Id<T, V8> {
    /// Construct a new typed v8 identifier from sixteen caller-supplied
    /// bytes. Every bit of the payload is kept except the version and
    /// variant fields, which are stamped; the produced value always carries
    /// version number 8 and the standard variant.
    pub fn new(buf: [u8; 16]) -> (r: Self)
        ensures
            r@ == stamp_v8(bits_of_bytes(buf@)),
            version_nibble(r@) == 8,
            variant_bits(r@) == 2,
    {
        proof {
            lemma_stamp_v8_version(bits_of_bytes(buf@));
        }
        let raw: Id<T, V8> = Id::from_bytes(&buf);
        Id::from_u128(stamp_custom(raw.as_u128()))
    }

    /// Attempt to coerce an untyped identifier value into a typed [`Id`].
    ///
    /// Succeeds exactly when the value's embedded version number is 8 and
    /// returns the same bits unchanged; fails with [`Error::WrongVersion`]
    /// carrying the expected and found numbers otherwise.
    pub fn from_generic_uuid(uuid: u128) -> (r: Result<Self, Error>)
        ensures
            version_nibble(uuid) == 8 ==> (r matches Ok(id) && id@ == uuid),
            version_nibble(uuid) != 8 ==> (r matches Err(e) && e == (Error::WrongVersion {
                expected: 8,
                actual: version_nibble(uuid) as usize,
            })),
    {
        coerce(uuid, 8)
    }
}

} // verus!
