use std::collections::hash_map::DefaultHasher;
use std::hash::Hash;
use std::hash::Hasher;
use typed_uuid::Error;
use typed_uuid::Id;
use typed_uuid::V1;
use typed_uuid::V3;
use typed_uuid::V4;
use typed_uuid::V5;
use typed_uuid::V6;
use typed_uuid::V7;
use typed_uuid::V8;
use uuid::Timestamp;

const NAMESPACE_DNS: u128 = 0x6ba7b8109dad11d180b400c04fd430c8;

fn hash_of<T: Hash>(value: &T) -> u64 {
    let mut hasher = DefaultHasher::new();
    value.hash(&mut hasher);
    hasher.finish()
}

#[test]
fn lib_new() {
    let context = uuid::timestamp::context::Context::new_random();
    let _ = Id::<u32, V1>::new(Timestamp::now(&context), &[0u8; 6]);
}

#[test]
fn lib_new_v3() {
    let _ = Id::<u32, V3>::new(NAMESPACE_DNS, &[0u8; 6]);
}

#[test]
fn lib_new_v4() {
    let _ = Id::<u32, V4>::new();
}

#[test]
fn lib_new_v5() {
    let _ = Id::<u32, V5>::new(NAMESPACE_DNS, &[0u8; 6]);
}

#[test]
fn new_v1_version_number() {
    let ts = Timestamp::from_gregorian_time(0x1234_5678_9abc_def0, 0x3fff);
    let id = Id::<u32, V1>::new(ts, &[1, 2, 3, 4, 5, 6]);
    assert_eq!(id.get_version_num(), 1);
    // the standard variant, and the node bytes in the low 48 bits
    assert_eq!((id.as_u128() >> 62) & 0x3, 2);
    assert_eq!(id.as_u128() & 0xFFFF_FFFF_FFFF, 0x0102_0304_0506);
}

#[test]
fn new_v3_version_number() {
    let id = Id::<u32, V3>::new(NAMESPACE_DNS, b"rust-lang.org");
    assert_eq!(id.get_version_num(), 3);
    assert_eq!((id.as_u128() >> 62) & 0x3, 2);
}

#[test]
fn new_v4_version_number() {
    let id = Id::<u32, V4>::new();
    assert_eq!(id.get_version_num(), 4);
    assert_eq!((id.as_u128() >> 62) & 0x3, 2);
}

#[test]
fn new_v5_version_number() {
    let id = Id::<u32, V5>::new(NAMESPACE_DNS, b"example.org");
    assert_eq!(id.get_version_num(), 5);
    assert_eq!((id.as_u128() >> 62) & 0x3, 2);
}

#[test]
fn new_v6_version_number() {
    let ts = Timestamp::from_gregorian_time(0x1234_5678_9abc_def0, 0x3fff);
    let id = Id::<u32, V6>::new(ts, &[0xAA, 0xBB, 0xCC, 0xDD, 0xEE, 0xFF]);
    assert_eq!(id.get_version_num(), 6);
    // the standard variant, and the node bytes in the low 48 bits
    assert_eq!((id.as_u128() >> 62) & 0x3, 2);
    assert_eq!(id.as_u128() & 0xFFFF_FFFF_FFFF, 0xAABB_CCDD_EEFF);
}

#[test]
fn new_v7_version_number() {
    let ts = Timestamp::from_unix_time(1_700_000_000, 0, 0, 0);
    let id = Id::<u32, V7>::new(ts);
    assert_eq!(id.get_version_num(), 7);
    assert_eq!((id.as_u128() >> 62) & 0x3, 2);
}

#[test]
fn new_v8_version_number_and_stamp() {
    let id = Id::<u32, V8>::new([0u8; 16]);
    assert_eq!(id.get_version_num(), 8);
    // all-zero payload: only the stamped version and variant bits remain
    assert_eq!(id.as_u128(), 0x0000_0000_0000_8000_8000_0000_0000_0000);

    // a payload bit outside the stamped fields is kept
    let mut buf = [0u8; 16];
    buf[0] = 0xAB;
    let id = Id::<u32, V8>::new(buf);
    assert_eq!(id.as_u128(), 0xAB00_0000_0000_8000_8000_0000_0000_0000);
}

#[test]
fn from_generic_uuid_accepts_matching_version() {
    let untyped: u128 = 0x0000_0000_0000_3000_8000_0000_0000_0001;
    let id = Id::<u32, V3>::from_generic_uuid(untyped).unwrap();
    assert_eq!(id.as_u128(), untyped);

    let v4 = Id::<u32, V4>::new().as_u128();
    let id = Id::<u32, V4>::from_generic_uuid(v4).unwrap();
    assert_eq!(id.as_u128(), v4);
}

#[test]
fn from_generic_uuid_rejects_wrong_version() {
    // a v4-tagged value coerced as v1
    let v4_tagged: u128 = 0x0000_0000_0000_4000_8000_0000_0000_0001;
    let err = Id::<u32, V1>::from_generic_uuid(v4_tagged).unwrap_err();
    assert_eq!(err, Error::WrongVersion { expected: 1, actual: 4 });

    let v1_tagged: u128 = 0x0000_0000_0000_1000_8000_0000_0000_0001;
    let err = Id::<u32, V5>::from_generic_uuid(v1_tagged).unwrap_err();
    assert_eq!(err, Error::WrongVersion { expected: 5, actual: 1 });
}

#[test]
fn v3_deterministic_and_exact() {
    let a = Id::<u32, V3>::new(NAMESPACE_DNS, b"rust-lang.org");
    let b = Id::<u32, V3>::new(NAMESPACE_DNS, b"rust-lang.org");
    assert_eq!(a, b);
    // the canonical MD5 name-based value for this namespace and name
    assert_eq!(a.as_u128(), 0xc6db027c615c3b4d959e1a917747ca5a);

    let c = Id::<u32, V3>::new(NAMESPACE_DNS, b"rust-lang.com");
    assert_ne!(a, c);
    let d = Id::<u32, V3>::new(NAMESPACE_DNS.wrapping_add(1), b"rust-lang.org");
    assert_ne!(a, d);
}

#[test]
fn v5_deterministic_and_exact() {
    let a = Id::<u32, V5>::new(NAMESPACE_DNS, b"example.org");
    let b = Id::<u32, V5>::new(NAMESPACE_DNS, b"example.org");
    assert_eq!(a, b);
    // the canonical SHA-1 name-based value for this namespace and name
    assert_eq!(a.as_u128(), 0xaad036818b63530489e08ca8f49461b5);

    let c = Id::<u32, V5>::new(NAMESPACE_DNS, b"example.com");
    assert_ne!(a, c);
}

#[test]
fn equality_depends_only_on_value() {
    let untyped: u128 = 0x0000_0000_0000_4000_8000_0000_0000_0042;
    let b = Id::<u32, V4>::from_generic_uuid(untyped).unwrap();
    let a = Id::<u32, V4>::from_generic_uuid(untyped).unwrap();
    // construction order does not matter
    assert_eq!(a, b);
    assert_eq!(hash_of(&a), hash_of(&b));

    let other = Id::<u32, V4>::from_u128(untyped + 1);
    assert_ne!(a, other);
}

#[test]
fn compare_with_untyped_value() {
    let untyped: u128 = 0x0000_0000_0000_4000_8000_0000_0000_0042;
    let id = Id::<u32, V4>::from_u128(untyped);
    assert!(id == untyped);
    assert!(id != untyped + 1);
}

#[test]
fn ordering_depends_only_on_value() {
    let small = Id::<u32, V4>::from_u128(0x0000_0000_0000_4000_8000_0000_0000_0001);
    let large = Id::<u32, V4>::from_u128(0x0000_0000_0000_4000_8000_0000_0000_0002);
    assert!(small < large);
    assert!(large > small);
    assert!(small <= small);
    assert_eq!(small.partial_cmp(&large), Some(std::cmp::Ordering::Less));
    assert_eq!(small.partial_cmp(&small), Some(std::cmp::Ordering::Equal));
}

#[test]
fn v4_values_differ() {
    let a = Id::<u32, V4>::new();
    let b = Id::<u32, V4>::new();
    assert_ne!(a, b);
    assert_eq!(a.get_version_num(), 4);
    assert_eq!(b.get_version_num(), 4);
}

#[test]
fn byte_round_trip() {
    let id = Id::<u32, V4>::new();
    let bytes = id.to_bytes();
    let back = Id::<u32, V4>::from_bytes(&bytes);
    assert_eq!(back, id);
    assert_eq!(back.as_u128(), id.as_u128());
}

#[test]
fn byte_form_is_big_endian() {
    let id = Id::<u32, V8>::from_u128(0x0102030405060708090a0b0c0d0e0f10);
    assert_eq!(
        id.to_bytes(),
        [1, 2, 3, 4, 5, 6, 7, 8, 9, 10, 11, 12, 13, 14, 15, 16],
    );
    let back = Id::<u32, V8>::from_bytes(&[
        1, 2, 3, 4, 5, 6, 7, 8, 9, 10, 11, 12, 13, 14, 15, 16,
    ]);
    assert_eq!(back.as_u128(), 0x0102030405060708090a0b0c0d0e0f10);
}

#[test]
fn integer_round_trip() {
    let untyped: u128 = 0x0000_0000_0000_7000_8000_0000_0000_0099;
    let id = Id::<u32, V7>::from_u128(untyped);
    assert_eq!(id.as_u128(), untyped);
    // the unchecked path does not validate: the bits are kept as given
    let mismatched = Id::<u32, V1>::from_u128(untyped);
    assert_eq!(mismatched.get_version_num(), 7);
}

#[test]
fn clone_and_copy_keep_the_value() {
    let a = Id::<u32, V4>::new();
    let b = a;
    let c = a.clone();
    assert_eq!(a, b);
    assert_eq!(a, c);
}

#[test]
fn hyphenated_form() {
    let id = Id::<u32, V4>::from_u128(0xa1a2a3a4b1b2c1c2d1d2d3d4d5d6d7d8);
    assert_eq!(id.to_hyphenated_string(), "a1a2a3a4-b1b2-c1c2-d1d2-d3d4d5d6d7d8");
    let zero = Id::<u32, V4>::from_u128(0);
    assert_eq!(zero.to_hyphenated_string(), "00000000-0000-0000-0000-000000000000");
}
