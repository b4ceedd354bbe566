//! Laws that hold across the library: how equality and ordering relate to
//! the underlying value, and determinism of the name-based schemes.

use crate::id::Id;
use crate::id::spec_order;
use crate::schemes::V3;
use crate::schemes::V5;
use crate::schemes::v3_bits;
use crate::schemes::v5_bits;
use vstd::prelude::*;
use vstd::std_specs::cmp::PartialEqSpec;
use vstd::std_specs::cmp::PartialOrdSpec;

verus! {

/// Equality depends only on the underlying value: two typed identifiers of
/// the same subject and scheme are equal exactly when their bits are equal,
/// however and in whatever order each was constructed.
pub proof fn lemma_eq_ignores_markers<T, Version>(a: Id<T, Version>, b: Id<T, Version>)
    ensures
        <Id<T, Version> as vstd::std_specs::cmp::PartialEqSpec<Id<T, Version>>>::obeys_eq_spec(),
        a.eq_spec(&b) <==> a@ == b@,
{
}

/// Ordering depends only on the underlying value: comparing two typed
/// identifiers of the same subject and scheme compares their bits, and they
/// compare as equal exactly when the bits are equal.
pub proof fn lemma_ord_ignores_markers<T, Version>(a: Id<T, Version>, b: Id<T, Version>)
    ensures
        Id::<T, Version>::obeys_partial_cmp_spec(),
        a.partial_cmp_spec(&b) == Some(spec_order(a@, b@)),
        (a.partial_cmp_spec(&b) == Some(core::cmp::Ordering::Equal)) <==> a@ == b@,
{
}

/// The MD5 name-based scheme is deterministic: any two identifiers built
/// from the same namespace and name hold identical bits and are equal.
pub proof fn lemma_v3_deterministic<T>(a: Id<T, V3>, b: Id<T, V3>, namespace: u128, name: Seq<u8>)
    requires
        a@ == v3_bits(namespace, name),
        b@ == v3_bits(namespace, name),
    ensures
        a@ == b@,
        a.eq_spec(&b),
{
}

/// The SHA-1 name-based scheme is deterministic: any two identifiers built
/// from the same namespace and name hold identical bits and are equal.
pub proof fn lemma_v5_deterministic<T>(a: Id<T, V5>, b: Id<T, V5>, namespace: u128, name: Seq<u8>)
    requires
        a@ == v5_bits(namespace, name),
        b@ == v5_bits(namespace, name),
    ensures
        a@ == b@,
        a.eq_spec(&b),
{
}

} // verus!
