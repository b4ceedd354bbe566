//! Typed wrapper around a 128-bit universally-unique identifier.
//!
//! An [`Id<T, Version>`](Id) attaches two compile-time-only type parameters
//! to an identifier value: a subject (what kind of entity the identifier
//! names) and a scheme (which generation algorithm produced the bits).
//! Identifiers with different subjects or schemes are distinct types and
//! cannot be compared or assigned to one another.

mod bits;
mod id;
mod laws;
mod schemes;
mod text;

pub use bits::bits_of_bytes;
pub use bits::bytes_of_bits;
pub use bits::lemma_bits_of_bytes_injective;
pub use bits::lemma_bytes_round_trip;
pub use bits::lemma_version_nibble_bounded;
pub use bits::node_bits;
pub use bits::node_field;
pub use bits::stamp_v8;
pub use bits::variant_bits;
pub use bits::version_nibble;
pub use id::Error;
pub use id::Id;
pub use id::spec_order;
pub use laws::lemma_eq_ignores_markers;
pub use laws::lemma_ord_ignores_markers;
pub use laws::lemma_v3_deterministic;
pub use laws::lemma_v5_deterministic;
pub use schemes::V1;
pub use schemes::V3;
pub use schemes::V4;
pub use schemes::V5;
pub use schemes::V6;
pub use schemes::V7;
pub use schemes::V8;
pub use schemes::v3_bits;
pub use schemes::v5_bits;
pub use text::hex_digits;
pub use text::hyphenated_of;
