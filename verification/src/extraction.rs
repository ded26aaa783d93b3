//! The outcome of decoding a tagged value, and the ghost model a tagged
//! value is specified against.
//!
//! Floats are carried as their IEEE-754 bit patterns (`f64::to_bits`
//! form), so the decoded float is the `u64` inside the `Float` variants.

use vstd::prelude::*;

use crate::codec;

verus! {

/// What an immutable extraction yields: exactly one of a float (by bit
/// pattern) or a shared reference to the referenced data. No third case
/// exists.
#[derive(Clone, Copy, Debug, PartialEq)]
pub enum ExtractedNan<'a, T> {
    Float(u64),
    Pointer(&'a T),
}

/// What a mutable extraction yields: a float (by bit pattern) or an
/// exclusive reference to the owned data.
#[derive(Debug, PartialEq)]
pub enum ExtractedNanMut<'a, T> {
    Float(u64),
    PointerMut(&'a mut T),
}

/// The mathematical content of a tagged value: either a stored float bit
/// pattern or the referenced value itself. Pointer identity never appears
/// in the model — only the value behind the pointer does.
pub enum TagModel<T> {
    Float(u64),
    Value(T),
}

/// An extraction result agrees with a model when it is the same float bit
/// pattern, or a reference to exactly the modeled value.
pub open spec fn extracted_matches<'a, T>(r: ExtractedNan<'a, T>, m: TagModel<T>) -> bool {
    match r {
        ExtractedNan::Float(b) => m == TagModel::<T>::Float(b),
        ExtractedNan::Pointer(p) => m == TagModel::Value(*p),
    }
}

/// Float round-trip: a tagged value built from a non-NaN float bit pattern
/// extracts to exactly that bit pattern — bit-identical, through any of
/// the constructors, whose stored model is the canonicalized pattern.
pub proof fn lemma_float_extraction_round_trip<'a, T>(
    bits: u64,
    m: TagModel<T>,
    r: ExtractedNan<'a, T>,
)
    requires
        !codec::is_nan_bits(bits),
        m == TagModel::<T>::Float(codec::canonicalized(bits)),
        extracted_matches(r, m),
    ensures
        r == ExtractedNan::<T>::Float(bits),
{
    codec::lemma_float_round_trip(bits);
}

/// NaN canonicalization: a tagged value built from any NaN bit pattern
/// extracts to a float that is still a NaN (the canonical one).
pub proof fn lemma_nan_extraction_is_nan<'a, T>(bits: u64, m: TagModel<T>, r: ExtractedNan<'a, T>)
    requires
        codec::is_nan_bits(bits),
        m == TagModel::<T>::Float(codec::canonicalized(bits)),
        extracted_matches(r, m),
    ensures
        r == ExtractedNan::<T>::Float(codec::CANONICAL_NAN_BITS),
        codec::is_nan_bits(r->Float_0),
{
    codec::lemma_nan_canonicalization(bits);
}

/// Pointer round-trip: a tagged value built from a referent extracts to a
/// reference to exactly that referent's value, never to a float.
pub proof fn lemma_pointer_extraction_round_trip<'a, T>(
    v: T,
    m: TagModel<T>,
    r: ExtractedNan<'a, T>,
)
    requires
        m == TagModel::Value(v),
        extracted_matches(r, m),
    ensures
        r is Pointer && *r->Pointer_0 == v,
{
}

} // verus!
