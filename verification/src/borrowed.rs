//! The non-owning tagged value: one storage word plus a lifetime-bound
//! payload it does not own.
//!
//! Safe code cannot pack a real address into the word, so this variant is
//! the tagged-union form of the design: the word — produced and classified
//! by the codec — is the discriminant, and the reference lives in its own
//! payload field (in pointer mode the null address is what gets encoded).
//! Everything observable about a value is captured by its `TagModel` view.

use vstd::prelude::*;

use crate::codec;
use crate::codec::WordClass;
use crate::extraction::{ExtractedNan, TagModel};
use crate::traits::TaggedPtr;
use vstd::std_specs::cmp::PartialEqSpec;

verus! {

/// A NaN-tagged value holding either a 64-bit float (by bit pattern) or a
/// borrowed reference, discriminated by NaN tag. Reassignment replaces the
/// whole value; it is never mutated in place, and dropping it has no side
/// effect.
#[derive(Copy, Debug)]
pub struct TaggedNan<'a, T> {
    word: u64,
    referent: Option<&'a T>,
}

impl<'a, T> Clone for TaggedNan<'a, T> {
    /// A trivial copy: the borrowed variant owns nothing to duplicate.
    fn clone(&self) -> (r: Self)
        ensures
            r == *self,
    {
        proof {
            use_type_invariant(self);
        }
        TaggedNan { word: self.word, referent: self.referent }
    }
}

impl<'a, T> View for TaggedNan<'a, T> {
    type V = TagModel<T>;

    closed spec fn view(&self) -> TagModel<T> {
        match self.referent {
            Some(p) => TagModel::Value(*p),
            None => TagModel::Float(self.word),
        }
    }
}

impl<'a, T> TaggedNan<'a, T> {
    /// Malformed state is unreachable: the word is in the float class
    /// exactly when no referent is attached.
    #[verifier::type_invariant]
    spec fn wf(self) -> bool {
        codec::is_float_word(self.word) <==> self.referent is None
    }

    /// Wrap a float, given by its IEEE-754 bit pattern: a NaN of any
    /// flavor is canonicalized before storage, anything else is kept
    /// bit-identical.
    pub fn new_float_with(value: u64) -> (r: Self)
        ensures
            r@ == TagModel::<T>::Float(codec::canonicalized(value)),
    {
        TaggedNan { word: codec::encode_float(value), referent: None }
    }

    /// Wrap a borrowed reference; the result is valid exactly as long as
    /// the referent is.
    pub fn new_pointer(ptr: &'a T) -> (r: Self)
        ensures
            r@ == TagModel::Value(*ptr),
    {
        proof {
            codec::lemma_null_addr_representable();
        }
        TaggedNan { word: codec::encode_pointer(0), referent: Some(ptr) }
    }
}

impl<'a, 'b: 'a, T: 'b> TaggedPtr<'a, T> for TaggedNan<'b, T> {
    open spec fn model(&self) -> TagModel<T> {
        self@
    }

    fn extract(&'a self) -> (r: ExtractedNan<'a, T>) {
        proof {
            use_type_invariant(self);
        }
        match codec::classify(self.word) {
            WordClass::Float => ExtractedNan::Float(self.word),
            WordClass::Pointer => ExtractedNan::Pointer(self.referent.unwrap()),
        }
    }
}

impl TaggedNan<'_, ()> {
    /// Wrap a float, given by its IEEE-754 bit pattern, when no referent
    /// type is called for.
    pub fn new_float(value: u64) -> (r: Self)
        ensures
            r@ == TagModel::<()>::Float(codec::canonicalized(value)),
    {
        Self::new_float_with(value)
    }
}

impl<'a, T: PartialEq> PartialEq for TaggedNan<'a, T> {
    /// Two values are equal exactly when both are floats equal under
    /// IEEE-754 comparison, or both are pointers whose referents are equal
    /// by `T`'s own equality; pointer identity is irrelevant.
    fn eq(&self, other: &Self) -> (r: bool) {
        proof {
            use_type_invariant(self);
            use_type_invariant(other);
        }
        match (self.referent, other.referent) {
            (Some(a), Some(b)) => *a == *b,
            (None, None) => codec::float_words_eq(self.word, other.word),
            _ => false,
        }
    }
}

impl<'a, T: PartialEq> vstd::std_specs::cmp::PartialEqSpecImpl for TaggedNan<'a, T> {
    open spec fn obeys_eq_spec() -> bool {
        T::obeys_eq_spec()
    }

    open spec fn eq_spec(&self, other: &Self) -> bool {
        match (self@, other@) {
            (TagModel::Float(a), TagModel::Float(b)) => codec::float_bits_eq(a, b),
            (TagModel::Value(v), TagModel::Value(w)) => v.eq_spec(&w),
            _ => false,
        }
    }
}

} // verus!
