//! The owning tagged value: one storage word that, in pointer mode, holds
//! exclusive ownership of a heap allocation.
//!
//! As with the borrowed variant, safe code cannot pack a real address into
//! the word, so this is the tagged-union form of the design: the word —
//! produced and classified by the codec — is the discriminant, and the
//! allocation lives in a single-owner `Box` handle in its own payload
//! field. That handle is what guarantees the allocation is freed exactly
//! once, on every exit path, with no hand-written destructor to get wrong.

use vstd::prelude::*;

use crate::codec;
use crate::codec::WordClass;
use crate::extraction::{ExtractedNan, ExtractedNanMut, TagModel};
use crate::traits::{TaggedPtr, TaggedPtrMut};
use vstd::pervasive::cloned;
use vstd::std_specs::cmp::PartialEqSpec;

verus! {

/// A NaN-tagged value holding either a 64-bit float (by bit pattern) or an
/// owned, heap-allocated value, discriminated by NaN tag. Dropping it
/// frees the allocation, if any, exactly once.
#[derive(Debug)]
pub struct BoxedTaggedNan<T> {
    word: u64,
    boxed: Option<Box<T>>,
}

impl<T> View for BoxedTaggedNan<T> {
    type V = TagModel<T>;

    closed spec fn view(&self) -> TagModel<T> {
        match self.boxed {
            Some(b) => TagModel::Value(*b),
            None => TagModel::Float(self.word),
        }
    }
}

impl<T> BoxedTaggedNan<T> {
    /// An allocation is held exactly when the word carries the pointer
    /// tag; float mode holds none.
    #[verifier::type_invariant]
    spec fn wf(self) -> bool {
        codec::is_float_word(self.word) <==> self.boxed is None
    }

    /// Wrap a float, given by its IEEE-754 bit pattern: a NaN of any
    /// flavor is canonicalized before storage, anything else is kept
    /// bit-identical. No allocation is made.
    pub fn new_float_with(value: u64) -> (r: Self)
        ensures
            r@ == TagModel::<T>::Float(codec::canonicalized(value)),
    {
        BoxedTaggedNan { word: codec::encode_float(value), boxed: None }
    }

    /// Move a value onto the heap and take exclusive ownership of the
    /// allocation.
    pub fn new_pointer(val: T) -> (r: Self)
        ensures
            r@ == TagModel::Value(val),
    {
        proof {
            codec::lemma_null_addr_representable();
        }
        BoxedTaggedNan { word: codec::encode_pointer(0), boxed: Some(Box::new(val)) }
    }
}

impl BoxedTaggedNan<()> {
    /// Wrap a float, given by its IEEE-754 bit pattern, when no referent
    /// type is called for.
    pub fn new_float(value: u64) -> (r: Self)
        ensures
            r@ == TagModel::<()>::Float(codec::canonicalized(value)),
    {
        Self::new_float_with(value)
    }
}

impl<'a, T: 'a> TaggedPtr<'a, T> for BoxedTaggedNan<T> {
    open spec fn model(&self) -> TagModel<T> {
        self@
    }

    fn extract(&'a self) -> (r: ExtractedNan<'a, T>) {
        proof {
            use_type_invariant(self);
        }
        match codec::classify(self.word) {
            WordClass::Float => ExtractedNan::Float(self.word),
            WordClass::Pointer => {
                let b: &Box<T> = self.boxed.as_ref().unwrap();
                ExtractedNan::Pointer(&**b)
            },
        }
    }
}

impl<'a, T: 'a> TaggedPtrMut<'a, T> for BoxedTaggedNan<T> {
    fn extract_mut(&'a mut self) -> (r: ExtractedNanMut<'a, T>) {
        proof {
            use_type_invariant(&*self);
        }
        if codec::classify(self.word) == WordClass::Float {
            ExtractedNanMut::Float(self.word)
        } else {
            match option_box_mut(&mut self.boxed) {
                Some(p) => ExtractedNanMut::PointerMut(p),
                // Never taken: the type invariant ties a pointer-class
                // word to a live allocation.
                None => ExtractedNanMut::Float(self.word),
            }
        }
    }
}

/// An exclusive borrow of the allocation's contents, reaching through the
/// owning handle; guaranteed not to unwind, so it may be handed a field
/// kept under a type invariant.
fn option_box_mut<T>(o: &mut Option<Box<T>>) -> (r: Option<&mut T>)
    ensures
        match *old(o) {
            None => *final(o) is None && r is None,
            Some(b) => r is Some && *r.unwrap() == *b && *final(o) is Some && *(*final(o)).unwrap()
                == *final(r.unwrap()),
        },
    no_unwind
{
    match o {
        Some(b) => Some(&mut **b),
        None => None,
    }
}

impl<T: Clone> Clone for BoxedTaggedNan<T> {
    /// Float mode copies the word only; pointer mode allocates a fresh
    /// region holding a clone of the owned value, yielding a fully
    /// independent owner that is destroyed separately.
    fn clone(&self) -> (r: Self)
        ensures
            (r@ is Float <==> self@ is Float),
            self@ is Float ==> r@ == self@,
            (match (self@, r@) {
                (TagModel::Value(v), TagModel::Value(w)) => cloned::<T>(v, w),
                _ => true,
            }),
    {
        proof {
            use_type_invariant(self);
        }
        match &self.boxed {
            Some(b) => BoxedTaggedNan { word: self.word, boxed: Some(Box::new((**b).clone())) },
            None => BoxedTaggedNan { word: self.word, boxed: None },
        }
    }
}

impl<T: PartialEq> PartialEq for BoxedTaggedNan<T> {
    /// Two values are equal exactly when both are floats equal under
    /// IEEE-754 comparison, or both are pointers whose owned values are
    /// equal by `T`'s own equality; the allocations' identities are
    /// irrelevant.
    fn eq(&self, other: &Self) -> (r: bool) {
        proof {
            use_type_invariant(self);
            use_type_invariant(other);
        }
        match (&self.boxed, &other.boxed) {
            (Some(a), Some(b)) => **a == **b,
            (None, None) => codec::float_words_eq(self.word, other.word),
            _ => false,
        }
    }
}

impl<T: PartialEq> vstd::std_specs::cmp::PartialEqSpecImpl for BoxedTaggedNan<T> {
    open spec fn obeys_eq_spec() -> bool {
        T::obeys_eq_spec()
    }

    open spec fn eq_spec(&self, other: &Self) -> bool {
        match (self@, other@) {
            (TagModel::Float(a), TagModel::Float(b)) => codec::float_bits_eq(a, b),
            (TagModel::Value(v), TagModel::Value(w)) => v.eq_spec(&w),
            _ => false,
        }
    }
}

} // verus!
