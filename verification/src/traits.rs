//! The extraction interface shared by the borrowed and the owning tagged
//! value, with the derived accessors all delegating to `extract`.

use vstd::prelude::*;

use crate::extraction::{ExtractedNan, ExtractedNanMut, TagModel, extracted_matches};

verus! {

/// Read access to a tagged value: decode the stored word into exactly one
/// of a float (by bit pattern) or a shared reference to the referenced
/// data.
pub trait TaggedPtr<'a, T: 'a>: Sized where Self: 'a {
    /// The mathematical content of this tagged value: the stored float
    /// bit pattern, or the referenced value itself.
    spec fn model(&self) -> TagModel<T>;

    /// Decode the stored word: yields exactly the float or exactly a
    /// reference to the value this tagged value was constructed from.
    /// Pure and side-effect free.
    fn extract(&'a self) -> (r: ExtractedNan<'a, T>)
        ensures
            extracted_matches(r, self.model()),
    ;

    /// Whether the value is in pointer mode.
    fn is_pointer(&'a self) -> (b: bool)
        ensures
            b == (self.model() is Value),
    {
        matches!(self.extract(), ExtractedNan::Pointer(_))
    }

    /// The stored float bit pattern, or `None` in pointer mode.
    fn as_float(&'a self) -> (r: Option<u64>)
        ensures
            r == (match self.model() {
                TagModel::Float(b) => Some(b),
                TagModel::Value(_) => None::<u64>,
            }),
    {
        match self.extract() {
            ExtractedNan::Float(float) => Some(float),
            _ => None,
        }
    }

    /// A reference to the referenced data, or `None` in float mode.
    fn as_ref(&'a self) -> (r: Option<&'a T>)
        ensures
            match self.model() {
                TagModel::Value(v) => r is Some && *r.unwrap() == v,
                TagModel::Float(_) => r is None,
            },
    {
        match self.extract() {
            ExtractedNan::Pointer(ptr) => Some(ptr),
            _ => None,
        }
    }
}

/// Write access on top of read access: decode the stored word into the
/// float or an exclusive reference to the referenced data; whatever is
/// written through that reference is what every later extraction observes.
pub trait TaggedPtrMut<'a, T: 'a>: TaggedPtr<'a, T> {
    /// Decode the stored word for mutation: float mode is left untouched,
    /// pointer mode yields an exclusive reference whose final contents
    /// are the value's new referenced data.
    fn extract_mut(&'a mut self) -> (r: ExtractedNanMut<'a, T>)
        ensures
            match old(self).model() {
                TagModel::Float(b) => r == ExtractedNanMut::<T>::Float(b) && *final(self)
                    == *old(self),
                TagModel::Value(v) => r is PointerMut && *r->PointerMut_0 == v
                    && final(self).model() == TagModel::Value(*final(r->PointerMut_0)),
            },
    ;

    /// An exclusive reference to the referenced data, or `None` in float
    /// mode.
    fn as_mut(&'a mut self) -> (r: Option<&'a mut T>)
        ensures
            match old(self).model() {
                TagModel::Value(v) => r is Some && *r.unwrap() == v && final(self).model()
                    == TagModel::Value(*final(r.unwrap())),
                TagModel::Float(_) => r is None && *final(self) == *old(self),
            },
    {
        match self.extract_mut() {
            ExtractedNanMut::PointerMut(ptr) => Some(ptr),
            _ => None,
        }
    }
}

} // verus!
