//! NaN-tagging: a 64-bit double or a pointer in one 64-bit storage word,
//! discriminated through the otherwise-unused NaN bit patterns.
//!
//! The `codec` module holds the bit-level encode, decode and classify
//! logic together with its proofs. On top of it stand the two ownership
//! variants: `TaggedNan`, which borrows its referent, and
//! `BoxedTaggedNan`, which owns a heap allocation in pointer mode; both
//! are read through the `TaggedPtr` and `TaggedPtrMut` interfaces and are
//! specified against the `TagModel` view. Floats cross this library's
//! boundary as their IEEE-754 bit patterns (`f64::to_bits` form), so the
//! whole crate is plain bit and value logic.

pub mod codec;
pub mod extraction;
pub mod borrowed;
pub mod owned;
pub mod traits;

pub use borrowed::TaggedNan;
pub use owned::BoxedTaggedNan;
pub use codec::WordClass;
pub use extraction::{ExtractedNan, ExtractedNanMut, TagModel};
pub use traits::{TaggedPtr, TaggedPtrMut};
