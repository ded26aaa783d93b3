//! Bit-level codec for NaN-tagged 64-bit words.
//!
//! A tagged word is always in exactly one of two disjoint classes:
//! the *float class* (the IEEE-754 bit pattern of a finite, infinite, or
//! canonical-NaN double) or the *pointer class* (an address XOR-masked into
//! the quiet-NaN payload space). Every float is handled here purely through
//! its 64-bit IEEE-754 pattern, so the whole codec is plain bit arithmetic.

use vstd::prelude::*;

verus! {

/// XORed into and out of addresses on store and load; self-inverse.
pub const POINTER_MASK: u64 = 0x7FF8_0000_0000_0000;

/// The single bit pattern reserved to represent a caller-supplied NaN.
/// Every NaN is normalized to this pattern before storage, so no stored
/// float can ever alias a tagged pointer.
pub const CANONICAL_NAN_BITS: u64 = 0x7FFC_0000_0000_0000;

/// Exponent field of an IEEE-754 double (bits 62..=52).
pub const EXPONENT_MASK: u64 = 0x7FF0_0000_0000_0000;

/// Mantissa field of an IEEE-754 double (bits 51..=0).
pub const MANTISSA_MASK: u64 = 0x000F_FFFF_FFFF_FFFF;

/// Everything but the sign bit of an IEEE-754 double.
pub const MAGNITUDE_MASK: u64 = 0x7FFF_FFFF_FFFF_FFFF;

/// A double is NaN exactly when its exponent field is all ones and its
/// mantissa field is nonzero.
pub open spec fn is_nan_bits(w: u64) -> bool {
    w & EXPONENT_MASK == EXPONENT_MASK && w & MANTISSA_MASK != 0
}

/// The float class: any non-NaN double pattern, plus the one canonical NaN.
pub open spec fn is_float_word(w: u64) -> bool {
    !is_nan_bits(w) || w == CANONICAL_NAN_BITS
}

/// The pointer class: any NaN pattern other than the canonical one.
pub open spec fn is_pointer_word(w: u64) -> bool {
    is_nan_bits(w) && w != CANONICAL_NAN_BITS
}

/// What storing a float does to its bits: a NaN of any flavor collapses to
/// the canonical pattern; every other pattern is kept unchanged.
pub open spec fn canonicalized(bits: u64) -> u64 {
    if is_nan_bits(bits) {
        CANONICAL_NAN_BITS
    } else {
        bits
    }
}

/// The address domain the pointer encoding is correct for: no bits inside
/// the mask region, and not the one address whose masked form would collide
/// with the canonical NaN. Conventional 64-bit virtual address layouts
/// satisfy both; the embedding code must uphold this, the codec cannot
/// check an actual address at run time.
pub open spec fn addr_representable(addr: u64) -> bool {
    addr & POINTER_MASK == 0 && addr ^ POINTER_MASK != CANONICAL_NAN_BITS
}

/// How a stored word is read back: as a float or as a masked address.
#[derive(Clone, Copy, Debug, PartialEq, Eq, Structural)]
pub enum WordClass {
    Float,
    Pointer,
}

/// Runtime NaN test on a double's bit pattern.
pub fn is_nan_word(w: u64) -> (b: bool)
    ensures
        b == is_nan_bits(w),
{
    w & EXPONENT_MASK == EXPONENT_MASK && w & MANTISSA_MASK != 0
}

/// Encode a float (given by its bit pattern) for storage: canonicalize
/// NaNs, keep everything else bit-identical. The result is always in the
/// float class.
pub fn encode_float(bits: u64) -> (w: u64)
    ensures
        w == canonicalized(bits),
        is_float_word(w),
{
    if is_nan_word(bits) {
        CANONICAL_NAN_BITS
    } else {
        bits
    }
}

/// Runtime test of the documented address domain.
pub fn is_addr_representable(addr: u64) -> (b: bool)
    ensures
        b == addr_representable(addr),
{
    addr & POINTER_MASK == 0 && addr ^ POINTER_MASK != CANONICAL_NAN_BITS
}

/// Encode an address for storage by XORing in the mask. On the documented
/// address domain the result is always in the pointer class.
pub fn encode_pointer(addr: u64) -> (w: u64)
    requires
        addr_representable(addr),
    ensures
        w == addr ^ POINTER_MASK,
        is_pointer_word(w),
{
    proof {
        lemma_pointer_round_trip(addr);
    }
    addr ^ POINTER_MASK
}

/// Recover the address from a pointer-class word; the exact inverse of
/// `encode_pointer`, since XOR by the mask is self-inverse.
pub fn decode_pointer(w: u64) -> (addr: u64)
    ensures
        addr == w ^ POINTER_MASK,
{
    w ^ POINTER_MASK
}

/// The one canonical classification algorithm: a word is a float unless it
/// is a non-canonical NaN pattern.
pub fn classify(w: u64) -> (c: WordClass)
    ensures
        c == WordClass::Float <==> is_float_word(w),
        c == WordClass::Pointer <==> is_pointer_word(w),
{
    if !is_nan_word(w) || w == CANONICAL_NAN_BITS {
        WordClass::Float
    } else {
        WordClass::Pointer
    }
}

/// IEEE-754 equality of two doubles, decided on their bit patterns: never
/// equal if either is NaN; otherwise equal exactly when the patterns
/// coincide or both are zeros (of either sign).
pub open spec fn float_bits_eq(a: u64, b: u64) -> bool {
    if is_nan_bits(a) || is_nan_bits(b) {
        false
    } else {
        a == b || (a & MAGNITUDE_MASK == 0 && b & MAGNITUDE_MASK == 0)
    }
}

/// Runtime IEEE-754 equality test on two doubles' bit patterns.
pub fn float_words_eq(a: u64, b: u64) -> (r: bool)
    ensures
        r == float_bits_eq(a, b),
{
    if is_nan_word(a) || is_nan_word(b) {
        false
    } else {
        a == b || (a & MAGNITUDE_MASK == 0 && b & MAGNITUDE_MASK == 0)
    }
}

/// Every 64-bit word falls in exactly one of the two classes: decoding is
/// never ambiguous and never hits a third case.
pub proof fn lemma_classes_disjoint_and_exhaustive(w: u64)
    ensures
        is_float_word(w) <==> !is_pointer_word(w),
{
}

/// Float round-trip: a non-NaN double is stored bit-identically, so what
/// comes back out is exactly what went in.
pub proof fn lemma_float_round_trip(bits: u64)
    requires
        !is_nan_bits(bits),
    ensures
        canonicalized(bits) == bits,
        is_float_word(canonicalized(bits)),
{
}

/// NaN canonicalization: every NaN pattern is stored as the canonical NaN,
/// which is itself a NaN and is in the float class, so a stored NaN reads
/// back as a float that is still NaN.
pub proof fn lemma_nan_canonicalization(bits: u64)
    requires
        is_nan_bits(bits),
    ensures
        canonicalized(bits) == CANONICAL_NAN_BITS,
        is_nan_bits(canonicalized(bits)),
        is_float_word(canonicalized(bits)),
{
    assert(is_nan_bits(CANONICAL_NAN_BITS)) by (bit_vector);
}

/// Stored floats never collide with tagged pointers: whatever bits the
/// caller supplies, the stored word is in the float class.
pub proof fn lemma_encoded_float_in_float_class(bits: u64)
    ensures
        is_float_word(canonicalized(bits)),
{
    if is_nan_bits(bits) {
        lemma_nan_canonicalization(bits);
    }
}

/// Pointer round-trip: on the documented address domain, masking is
/// reversible and the masked word is in the pointer class — in particular
/// it never equals the canonical NaN.
pub proof fn lemma_pointer_round_trip(addr: u64)
    requires
        addr_representable(addr),
    ensures
        (addr ^ POINTER_MASK) ^ POINTER_MASK == addr,
        is_pointer_word(addr ^ POINTER_MASK),
{
    assert((addr ^ 0x7FF8_0000_0000_0000u64) ^ 0x7FF8_0000_0000_0000u64 == addr) by (bit_vector);
    assert(addr & 0x7FF8_0000_0000_0000u64 == 0 ==> (addr ^ 0x7FF8_0000_0000_0000u64)
        & 0x7FF0_0000_0000_0000u64 == 0x7FF0_0000_0000_0000u64 && (addr
        ^ 0x7FF8_0000_0000_0000u64) & 0x000F_FFFF_FFFF_FFFFu64 != 0) by (bit_vector);
}

/// The null address is inside the documented address domain, so it can
/// stand in for "no address" where a word must carry the pointer tag but
/// the address itself is immaterial.
pub proof fn lemma_null_addr_representable()
    ensures
        addr_representable(0),
{
    assert(0u64 & 0x7FF8_0000_0000_0000u64 == 0 && 0u64 ^ 0x7FF8_0000_0000_0000u64
        != 0x7FFC_0000_0000_0000u64) by (bit_vector);
}

/// The mask-bit shortcut some implementations use in place of full NaN
/// classification: test the mask bits directly and exclude the canonical
/// NaN.
pub open spec fn shortcut_is_pointer(w: u64) -> bool {
    w & POINTER_MASK == POINTER_MASK && w != CANONICAL_NAN_BITS
}

/// The shortcut is sound on every word: whatever it accepts really is in
/// the pointer class.
pub proof fn lemma_shortcut_sound(w: u64)
    ensures
        shortcut_is_pointer(w) ==> is_pointer_word(w),
{
    assert(w & 0x7FF8_0000_0000_0000u64 == 0x7FF8_0000_0000_0000u64 ==> w
        & 0x7FF0_0000_0000_0000u64 == 0x7FF0_0000_0000_0000u64 && w
        & 0x000F_FFFF_FFFF_FFFFu64 != 0) by (bit_vector);
}

/// The shortcut is *not* equivalent to full classification over the entire
/// bit domain: a signaling-NaN pattern with the top mantissa bit clear is
/// in the pointer class yet the shortcut rejects it.
pub proof fn lemma_shortcut_not_equivalent_everywhere()
    ensures
        exists|w: u64| is_pointer_word(w) && !shortcut_is_pointer(w),
{
    let w: u64 = 0x7FF0_0000_0000_0001;
    assert(0x7FF0_0000_0000_0001u64 & 0x7FF0_0000_0000_0000u64 == 0x7FF0_0000_0000_0000u64
        && 0x7FF0_0000_0000_0001u64 & 0x000F_FFFF_FFFF_FFFFu64 != 0
        && !(0x7FF0_0000_0000_0001u64 & 0x7FF8_0000_0000_0000u64
        == 0x7FF8_0000_0000_0000u64)) by (bit_vector);
    assert(is_pointer_word(w) && !shortcut_is_pointer(w));
}

/// On every word the two constructors can actually store, the shortcut
/// agrees with full classification, so it would be a safe drop-in there:
/// stored floats are rejected by both, encoded addresses accepted by both.
pub proof fn lemma_shortcut_agrees_on_stored_words(bits: u64, addr: u64)
    requires
        addr_representable(addr),
    ensures
        shortcut_is_pointer(canonicalized(bits)) <==> is_pointer_word(canonicalized(bits)),
        shortcut_is_pointer(addr ^ POINTER_MASK) <==> is_pointer_word(addr ^ POINTER_MASK),
{
    assert(!(bits & 0x7FF0_0000_0000_0000u64 == 0x7FF0_0000_0000_0000u64 && bits
        & 0x000F_FFFF_FFFF_FFFFu64 != 0) ==> !(bits & 0x7FF8_0000_0000_0000u64
        == 0x7FF8_0000_0000_0000u64)) by (bit_vector);
    assert(addr & 0x7FF8_0000_0000_0000u64 == 0 ==> (addr ^ 0x7FF8_0000_0000_0000u64)
        & 0x7FF8_0000_0000_0000u64 == 0x7FF8_0000_0000_0000u64) by (bit_vector);
    lemma_pointer_round_trip(addr);
}

} // verus!
