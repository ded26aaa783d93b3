use std::rc::Rc;

use nan_tag::codec;
use nan_tag::BoxedTaggedNan;
use nan_tag::ExtractedNan;
use nan_tag::ExtractedNanMut;
use nan_tag::TaggedNan;
use nan_tag::TaggedPtr;
use nan_tag::TaggedPtrMut;
use nan_tag::WordClass;

const CANONICAL_NAN_BITS: u64 = 0x7FFC_0000_0000_0000;
const POINTER_MASK: u64 = 0x7FF8_0000_0000_0000;

#[test]
fn scenario_pi_round_trips() {
    let tagged = TaggedNan::new_float(3.14f64.to_bits());
    assert_eq!(ExtractedNan::Float(3.14f64.to_bits()), tagged.extract());
}

#[test]
fn scenario_pointer_to_42() {
    let a: i32 = 42;
    let tagged = TaggedNan::new_pointer(&a);
    assert_eq!(ExtractedNan::Pointer(&a), tagged.extract());
}

#[test]
fn nan_bit_test_matches_ieee() {
    assert!(codec::is_nan_word(f64::NAN.to_bits()));
    assert!(codec::is_nan_word(CANONICAL_NAN_BITS));
    assert!(codec::is_nan_word(0x7FF0_0000_0000_0001));
    assert!(!codec::is_nan_word(f64::INFINITY.to_bits()));
    assert!(!codec::is_nan_word(f64::NEG_INFINITY.to_bits()));
    assert!(!codec::is_nan_word(0.0f64.to_bits()));
    assert!(!codec::is_nan_word(1.5f64.to_bits()));
}

#[test]
fn float_encoding_is_identity_on_non_nan() {
    assert_eq!(1.5f64.to_bits(), codec::encode_float(1.5f64.to_bits()));
    assert_eq!(0.0f64.to_bits(), codec::encode_float(0.0f64.to_bits()));
    assert_eq!(
        f64::INFINITY.to_bits(),
        codec::encode_float(f64::INFINITY.to_bits())
    );
}

#[test]
fn nan_encoding_is_canonical() {
    assert_eq!(CANONICAL_NAN_BITS, codec::encode_float(f64::NAN.to_bits()));
    assert_eq!(CANONICAL_NAN_BITS, codec::encode_float(0x7FF0_0000_0000_0001));
    assert_eq!(CANONICAL_NAN_BITS, codec::encode_float(0xFFF8_0000_0000_0099));
}

#[test]
fn pointer_words_round_trip() {
    let addr: u64 = 0x0000_5555_1234_5678;
    let word = codec::encode_pointer(addr);
    assert_eq!(addr ^ POINTER_MASK, word);
    assert_eq!(addr, codec::decode_pointer(word));
    assert_eq!(WordClass::Pointer, codec::classify(word));
}

#[test]
fn classification_is_disjoint() {
    assert_eq!(WordClass::Float, codec::classify(1.5f64.to_bits()));
    assert_eq!(WordClass::Float, codec::classify(CANONICAL_NAN_BITS));
    assert_eq!(WordClass::Float, codec::classify(f64::INFINITY.to_bits()));
    assert_eq!(WordClass::Pointer, codec::classify(0x7FF0_0000_0000_0001));
    assert_eq!(WordClass::Pointer, codec::classify(codec::encode_pointer(0)));
}

#[test]
fn adversarial_float_stays_float() {
    // A float handed in with a pointer-looking (non-canonical NaN) pattern
    // is canonicalized, so it can never classify as a pointer.
    let tagged = TaggedNan::new_float(0x7FF0_0000_0000_0001);
    assert!(!tagged.is_pointer());
    assert_eq!(Some(CANONICAL_NAN_BITS), tagged.as_float());
}

#[test]
fn extracted_pointer_is_same_location() {
    let x: u32 = 77;
    let tagged = TaggedNan::new_pointer(&x);
    match tagged.extract() {
        ExtractedNan::Pointer(p) => assert!(std::ptr::eq(p, &x)),
        ExtractedNan::Float(_) => panic!("pointer mode expected"),
    }
}

#[test]
fn owned_float_extracts() {
    let tagged = BoxedTaggedNan::<String>::new_float_with(6.25f64.to_bits());
    assert!(!tagged.is_pointer());
    assert_eq!(Some(6.25f64.to_bits()), tagged.as_float());
    assert_eq!(None, tagged.as_ref());
}

#[test]
fn owned_pointer_extracts() {
    let tagged = BoxedTaggedNan::new_pointer(42i32);
    assert!(tagged.is_pointer());
    assert_eq!(None, tagged.as_float());
    assert_eq!(Some(&42), tagged.as_ref());
}

#[test]
fn mutation_is_visible() {
    let mut tagged = BoxedTaggedNan::new_pointer(String::from("hello"));
    match tagged.extract_mut() {
        ExtractedNanMut::PointerMut(s) => s.push_str(" world"),
        ExtractedNanMut::Float(_) => panic!("pointer mode expected"),
    }
    assert_eq!(Some(&String::from("hello world")), tagged.as_ref());
}

#[test]
fn as_mut_mutation_is_visible() {
    let mut tagged = BoxedTaggedNan::new_pointer(10i32);
    if let Some(p) = tagged.as_mut() {
        *p = 99;
    } else {
        panic!("pointer mode expected");
    }
    assert_eq!(Some(&99), tagged.as_ref());
}

#[test]
fn float_mode_as_mut_is_none() {
    let mut tagged = BoxedTaggedNan::<i32>::new_float_with(2.0f64.to_bits());
    assert!(tagged.as_mut().is_none());
    assert_eq!(Some(2.0f64.to_bits()), tagged.as_float());
}

#[test]
fn clone_is_independent() {
    let original = BoxedTaggedNan::new_pointer(String::from("alpha"));
    let mut copy = original.clone();
    if let Some(s) = copy.as_mut() {
        s.push_str("-beta");
    }
    assert_eq!(Some(&String::from("alpha")), original.as_ref());
    assert_eq!(Some(&String::from("alpha-beta")), copy.as_ref());
}

#[test]
fn mutating_original_leaves_clone_alone() {
    let mut original = BoxedTaggedNan::new_pointer(String::from("left"));
    let copy = original.clone();
    if let Some(s) = original.as_mut() {
        s.push_str("-right");
    }
    assert_eq!(Some(&String::from("left-right")), original.as_ref());
    assert_eq!(Some(&String::from("left")), copy.as_ref());
}

#[test]
fn clone_of_float_mode_copies_word() {
    let tagged = BoxedTaggedNan::<i32>::new_float_with(3.25f64.to_bits());
    let copy = tagged.clone();
    assert_eq!(Some(3.25f64.to_bits()), copy.as_float());
}

#[test]
fn drop_releases_allocation_once() {
    let payload = Rc::new(5i32);
    let second = Rc::clone(&payload);
    assert_eq!(2, Rc::strong_count(&payload));
    let tagged = BoxedTaggedNan::new_pointer(second);
    assert_eq!(2, Rc::strong_count(&payload));
    drop(tagged);
    assert_eq!(1, Rc::strong_count(&payload));
}

#[test]
fn clone_then_drop_both_releases_both() {
    let payload = Rc::new(7i32);
    let tagged = BoxedTaggedNan::new_pointer(Rc::clone(&payload));
    let copy = tagged.clone();
    assert_eq!(3, Rc::strong_count(&payload));
    drop(tagged);
    assert_eq!(2, Rc::strong_count(&payload));
    drop(copy);
    assert_eq!(1, Rc::strong_count(&payload));
}

#[test]
fn float_mode_drop_is_a_no_op() {
    let tagged = BoxedTaggedNan::<Rc<i32>>::new_float_with(1.0f64.to_bits());
    drop(tagged);
}

#[test]
fn equality_is_by_decoded_value() {
    let a: i32 = 5;
    let b: i32 = 5;
    let c: i32 = 6;
    // Pointer identity is irrelevant: distinct referents, equal values.
    assert!(TaggedNan::new_pointer(&a) == TaggedNan::new_pointer(&b));
    assert!(TaggedNan::new_pointer(&a) != TaggedNan::new_pointer(&c));
    assert!(
        TaggedNan::<i32>::new_float_with(1.5f64.to_bits())
            == TaggedNan::<i32>::new_float_with(1.5f64.to_bits())
    );
    // Mixed modes are never equal.
    assert!(TaggedNan::new_pointer(&a) != TaggedNan::<i32>::new_float_with(1.5f64.to_bits()));
}

#[test]
fn float_equality_follows_ieee() {
    // NaN is not equal to itself, even after canonicalization.
    let nan = TaggedNan::new_float(f64::NAN.to_bits());
    assert!(nan != nan);
    // Positive and negative zero are equal despite distinct bit patterns.
    let pos = TaggedNan::new_float(0.0f64.to_bits());
    let neg = TaggedNan::new_float((-0.0f64).to_bits());
    assert!(pos == neg);
    assert!(codec::float_words_eq(0.0f64.to_bits(), (-0.0f64).to_bits()));
    assert!(!codec::float_words_eq(
        f64::NAN.to_bits(),
        f64::NAN.to_bits()
    ));
    assert!(codec::float_words_eq(2.5f64.to_bits(), 2.5f64.to_bits()));
}

#[test]
fn owned_equality_is_by_value() {
    assert!(BoxedTaggedNan::new_pointer(String::from("x")) == BoxedTaggedNan::new_pointer(String::from("x")));
    assert!(BoxedTaggedNan::new_pointer(String::from("x")) != BoxedTaggedNan::new_pointer(String::from("y")));
    assert!(
        BoxedTaggedNan::<String>::new_float_with(4.5f64.to_bits())
            == BoxedTaggedNan::<String>::new_float_with(4.5f64.to_bits())
    );
    assert!(
        BoxedTaggedNan::new_pointer(String::from("x"))
            != BoxedTaggedNan::<String>::new_float_with(4.5f64.to_bits())
    );
}
