use ark_bls12_377::{Fq, G1Affine};
use ark_ec::AffineCurve;
use ark_ff::{FpParameters, One, ToBytes, Zero};
use ark_serialize::CanonicalSerialize;

use bls12_377_pairing::field::FieldElement;
use bls12_377_pairing::points::CurveWrapper;
use bls12_377_pairing::HostError;

/// Reverses each aligned 48-byte block: converts between the library's
/// big-endian canonical encoding and ark's little-endian one.
fn swapped(le: &[u8]) -> Vec<u8> {
    assert!(le.len() % 48 == 0);
    let mut out = Vec::with_capacity(le.len());
    for chunk in le.chunks(48) {
        out.extend(chunk.iter().rev());
    }
    out
}

/// The canonical big-endian encoding of a base-field element.
fn fq_be(f: &Fq) -> Vec<u8> {
    let mut w = Vec::new();
    f.serialize(&mut w).unwrap();
    swapped(&w)
}

const MODULUS_DEC: &str = "258664426012969094010652733694893533536393512754914660539884262666720468348340822774968888139573360124440321458177";
const MODULUS_MINUS_ONE_DEC: &str = "258664426012969094010652733694893533536393512754914660539884262666720468348340822774968888139573360124440321458176";

#[test]
fn field_element_byte_round_trip() {
    let g = G1Affine::prime_subgroup_generator();
    let be = fq_be(&g.x);
    let fe = FieldElement::from_bytes(&be).unwrap();
    assert_eq!(fe.to_bytes(), be);
}

#[test]
fn field_element_rejects_wrong_length() {
    let g = G1Affine::prime_subgroup_generator();
    let be = fq_be(&g.x);
    assert!(matches!(FieldElement::from_bytes(&be[..47]), Err(HostError::InvalidInput)));
    let mut long = be.clone();
    long.push(0);
    assert!(matches!(FieldElement::from_bytes(&long), Err(HostError::InvalidInput)));
    assert!(matches!(FieldElement::from_bytes(&[]), Err(HostError::InvalidInput)));
}

#[test]
fn field_element_rejects_value_at_modulus() {
    // The modulus itself is the smallest out-of-range value.
    let mut le = Vec::new();
    ark_bls12_377::FqParameters::MODULUS.write(&mut le).unwrap();
    assert_eq!(le.len(), 48);
    let be = swapped(&le);
    assert!(FieldElement::from_bytes(&be).is_err());
    // The largest in-range value, the modulus minus one, decodes.
    let top = Fq::zero() - Fq::one();
    let be = fq_be(&top);
    let fe = FieldElement::from_bytes(&be).unwrap();
    assert_eq!(fe.to_bytes(), be);
}

#[test]
fn field_element_decimal_matches_byte_encoding() {
    let fe = FieldElement::from_decimal("12345").unwrap();
    let expected = fq_be(&Fq::from(12345u64));
    assert_eq!(fe.to_bytes(), expected);
    let one = FieldElement::from_decimal("1").unwrap();
    assert_eq!(one.to_bytes(), fq_be(&Fq::from(1u64)));
    let zero = FieldElement::from_decimal("0").unwrap();
    assert_eq!(zero.to_bytes(), vec![0u8; 48]);
}

#[test]
fn field_element_decimal_rejects_malformed() {
    assert!(FieldElement::from_decimal("").is_err());
    assert!(FieldElement::from_decimal("abc").is_err());
    assert!(FieldElement::from_decimal("12a4").is_err());
    assert!(FieldElement::from_decimal("-5").is_err());
    assert!(FieldElement::from_decimal("007").is_err());
    assert!(FieldElement::from_decimal("01").is_err());
    assert!(FieldElement::from_decimal(" 1").is_err());
}

#[test]
fn field_element_decimal_rejects_out_of_range() {
    // The modulus itself must be rejected, not reduced to zero.
    assert!(FieldElement::from_decimal(MODULUS_DEC).is_err());
    // One below the modulus is the largest accepted value.
    let fe = FieldElement::from_decimal(MODULUS_MINUS_ONE_DEC).unwrap();
    let top = Fq::zero() - Fq::one();
    assert_eq!(fe.to_bytes(), fq_be(&top));
    // A 115-digit value is out of range however it starts.
    let big = "1".repeat(115);
    assert!(FieldElement::from_decimal(&big).is_err());
}

#[test]
fn decimal_point_builders_accept_and_reject() {
    let p = CurveWrapper::to_affine_g1_decimal("1", "2").unwrap();
    let (x, y) = p.to_coordinate_bytes();
    assert_eq!(x, fq_be(&Fq::from(1u64)));
    assert_eq!(y, fq_be(&Fq::from(2u64)));
    assert!(CurveWrapper::to_affine_g1_decimal("1", "2x").is_err());
    let q = CurveWrapper::to_affine_g2_decimal("3", "4", "5", "6").unwrap();
    let (x0, _, _, y1) = q.to_coordinate_bytes();
    assert_eq!(x0, fq_be(&Fq::from(3u64)));
    assert_eq!(y1, fq_be(&Fq::from(6u64)));
    assert!(CurveWrapper::to_affine_g2_decimal("3", "04", "5", "6").is_err());
}
