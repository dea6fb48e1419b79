use ark_bls12_377::{Bls12_377, Fq, Fq12, G1Affine, G2Affine};
use ark_ec::{AffineCurve, PairingEngine, ProjectiveCurve};
use ark_ff::One;
use ark_serialize::CanonicalSerialize;

use bls12_377_pairing::host::Host;
use bls12_377_pairing::points::CurveWrapper;
use bls12_377_pairing::HostError;

/// Reverses each aligned 48-byte block: converts between the library's
/// big-endian canonical encoding and ark's little-endian one.
fn swapped(le: &[u8]) -> Vec<u8> {
    assert!(le.len() % 48 == 0);
    let mut out = Vec::with_capacity(le.len());
    for chunk in le.chunks(48) {
        out.extend(chunk.iter().rev());
    }
    out
}

/// The canonical big-endian encoding of a base-field element.
fn fq_be(f: &Fq) -> Vec<u8> {
    let mut w = Vec::new();
    f.serialize(&mut w).unwrap();
    swapped(&w)
}

/// The canonical big-endian encoding of an extension-field element.
fn fq12_be(f: &Fq12) -> Vec<u8> {
    let mut w = Vec::new();
    f.serialize(&mut w).unwrap();
    swapped(&w)
}

/// The two canonical coordinate buffers of a G1 point.
fn g1_coords(p: &G1Affine) -> [Vec<u8>; 2] {
    [fq_be(&p.x), fq_be(&p.y)]
}

/// The four canonical coordinate buffers of a G2 point: X first, then Y,
/// each as its two base-field components.
fn g2_coords(q: &G2Affine) -> [Vec<u8>; 4] {
    [fq_be(&q.x.c0), fq_be(&q.x.c1), fq_be(&q.y.c0), fq_be(&q.y.c1)]
}

#[test]
fn pairing_of_generators_matches_reference() {
    let g1 = G1Affine::prime_subgroup_generator();
    let g2 = G2Affine::prime_subgroup_generator();
    let host = Host;
    let got = host
        .inner_bls12_377_pairing(g1_coords(&g1), g2_coords(&g2))
        .unwrap();
    let reference = Bls12_377::pairing(g1, g2);
    assert_eq!(got, fq12_be(&reference));
}

#[test]
fn pairing_is_deterministic() {
    let g1 = G1Affine::prime_subgroup_generator();
    let g2 = G2Affine::prime_subgroup_generator();
    let host = Host;
    let first = host
        .inner_bls12_377_pairing(g1_coords(&g1), g2_coords(&g2))
        .unwrap();
    let second = host
        .inner_bls12_377_pairing(g1_coords(&g1), g2_coords(&g2))
        .unwrap();
    assert_eq!(first, second);
}

#[test]
fn pairing_is_bilinear_on_scalar_multiples() {
    let g1 = G1Affine::prime_subgroup_generator();
    let g2 = G2Affine::prime_subgroup_generator();
    let k: u64 = 5;
    let kp = g1.mul(k).into_affine();
    let kq = g2.mul(k).into_affine();
    let host = Host;
    let left = host
        .inner_bls12_377_pairing(g1_coords(&kp), g2_coords(&g2))
        .unwrap();
    let right = host
        .inner_bls12_377_pairing(g1_coords(&g1), g2_coords(&kq))
        .unwrap();
    assert_eq!(left, right);
    // And both differ from the unscaled pairing.
    let base = host
        .inner_bls12_377_pairing(g1_coords(&g1), g2_coords(&g2))
        .unwrap();
    assert_ne!(left, base);
}

#[test]
fn pairing_rejects_malformed_coordinates() {
    let g1 = G1Affine::prime_subgroup_generator();
    let g2 = G2Affine::prime_subgroup_generator();
    let host = Host;
    // One coordinate truncated by a byte.
    let mut p = g1_coords(&g1);
    p[0].pop();
    assert!(matches!(
        host.inner_bls12_377_pairing(p, g2_coords(&g2)),
        Err(HostError::InvalidInput)
    ));
    // One G2 coordinate extended by a byte.
    let mut q = g2_coords(&g2);
    q[3].push(0);
    assert!(matches!(
        host.inner_bls12_377_pairing(g1_coords(&g1), q),
        Err(HostError::InvalidInput)
    ));
}

#[test]
fn point_builders_validate_each_coordinate() {
    let g1 = G1Affine::prime_subgroup_generator();
    let g2 = G2Affine::prime_subgroup_generator();
    let p = g1_coords(&g1);
    let q = g2_coords(&g2);
    assert!(CurveWrapper::to_affine_g1(&p[0], &p[1]).is_ok());
    assert!(CurveWrapper::to_affine_g2(&q[0], &q[1], &q[2], &q[3]).is_ok());
    assert!(CurveWrapper::to_affine_g1(&p[0], &p[1][..47]).is_err());
    assert!(CurveWrapper::to_affine_g2(&q[0], &q[1], &q[2], &[]).is_err());
    assert!(CurveWrapper::build(p, q).is_ok());
}

#[test]
fn pairing_through_curve_wrapper_matches_host_entry() {
    let g1 = G1Affine::prime_subgroup_generator();
    let g2 = G2Affine::prime_subgroup_generator();
    let wrapper = CurveWrapper::build(g1_coords(&g1), g2_coords(&g2)).unwrap();
    let via_wrapper = wrapper.pair().unwrap().to_bytes();
    let host = Host;
    let via_host = host
        .inner_bls12_377_pairing(g1_coords(&g1), g2_coords(&g2))
        .unwrap();
    assert_eq!(via_wrapper, via_host);
}

#[test]
fn field_multiply_matches_reference() {
    let g1 = G1Affine::prime_subgroup_generator();
    let g2 = G2Affine::prime_subgroup_generator();
    let a = Bls12_377::pairing(g1, g2);
    let b = a * a;
    let host = Host;
    let got = host
        .inner_quad_ext_fields_mul(fq12_be(&a), fq12_be(&b))
        .unwrap();
    assert_eq!(got, fq12_be(&(a * b)));
}

#[test]
fn field_multiply_is_commutative() {
    let g1 = G1Affine::prime_subgroup_generator();
    let g2 = G2Affine::prime_subgroup_generator();
    let a = Bls12_377::pairing(g1, g2);
    let b = a * a;
    let host = Host;
    let left = host
        .inner_quad_ext_fields_mul(fq12_be(&a), fq12_be(&b))
        .unwrap();
    let right = host
        .inner_quad_ext_fields_mul(fq12_be(&b), fq12_be(&a))
        .unwrap();
    assert_eq!(left, right);
}

#[test]
fn field_multiply_by_identity_returns_operand() {
    let g1 = G1Affine::prime_subgroup_generator();
    let g2 = G2Affine::prime_subgroup_generator();
    let a = Bls12_377::pairing(g1, g2);
    let one = fq12_be(&Fq12::one());
    // The encoded identity has a single nonzero byte: the low byte of the
    // first (big-endian) coefficient.
    let mut expected_one = vec![0u8; 576];
    expected_one[47] = 1;
    assert_eq!(one, expected_one);
    let host = Host;
    let right = host
        .inner_quad_ext_fields_mul(fq12_be(&a), one.clone())
        .unwrap();
    assert_eq!(right, fq12_be(&a));
    let left = host.inner_quad_ext_fields_mul(one, fq12_be(&a)).unwrap();
    assert_eq!(left, fq12_be(&a));
}

#[test]
fn field_multiply_rejects_truncated_operand() {
    let g1 = G1Affine::prime_subgroup_generator();
    let g2 = G2Affine::prime_subgroup_generator();
    let a = Bls12_377::pairing(g1, g2);
    let mut short = fq12_be(&a);
    short.pop();
    let host = Host;
    assert!(matches!(
        host.inner_quad_ext_fields_mul(short, fq12_be(&a)),
        Err(HostError::InvalidInput)
    ));
    assert!(matches!(
        host.inner_quad_ext_fields_mul(fq12_be(&a), vec![0u8; 575]),
        Err(HostError::InvalidInput)
    ));
}

#[test]
fn pairing_decimal_variant_accepts_canonical_strings() {
    // Small in-range literals decode through the string convention; the
    // resulting coordinates describe no curve point, so the pairing may
    // degenerate, but decoding itself must not be the failure: the same
    // coordinates given as byte buffers must behave identically.
    let host = Host;
    let p = [String::from("1"), String::from("2")];
    let q = [
        String::from("3"),
        String::from("4"),
        String::from("5"),
        String::from("6"),
    ];
    let via_str = host.inner_bls12_377_pairing_decimal(p, q);
    let pb = [fq_be(&Fq::from(1u64)), fq_be(&Fq::from(2u64))];
    let qb = [
        fq_be(&Fq::from(3u64)),
        fq_be(&Fq::from(4u64)),
        fq_be(&Fq::from(5u64)),
        fq_be(&Fq::from(6u64)),
    ];
    let via_bytes = host.inner_bls12_377_pairing(pb, qb);
    assert_eq!(via_str, via_bytes);
}

#[test]
fn pairing_decimal_variant_rejects_malformed_strings() {
    let host = Host;
    let p = [String::from("1"), String::from("x")];
    let q = [
        String::from("3"),
        String::from("4"),
        String::from("5"),
        String::from("6"),
    ];
    assert!(matches!(
        host.inner_bls12_377_pairing_decimal(p, q),
        Err(HostError::InvalidInput)
    ));
}

#[test]
fn extension_field_byte_round_trip() {
    let g1 = G1Affine::prime_subgroup_generator();
    let g2 = G2Affine::prime_subgroup_generator();
    let a = Bls12_377::pairing(g1, g2);
    let be = fq12_be(&a);
    let fe = bls12_377_pairing::ext_field::ExtensionFieldElement::from_bytes(&be).unwrap();
    assert_eq!(fe.to_bytes(), be);
}

#[test]
fn g1_point_round_trip() {
    let g1 = G1Affine::prime_subgroup_generator();
    let [x, y] = g1_coords(&g1);
    let p = CurveWrapper::to_affine_g1(&x, &y).unwrap();
    let (rx, ry) = p.to_coordinate_bytes();
    assert_eq!(rx, x);
    assert_eq!(ry, y);
    // Rebuilding from the returned coordinates succeeds and agrees.
    let p2 = CurveWrapper::to_affine_g1(&rx, &ry).unwrap();
    let (sx, sy) = p2.to_coordinate_bytes();
    assert_eq!((sx, sy), (rx, ry));
}

#[test]
fn g2_point_round_trip() {
    let g2 = G2Affine::prime_subgroup_generator();
    let [x0, x1, y0, y1] = g2_coords(&g2);
    let q = CurveWrapper::to_affine_g2(&x0, &x1, &y0, &y1).unwrap();
    let (r0, r1, r2, r3) = q.to_coordinate_bytes();
    assert_eq!(r0, x0);
    assert_eq!(r1, x1);
    assert_eq!(r2, y0);
    assert_eq!(r3, y1);
}
