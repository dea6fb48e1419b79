//! Validated affine points on the two pairing groups, and the pairing
//! itself.
//!
//! A point is a tuple of validated base-field coordinates; no on-curve or
//! subgroup check is performed (a documented gap of this interface, kept
//! as such), and the point-at-infinity cannot be represented. The pairing
//! consumes one G1 and one G2 point and yields an extension-field
//! element; it is a pure function of the coordinate bytes, but its final
//! exponentiation can degenerate on coordinates that lie off the curve,
//! which is reported as an error instead of a result.

use vstd::prelude::*;
use core::iter::once;
use ark_bls12_377::{Bls12_377, Fq, Fq2, G1Affine, G2Affine};
use ark_ec::PairingEngine;
use ark_serialize::{CanonicalDeserialize, CanonicalSerialize};
use crate::codec::chunk_swap;
use crate::decimal::decimal_canonical;
use crate::ext_field::{fq12_decodes, ExtensionFieldElement};
use crate::field::{field_bytes_ok, fp_decodes, fp_of_decimal, FieldElement};
use crate::HostError;

verus! {

/// The canonical little-endian serialization of the pairing of the G1
/// point `(px, py)` and the G2 point `((qx0, qx1), (qy0, qy1))`, or
/// `None` when the final exponentiation degenerates (possible only for
/// coordinates that do not describe points of the curve groups). The
/// pairing is a pure function of the coordinate bytes.
pub uninterp spec fn pairing_le_spec(
    px: Seq<u8>,
    py: Seq<u8>,
    qx0: Seq<u8>,
    qx1: Seq<u8>,
    qy0: Seq<u8>,
    qy1: Seq<u8>,
) -> Option<Seq<u8>>;

/// Relies on `Fq::deserialize` (each coordinate is canonical by the
/// caller's obligation, so decoding cannot fail), the `G1Affine`,
/// `G2Affine` and `Fq2` constructors (plain construction, no check, the
/// infinity tag always false), `Bls12_377::miller_loop` and
/// `Bls12_377::final_exponentiation` (deterministic; the latter returns
/// `None` exactly when the Miller loop output has no inverse), and
/// `QuadExtField::serialize` (canonical 576-byte output).
#[verifier::external_body]
fn pairing_le(
    px: &[u8],
    py: &[u8],
    qx0: &[u8],
    qx1: &[u8],
    qy0: &[u8],
    qy1: &[u8],
) -> (r: Result<Vec<u8>, HostError>)
    requires
        px@.len() == 48 && fp_decodes(px@),
        py@.len() == 48 && fp_decodes(py@),
        qx0@.len() == 48 && fp_decodes(qx0@),
        qx1@.len() == 48 && fp_decodes(qx1@),
        qy0@.len() == 48 && fp_decodes(qy0@),
        qy1@.len() == 48 && fp_decodes(qy1@),
    ensures
        r is Ok <==> pairing_le_spec(px@, py@, qx0@, qx1@, qy0@, qy1@) is Some,
        r matches Ok(v) ==> {
            &&& Some(v@) == pairing_le_spec(px@, py@, qx0@, qx1@, qy0@, qy1@)
            &&& v@.len() == 576
            &&& fq12_decodes(v@)
        },
        r matches Err(e) ==> e == HostError::InvalidInput,
{
    let x = Fq::deserialize(px).unwrap();
    let y = Fq::deserialize(py).unwrap();
    let x0 = Fq::deserialize(qx0).unwrap();
    let x1 = Fq::deserialize(qx1).unwrap();
    let y0 = Fq::deserialize(qy0).unwrap();
    let y1 = Fq::deserialize(qy1).unwrap();
    let p = G1Affine::new(x, y, false);
    let q = G2Affine::new(Fq2::new(x0, x1), Fq2::new(y0, y1), false);
    let pq = (p.into(), q.into());
    let f = Bls12_377::final_exponentiation(&Bls12_377::miller_loop(once(&pq)))
        .ok_or(HostError::InvalidInput)?;
    let mut w = Vec::new();
    f.serialize(&mut w).unwrap();
    Ok(w)
}

/// A validated affine point of G1: a pair of base-field coordinates,
/// never the point at infinity.
pub struct AffinePointG1 {
    x: FieldElement,
    y: FieldElement,
}

impl View for AffinePointG1 {
    type V = (Seq<u8>, Seq<u8>);

    closed spec fn view(&self) -> (Seq<u8>, Seq<u8>) {
        (self.x@, self.y@)
    }
}

impl AffinePointG1 {
    pub open spec fn wf(&self) -> bool {
        field_bytes_ok(self@.0) && field_bytes_ok(self@.1)
    }

    /// Serializes the point back to its two canonical coordinate buffers.
    /// Never fails; returns exactly the bytes the point was built from.
    pub fn to_coordinate_bytes(&self) -> (r: (Vec<u8>, Vec<u8>))
        ensures
            r.0@ == self@.0,
            r.1@ == self@.1,
    {
        (self.x.to_bytes(), self.y.to_bytes())
    }
}

/// A coordinate of a G2 point: an element of the quadratic extension of
/// the base field, a pair of base-field elements.
pub struct QuadExtElement {
    c0: FieldElement,
    c1: FieldElement,
}

impl View for QuadExtElement {
    type V = (Seq<u8>, Seq<u8>);

    closed spec fn view(&self) -> (Seq<u8>, Seq<u8>) {
        (self.c0@, self.c1@)
    }
}

impl QuadExtElement {
    pub open spec fn wf(&self) -> bool {
        field_bytes_ok(self@.0) && field_bytes_ok(self@.1)
    }
}

/// A validated affine point of G2: a pair of quadratic-extension
/// coordinates, never the point at infinity.
pub struct AffinePointG2 {
    x: QuadExtElement,
    y: QuadExtElement,
}

impl View for AffinePointG2 {
    type V = ((Seq<u8>, Seq<u8>), (Seq<u8>, Seq<u8>));

    closed spec fn view(&self) -> ((Seq<u8>, Seq<u8>), (Seq<u8>, Seq<u8>)) {
        (self.x@, self.y@)
    }
}

impl AffinePointG2 {
    pub open spec fn wf(&self) -> bool {
        field_bytes_ok(self@.0.0) && field_bytes_ok(self@.0.1) && field_bytes_ok(self@.1.0)
            && field_bytes_ok(self@.1.1)
    }

    /// Serializes the point back to its four canonical coordinate
    /// buffers, X components first. Never fails; returns exactly the
    /// bytes the point was built from.
    pub fn to_coordinate_bytes(&self) -> (r: (Vec<u8>, Vec<u8>, Vec<u8>, Vec<u8>))
        ensures
            r.0@ == self@.0.0,
            r.1@ == self@.0.1,
            r.2@ == self@.1.0,
            r.3@ == self@.1.1,
    {
        (
            self.x.c0.to_bytes(),
            self.x.c1.to_bytes(),
            self.y.c0.to_bytes(),
            self.y.c1.to_bytes(),
        )
    }
}

/// Whether both G1 coordinate buffers are canonical field-element
/// encodings.
pub open spec fn g1_bytes_ok(x: Seq<u8>, y: Seq<u8>) -> bool {
    field_bytes_ok(x) && field_bytes_ok(y)
}

/// Whether all four G2 coordinate buffers are canonical field-element
/// encodings.
pub open spec fn g2_bytes_ok(x0: Seq<u8>, x1: Seq<u8>, y0: Seq<u8>, y1: Seq<u8>) -> bool {
    field_bytes_ok(x0) && field_bytes_ok(x1) && field_bytes_ok(y0) && field_bytes_ok(y1)
}

/// The canonical byte encoding of the field element denoted by the
/// canonical decimal string `s`.
pub open spec fn coord_of_decimal(s: Seq<char>) -> Seq<u8> {
    chunk_swap(fp_of_decimal(s))
}

/// One pairing call's operands: a validated G1 point and a validated G2
/// point, built once, consumed by `pair`, then discarded.
pub struct CurveWrapper {
    p: AffinePointG1,
    q: AffinePointG2,
}

impl View for CurveWrapper {
    type V = ((Seq<u8>, Seq<u8>), ((Seq<u8>, Seq<u8>), (Seq<u8>, Seq<u8>)));

    closed spec fn view(&self) -> ((Seq<u8>, Seq<u8>), ((Seq<u8>, Seq<u8>), (Seq<u8>, Seq<u8>))) {
        (self.p@, self.q@)
    }
}

/// The canonical caller-facing encoding of the pairing of the points with
/// canonical coordinate encodings `p` and `q`, or `None` when the final
/// exponentiation degenerates.
pub open spec fn pairing_spec(
    p: (Seq<u8>, Seq<u8>),
    q: ((Seq<u8>, Seq<u8>), (Seq<u8>, Seq<u8>)),
) -> Option<Seq<u8>> {
    match pairing_le_spec(
        chunk_swap(p.0),
        chunk_swap(p.1),
        chunk_swap(q.0.0),
        chunk_swap(q.0.1),
        chunk_swap(q.1.0),
        chunk_swap(q.1.1),
    ) {
        Some(le) => Some(chunk_swap(le)),
        None => None,
    }
}

impl CurveWrapper {
    pub open spec fn wf(&self) -> bool {
        g1_bytes_ok(self@.0.0, self@.0.1)
            && g2_bytes_ok(self@.1.0.0, self@.1.0.1, self@.1.1.0, self@.1.1.1)
    }

    /// Decodes two canonical coordinate buffers into a validated G1
    /// point. Succeeds exactly when both coordinates decode; any failure
    /// is reported as `InvalidInput`.
    pub fn to_affine_g1(x: &[u8], y: &[u8]) -> (r: Result<AffinePointG1, HostError>)
        ensures
            r is Ok <==> g1_bytes_ok(x@, y@),
            r matches Ok(p) ==> p@ == (x@, y@) && p.wf(),
            r matches Err(e) ==> e == HostError::InvalidInput,
    {
        let x = FieldElement::from_bytes(x)?;
        let y = FieldElement::from_bytes(y)?;
        Ok(AffinePointG1 { x, y })
    }

    /// Decodes four canonical coordinate buffers into a validated G2
    /// point; the first two buffers form the X coordinate, the last two
    /// the Y coordinate. Succeeds exactly when all four decode; any
    /// failure is reported as `InvalidInput`.
    pub fn to_affine_g2(
        x_c0: &[u8],
        x_c1: &[u8],
        y_c0: &[u8],
        y_c1: &[u8],
    ) -> (r: Result<AffinePointG2, HostError>)
        ensures
            r is Ok <==> g2_bytes_ok(x_c0@, x_c1@, y_c0@, y_c1@),
            r matches Ok(q) ==> q@ == ((x_c0@, x_c1@), (y_c0@, y_c1@)) && q.wf(),
            r matches Err(e) ==> e == HostError::InvalidInput,
    {
        let x0 = FieldElement::from_bytes(x_c0)?;
        let x1 = FieldElement::from_bytes(x_c1)?;
        let y0 = FieldElement::from_bytes(y_c0)?;
        let y1 = FieldElement::from_bytes(y_c1)?;
        Ok(AffinePointG2 {
            x: QuadExtElement { c0: x0, c1: x1 },
            y: QuadExtElement { c0: y0, c1: y1 },
        })
    }

    /// Decodes two canonical decimal numeric strings into a validated G1
    /// point: the string calling convention of the point builder.
    pub fn to_affine_g1_decimal(x: &str, y: &str) -> (r: Result<AffinePointG1, HostError>)
        ensures
            r is Ok <==> decimal_canonical(x@) && decimal_canonical(y@),
            r matches Ok(p) ==> p@ == (coord_of_decimal(x@), coord_of_decimal(y@)) && p.wf(),
            r matches Err(e) ==> e == HostError::InvalidInput,
    {
        let x = FieldElement::from_decimal(x)?;
        let y = FieldElement::from_decimal(y)?;
        Ok(AffinePointG1 { x, y })
    }

    /// Decodes four canonical decimal numeric strings into a validated G2
    /// point; the first two strings form the X coordinate, the last two
    /// the Y coordinate.
    pub fn to_affine_g2_decimal(
        x_c0: &str,
        x_c1: &str,
        y_c0: &str,
        y_c1: &str,
    ) -> (r: Result<AffinePointG2, HostError>)
        ensures
            r is Ok <==> decimal_canonical(x_c0@) && decimal_canonical(x_c1@)
                && decimal_canonical(y_c0@) && decimal_canonical(y_c1@),
            r matches Ok(q) ==> q@ == (
                (coord_of_decimal(x_c0@), coord_of_decimal(x_c1@)),
                (coord_of_decimal(y_c0@), coord_of_decimal(y_c1@)),
            ) && q.wf(),
            r matches Err(e) ==> e == HostError::InvalidInput,
    {
        let x0 = FieldElement::from_decimal(x_c0)?;
        let x1 = FieldElement::from_decimal(x_c1)?;
        let y0 = FieldElement::from_decimal(y_c0)?;
        let y1 = FieldElement::from_decimal(y_c1)?;
        Ok(AffinePointG2 {
            x: QuadExtElement { c0: x0, c1: x1 },
            y: QuadExtElement { c0: y0, c1: y1 },
        })
    }

    /// Builds the operands of one pairing call from raw coordinate
    /// buffers: two for the G1 point, four for the G2 point. Succeeds
    /// exactly when every coordinate decodes canonically.
    pub fn build(p: [Vec<u8>; 2], q: [Vec<u8>; 4]) -> (r: Result<CurveWrapper, HostError>)
        ensures
            r is Ok <==> g1_bytes_ok(p@[0]@, p@[1]@) && g2_bytes_ok(q@[0]@, q@[1]@, q@[2]@, q@[3]@),
            r matches Ok(w) ==> w@ == ((p@[0]@, p@[1]@), ((q@[0]@, q@[1]@), (q@[2]@, q@[3]@)))
                && w.wf(),
            r matches Err(e) ==> e == HostError::InvalidInput,
    {
        let g1 = Self::to_affine_g1(p[0].as_slice(), p[1].as_slice())?;
        let g2 = Self::to_affine_g2(
            q[0].as_slice(),
            q[1].as_slice(),
            q[2].as_slice(),
            q[3].as_slice(),
        )?;
        Ok(CurveWrapper { p: g1, q: g2 })
    }

    /// Builds the operands of one pairing call from decimal coordinate
    /// strings: two for the G1 point, four for the G2 point. Succeeds
    /// exactly when every string is a canonical decimal field-element
    /// encoding.
    pub fn build_decimal(p: [String; 2], q: [String; 4]) -> (r: Result<CurveWrapper, HostError>)
        ensures
            r is Ok <==> {
                &&& decimal_canonical(p@[0]@) && decimal_canonical(p@[1]@)
                &&& decimal_canonical(q@[0]@) && decimal_canonical(q@[1]@)
                &&& decimal_canonical(q@[2]@) && decimal_canonical(q@[3]@)
            },
            r matches Ok(w) ==> w@ == (
                (coord_of_decimal(p@[0]@), coord_of_decimal(p@[1]@)),
                (
                    (coord_of_decimal(q@[0]@), coord_of_decimal(q@[1]@)),
                    (coord_of_decimal(q@[2]@), coord_of_decimal(q@[3]@)),
                ),
            ) && w.wf(),
            r matches Err(e) ==> e == HostError::InvalidInput,
    {
        let g1 = Self::to_affine_g1_decimal(p[0].as_str(), p[1].as_str())?;
        let g2 = Self::to_affine_g2_decimal(
            q[0].as_str(),
            q[1].as_str(),
            q[2].as_str(),
            q[3].as_str(),
        )?;
        Ok(CurveWrapper { p: g1, q: g2 })
    }

    /// Computes the bilinear pairing of the held points. The result is a
    /// pure function of the coordinate bytes; the only failure, reported
    /// as `InvalidInput`, is a degenerate final exponentiation, which
    /// cannot occur for points of the curve groups.
    pub fn pair(&self) -> (r: Result<ExtensionFieldElement, HostError>)
        requires
            self.wf(),
        ensures
            r is Ok <==> pairing_spec(self@.0, self@.1) is Some,
            r matches Ok(f) ==> Some(f@) == pairing_spec(self@.0, self@.1) && f.wf(),
            r matches Err(e) ==> e == HostError::InvalidInput,
    {
        let px = self.p.x.to_le_bytes();
        let py = self.p.y.to_le_bytes();
        let qx0 = self.q.x.c0.to_le_bytes();
        let qx1 = self.q.x.c1.to_le_bytes();
        let qy0 = self.q.y.c0.to_le_bytes();
        let qy1 = self.q.y.c1.to_le_bytes();
        match pairing_le(
            px.as_slice(),
            py.as_slice(),
            qx0.as_slice(),
            qx1.as_slice(),
            qy0.as_slice(),
            qy1.as_slice(),
        ) {
            Ok(v) => Ok(ExtensionFieldElement::from_le_bytes(v)),
            Err(e) => Err(e),
        }
    }
}

} // verus!
