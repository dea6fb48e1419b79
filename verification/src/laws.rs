//! Codec and pipeline laws, stated over the same spec functions the
//! executable contracts use.
//!
//! Round trips: `to_bytes` of each value type returns exactly the bytes
//! the value carries, and each `from_bytes` succeeds precisely on buffers
//! satisfying the type's canonicality predicate, returning a value that
//! carries those same bytes. The lemmas below supply the remaining step:
//! every validly constructed value satisfies its canonicality predicate,
//! so decoding an encoding always returns the original value.
//!
//! Commutativity and the identity law of extension-field multiplication
//! are stated directly in the `ensures` of
//! `ExtensionFieldElement::multiply` and
//! `Host::inner_quad_ext_fields_mul`, where the product is pinned to
//! `gt_mul` of the operand bytes in both orders.

use vstd::prelude::*;
use crate::ext_field::{gt_bytes_ok, ExtensionFieldElement};
use crate::field::{field_bytes_ok, FieldElement};
use crate::points::{g1_bytes_ok, g2_bytes_ok, pairing_spec, AffinePointG1, AffinePointG2, CurveWrapper};

verus! {

/// Round trip for field elements: the bytes of a validly constructed
/// element are a canonical encoding, so `FieldElement::from_bytes`
/// applied to `FieldElement::to_bytes` of the element succeeds and
/// returns an element with the same bytes.
pub proof fn lemma_field_element_round_trip(x: &FieldElement)
    requires
        x.wf(),
    ensures
        field_bytes_ok(x@),
{
}

/// Round trip for extension-field elements: the bytes of a validly
/// constructed element are a canonical encoding, so
/// `ExtensionFieldElement::from_bytes` applied to
/// `ExtensionFieldElement::to_bytes` of the element succeeds and returns
/// an element with the same bytes.
pub proof fn lemma_extension_field_round_trip(x: &ExtensionFieldElement)
    requires
        x.wf(),
    ensures
        gt_bytes_ok(x@),
{
}

/// Round trip for G1 points: both coordinate buffers of a validly
/// constructed point are canonical encodings, so rebuilding the point
/// from its own coordinates through `CurveWrapper::to_affine_g1`
/// succeeds and returns a point with the same coordinates.
pub proof fn lemma_g1_point_round_trip(p: &AffinePointG1)
    requires
        p.wf(),
    ensures
        g1_bytes_ok(p@.0, p@.1),
{
}

/// Round trip for G2 points: all four coordinate buffers of a validly
/// constructed point are canonical encodings, so rebuilding the point
/// from its own coordinates through `CurveWrapper::to_affine_g2`
/// succeeds and returns a point with the same coordinates.
pub proof fn lemma_g2_point_round_trip(q: &AffinePointG2)
    requires
        q.wf(),
    ensures
        g2_bytes_ok(q@.0.0, q@.0.1, q@.1.0, q@.1.1),
{
}

/// Determinism of the pairing: the specified pairing result — to which
/// `CurveWrapper::pair` pins both its success and its output bytes — is a
/// function of the coordinate bytes alone, so two pairing calls on
/// operands with identical coordinates yield identical outcomes,
/// byte for byte.
pub proof fn lemma_pairing_deterministic(w1: &CurveWrapper, w2: &CurveWrapper)
    requires
        w1@ == w2@,
    ensures
        pairing_spec(w1@.0, w1@.1) == pairing_spec(w2@.0, w2@.1),
{
}

} // verus!
