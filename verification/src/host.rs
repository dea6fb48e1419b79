//! The two host operations exposed to the contract execution environment:
//! pairing evaluation over raw coordinate buffers, and extension-field
//! multiplication over raw operand buffers.
//!
//! The surrounding environment owns object-handle tables, gas metering and
//! result surfacing; it hands this module plain byte buffers and takes
//! plain byte buffers back.

use vstd::prelude::*;
use crate::decimal::decimal_canonical;
use crate::ext_field::{gt_bytes_ok, gt_mul, gt_one, ExtensionFieldElement};
use crate::points::{coord_of_decimal, g1_bytes_ok, g2_bytes_ok, pairing_spec, CurveWrapper};
use crate::HostError;

verus! {

/// The host-side entry facade. It holds no state: every operation is a
/// pure function of the byte buffers it is handed.
pub struct Host;

impl Host {
    /// Computes the pairing of the G1 point given by two coordinate
    /// buffers and the G2 point given by four, and returns the canonical
    /// serialization of the resulting extension-field element.
    ///
    /// Fails with `InvalidInput` exactly when some coordinate buffer is
    /// not a canonical field-element encoding, or — possible only for
    /// coordinates lying off the curve groups, which are never rejected
    /// up front — when the final exponentiation degenerates.
    pub fn inner_bls12_377_pairing(&self, p: [Vec<u8>; 2], q: [Vec<u8>; 4]) -> (r: Result<
        Vec<u8>,
        HostError,
    >)
        ensures
            r is Ok <==> {
                &&& g1_bytes_ok(p@[0]@, p@[1]@)
                &&& g2_bytes_ok(q@[0]@, q@[1]@, q@[2]@, q@[3]@)
                &&& pairing_spec((p@[0]@, p@[1]@), ((q@[0]@, q@[1]@), (q@[2]@, q@[3]@))) is Some
            },
            r matches Ok(v) ==> Some(v@) == pairing_spec(
                (p@[0]@, p@[1]@),
                ((q@[0]@, q@[1]@), (q@[2]@, q@[3]@)),
            ) && gt_bytes_ok(v@),
            r matches Err(e) ==> e == HostError::InvalidInput,
    {
        let wrapper = CurveWrapper::build(p, q)?;
        let result = wrapper.pair()?;
        Ok(result.to_bytes())
    }

    /// The string-variant pairing entry point: like
    /// `inner_bls12_377_pairing`, but each coordinate arrives as a
    /// canonical decimal numeric string instead of a byte buffer.
    pub fn inner_bls12_377_pairing_decimal(&self, p: [String; 2], q: [String; 4]) -> (r: Result<
        Vec<u8>,
        HostError,
    >)
        ensures
            r is Ok <==> {
                &&& decimal_canonical(p@[0]@) && decimal_canonical(p@[1]@)
                &&& decimal_canonical(q@[0]@) && decimal_canonical(q@[1]@)
                &&& decimal_canonical(q@[2]@) && decimal_canonical(q@[3]@)
                &&& pairing_spec(
                    (coord_of_decimal(p@[0]@), coord_of_decimal(p@[1]@)),
                    (
                        (coord_of_decimal(q@[0]@), coord_of_decimal(q@[1]@)),
                        (coord_of_decimal(q@[2]@), coord_of_decimal(q@[3]@)),
                    ),
                ) is Some
            },
            r matches Ok(v) ==> Some(v@) == pairing_spec(
                (coord_of_decimal(p@[0]@), coord_of_decimal(p@[1]@)),
                (
                    (coord_of_decimal(q@[0]@), coord_of_decimal(q@[1]@)),
                    (coord_of_decimal(q@[2]@), coord_of_decimal(q@[3]@)),
                ),
            ) && gt_bytes_ok(v@),
            r matches Err(e) ==> e == HostError::InvalidInput,
    {
        let wrapper = CurveWrapper::build_decimal(p, q)?;
        let result = wrapper.pair()?;
        Ok(result.to_bytes())
    }

    /// Multiplies the two extension-field elements serialized in `a` and
    /// `b` and returns the canonical serialization of their product.
    ///
    /// Fails with `InvalidInput` exactly when an operand has the wrong
    /// length or a non-canonical coefficient. The product is a pure
    /// function of the operands, multiplication is commutative, and the
    /// encoded multiplicative identity is neutral on either side; neither
    /// operand is observably changed.
    pub fn inner_quad_ext_fields_mul(&self, a: Vec<u8>, b: Vec<u8>) -> (r: Result<
        Vec<u8>,
        HostError,
    >)
        ensures
            r is Ok <==> gt_bytes_ok(a@) && gt_bytes_ok(b@),
            r matches Ok(v) ==> {
                &&& v@ == gt_mul(a@, b@)
                &&& v@ == gt_mul(b@, a@)
                &&& gt_bytes_ok(v@)
                &&& (b@ == gt_one() ==> v@ == a@)
                &&& (a@ == gt_one() ==> v@ == b@)
            },
            r matches Err(e) ==> e == HostError::InvalidInput,
    {
        let lhs = ExtensionFieldElement::from_bytes(a.as_slice())?;
        let rhs = ExtensionFieldElement::from_bytes(b.as_slice())?;
        let prod = lhs.multiply(&rhs);
        Ok(prod.to_bytes())
    }
}

} // verus!
