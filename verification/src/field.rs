//! Base prime-field elements of the BLS12-377 curve family.
//!
//! A `FieldElement` is held as its canonical 48-byte big-endian encoding;
//! validity of that encoding (the represented integer lies strictly below
//! the field modulus) is established on construction by the arithmetic
//! library's canonical deserializer and never rechecked.

use vstd::prelude::*;
use vstd::slice::slice_to_vec;
use ark_bls12_377::Fq;
use ark_serialize::{CanonicalDeserialize, CanonicalSerialize};
use std::str::FromStr;
use crate::codec::{chunk_swap, chunk_swapped, lemma_chunk_swap_involution, COEFF_BYTES};
use crate::decimal::{check_decimal_canonical, decimal_canonical};
use crate::{to_host_error, HostError};

verus! {

/// Holds exactly when the arithmetic library's canonical deserializer for
/// a base-field element accepts `b` (little-endian byte order): `b` is 48
/// bytes long and encodes an integer strictly below the field modulus.
pub uninterp spec fn fp_decodes(b: Seq<u8>) -> bool;

/// Relies on `ark_bls12_377::Fq::deserialize`: on a 48-byte input it
/// succeeds exactly when the little-endian value is a canonical field
/// element (strictly below the modulus, top bit clear). The input is only
/// inspected, never kept.
#[verifier::external_body]
fn fp_decode_check(b: &[u8]) -> (r: bool)
    requires
        b@.len() == 48,
    ensures
        r == fp_decodes(b@),
{
    Fq::deserialize(b).is_ok()
}

/// The canonical little-endian serialization of the field element denoted
/// by the canonical decimal string `s`. Parsing is a pure function of the
/// characters alone.
pub uninterp spec fn fp_of_decimal(s: Seq<char>) -> Seq<u8>;

/// Relies on `Fq::from_str` (succeeds on every nonempty all-digit string
/// without unnecessary leading zeros; it reduces the value modulo the
/// field order, but the precondition keeps the value strictly below the
/// modulus, so no reduction happens and the parsed element is exactly the
/// denoted integer) and on `Fq::serialize` (canonical 48-byte
/// little-endian output).
#[verifier::external_body]
fn fp_from_decimal_str(s: &str) -> (r: Vec<u8>)
    requires
        decimal_canonical(s@),
    ensures
        r@ == fp_of_decimal(s@),
        r@.len() == 48,
        fp_decodes(r@),
{
    let f = Fq::from_str(s).unwrap();
    let mut w = Vec::new();
    f.serialize(&mut w).unwrap();
    w
}

/// Whether `b` is the canonical caller-facing (big-endian) encoding of a
/// base-field element.
pub open spec fn field_bytes_ok(b: Seq<u8>) -> bool {
    b.len() == 48 && fp_decodes(chunk_swap(b))
}

/// An element of the base prime field, represented by its canonical
/// big-endian 48-byte encoding.
pub struct FieldElement {
    bytes: Vec<u8>,
}

impl View for FieldElement {
    type V = Seq<u8>;

    closed spec fn view(&self) -> Seq<u8> {
        self.bytes@
    }
}

impl FieldElement {
    /// The representation invariant: the held bytes are a canonical
    /// big-endian field-element encoding.
    pub open spec fn wf(&self) -> bool {
        field_bytes_ok(self@)
    }

    /// Decodes a canonical big-endian byte buffer into a field element.
    /// Succeeds exactly on 48-byte buffers whose value is canonical; any
    /// other input is rejected with `InvalidInput`, never truncated or
    /// wrapped.
    pub fn from_bytes(b: &[u8]) -> (r: Result<FieldElement, HostError>)
        ensures
            r is Ok <==> field_bytes_ok(b@),
            r matches Ok(fe) ==> fe@ == b@ && fe.wf(),
            r matches Err(e) ==> e == HostError::InvalidInput,
    {
        if b.len() != COEFF_BYTES {
            return Err(to_host_error(()));
        }
        let le = chunk_swapped(b);
        if fp_decode_check(le.as_slice()) {
            Ok(FieldElement { bytes: slice_to_vec(b) })
        } else {
            Err(to_host_error(()))
        }
    }

    /// Decodes a canonical decimal numeric string into a field element.
    /// Succeeds exactly on nonempty all-digit strings without unnecessary
    /// leading zeros whose value lies strictly below the field modulus;
    /// any other input — a non-digit character, a redundant leading zero,
    /// an out-of-range value — is rejected with `InvalidInput`, never
    /// silently reduced.
    pub fn from_decimal(s: &str) -> (r: Result<FieldElement, HostError>)
        ensures
            r is Ok <==> decimal_canonical(s@),
            r matches Ok(fe) ==> fe@ == chunk_swap(fp_of_decimal(s@)) && fe.wf(),
            r matches Err(e) ==> e == HostError::InvalidInput,
    {
        if !check_decimal_canonical(s) {
            return Err(to_host_error(()));
        }
        let le = fp_from_decimal_str(s);
        proof {
            lemma_chunk_swap_involution(le@);
        }
        let be = chunk_swapped(le.as_slice());
        Ok(FieldElement { bytes: be })
    }

    /// Serializes the element back to its canonical big-endian encoding.
    /// Never fails; returns exactly the bytes the element was built from.
    pub fn to_bytes(&self) -> (r: Vec<u8>)
        ensures
            r@ == self@,
    {
        slice_to_vec(self.bytes.as_slice())
    }

    /// The canonical little-endian form of the element, as the arithmetic
    /// library consumes it.
    pub(crate) fn to_le_bytes(&self) -> (r: Vec<u8>)
        requires
            self.wf(),
        ensures
            r@ == chunk_swap(self@),
            fp_decodes(r@),
    {
        chunk_swapped(self.bytes.as_slice())
    }
}

} // verus!
