//! Elements of the degree-12 extension field GT, the pairing's target
//! group and the operand type of field multiplication.
//!
//! An `ExtensionFieldElement` is held as its canonical 576-byte encoding:
//! twelve base-field coefficients of 48 bytes each, each coefficient
//! big-endian. The arithmetic library consumes and produces the same
//! twelve coefficients little-endian; `chunk_swap` converts between the
//! two orders.

use vstd::prelude::*;
use vstd::slice::slice_to_vec;
use ark_ff::{Fp12ParamsWrapper, QuadExtField};
use ark_bls12_377::{Fq12, Fq12Parameters};
use ark_serialize::{CanonicalDeserialize, CanonicalSerialize};
use std::ops::MulAssign;
use crate::codec::{chunk_swap, chunk_swapped, lemma_chunk_swap_involution};
use crate::{to_host_error, HostError};

verus! {

/// The number of bytes in one serialized extension-field element:
/// twelve 48-byte base-field coefficients.
pub const GT_BYTES: usize = 576;

/// Holds exactly when the arithmetic library's canonical deserializer for
/// a degree-12 extension-field element accepts `b` (little-endian
/// coefficients): `b` is 576 bytes long and every 48-byte coefficient
/// encodes an integer strictly below the base-field modulus.
pub uninterp spec fn fq12_decodes(b: Seq<u8>) -> bool;

/// The canonical little-endian serialization of the product of the two
/// extension-field elements serialized in `a` and `b`. Field
/// multiplication is a pure function of its operands, so the encoding of
/// the product is one too.
pub uninterp spec fn fq12_mul_le(a: Seq<u8>, b: Seq<u8>) -> Seq<u8>;

/// The canonical little-endian serialization of the multiplicative
/// identity of the extension field: the constant coefficient is one, all
/// other coefficients are zero.
pub open spec fn fq12_one_le() -> Seq<u8> {
    Seq::new(576, |i: int| if i == 0 { 1u8 } else { 0u8 })
}

/// Relies on `QuadExtField::<Fp12ParamsWrapper<Fq12Parameters>>::deserialize`:
/// on a 576-byte input it succeeds exactly when all twelve 48-byte
/// coefficients are canonical base-field encodings. The input is only
/// inspected, never kept.
#[verifier::external_body]
fn fq12_decode_check(b: &[u8]) -> (r: bool)
    requires
        b@.len() == 576,
    ensures
        r == fq12_decodes(b@),
{
    QuadExtField::<Fp12ParamsWrapper<Fq12Parameters>>::deserialize(b).is_ok()
}

/// Relies on `QuadExtField::deserialize`, `MulAssign` and
/// `QuadExtField::serialize` for the degree-12 extension field:
/// deserializing a canonical encoding cannot fail and serializing again
/// returns the same bytes, multiplication is the field product
/// (commutative, with the serialized identity as neutral element), and
/// serialization of any element is canonical and 576 bytes long.
#[verifier::external_body]
fn fq12_mul_canonical(a: &[u8], b: &[u8]) -> (r: Vec<u8>)
    requires
        a@.len() == 576,
        b@.len() == 576,
        fq12_decodes(a@),
        fq12_decodes(b@),
    ensures
        r@ == fq12_mul_le(a@, b@),
        r@ == fq12_mul_le(b@, a@),
        r@.len() == 576,
        fq12_decodes(r@),
        a@ == fq12_one_le() ==> r@ == b@,
        b@ == fq12_one_le() ==> r@ == a@,
{
    let mut lhs: Fq12 = QuadExtField::deserialize(a).unwrap();
    let rhs: Fq12 = QuadExtField::deserialize(b).unwrap();
    lhs.mul_assign(rhs);
    let mut writer = Vec::new();
    lhs.serialize(&mut writer).unwrap();
    writer
}

/// Whether `b` is the canonical caller-facing (big-endian coefficients)
/// encoding of an extension-field element.
pub open spec fn gt_bytes_ok(b: Seq<u8>) -> bool {
    b.len() == 576 && fq12_decodes(chunk_swap(b))
}

/// The canonical caller-facing encoding of the product of the elements
/// encoded by `a` and `b`.
pub open spec fn gt_mul(a: Seq<u8>, b: Seq<u8>) -> Seq<u8> {
    chunk_swap(fq12_mul_le(chunk_swap(a), chunk_swap(b)))
}

/// The canonical caller-facing encoding of the multiplicative identity:
/// the constant coefficient (big-endian, so its low byte is at offset 47)
/// is one, everything else is zero.
pub open spec fn gt_one() -> Seq<u8> {
    Seq::new(576, |i: int| if i == 47 { 1u8 } else { 0u8 })
}

/// The two encodings of the identity element correspond under the
/// coefficient byte-order swap.
pub proof fn lemma_gt_one_swap()
    ensures
        chunk_swap(gt_one()) == fq12_one_le(),
{
    assert forall|i: int| 0 <= i < 576 implies chunk_swap(gt_one())[i] == fq12_one_le()[i] by {
        vstd::arithmetic::div_mod::lemma_fundamental_div_mod(i, 48);
        let j = 48 * (i / 48) + 47 - (i % 48);
        if i == 0 {
            assert(j == 47);
        } else {
            assert(j != 47) by (nonlinear_arith)
                requires
                    j == 48 * (i / 48) + 47 - (i % 48),
                    i == 48 * (i / 48) + (i % 48),
                    0 <= i % 48 < 48,
                    0 < i < 576,
            ;
        }
    };
    assert(chunk_swap(gt_one()) =~= fq12_one_le());
}

/// An element of the degree-12 extension field, represented by its
/// canonical 576-byte encoding.
pub struct ExtensionFieldElement {
    bytes: Vec<u8>,
}

impl View for ExtensionFieldElement {
    type V = Seq<u8>;

    closed spec fn view(&self) -> Seq<u8> {
        self.bytes@
    }
}

impl ExtensionFieldElement {
    /// The representation invariant: the held bytes are a canonical
    /// extension-field encoding.
    pub open spec fn wf(&self) -> bool {
        gt_bytes_ok(self@)
    }

    /// Decodes a canonical byte buffer into an extension-field element.
    /// Succeeds exactly on 576-byte buffers all of whose coefficients are
    /// canonical; any other input is rejected with `InvalidInput`, never
    /// padded or truncated.
    pub fn from_bytes(b: &[u8]) -> (r: Result<ExtensionFieldElement, HostError>)
        ensures
            r is Ok <==> gt_bytes_ok(b@),
            r matches Ok(fe) ==> fe@ == b@ && fe.wf(),
            r matches Err(e) ==> e == HostError::InvalidInput,
    {
        if b.len() != GT_BYTES {
            return Err(to_host_error(()));
        }
        let le = chunk_swapped(b);
        if fq12_decode_check(le.as_slice()) {
            Ok(ExtensionFieldElement { bytes: slice_to_vec(b) })
        } else {
            Err(to_host_error(()))
        }
    }

    /// Builds an element directly from its library-native little-endian
    /// serialization, converting it to the canonical byte order.
    pub(crate) fn from_le_bytes(le: Vec<u8>) -> (r: ExtensionFieldElement)
        requires
            le@.len() == 576,
            fq12_decodes(le@),
        ensures
            r@ == chunk_swap(le@),
            r.wf(),
    {
        let be = chunk_swapped(le.as_slice());
        proof {
            lemma_chunk_swap_involution(le@);
        }
        ExtensionFieldElement { bytes: be }
    }

    /// Serializes the element back to its canonical encoding. Never
    /// fails; returns exactly the bytes the element was built from.
    pub fn to_bytes(&self) -> (r: Vec<u8>)
        ensures
            r@ == self@,
    {
        slice_to_vec(self.bytes.as_slice())
    }

    /// Multiplies two extension-field elements. The product is a pure
    /// function of the operands, multiplication is commutative, and the
    /// encoded multiplicative identity is neutral on either side; neither
    /// operand is changed.
    pub fn multiply(&self, other: &ExtensionFieldElement) -> (r: ExtensionFieldElement)
        requires
            self.wf(),
            other.wf(),
        ensures
            r@ == gt_mul(self@, other@),
            r@ == gt_mul(other@, self@),
            r.wf(),
            other@ == gt_one() ==> r@ == self@,
            self@ == gt_one() ==> r@ == other@,
    {
        let a_le = self.to_le_bytes();
        let b_le = other.to_le_bytes();
        let prod = fq12_mul_canonical(a_le.as_slice(), b_le.as_slice());
        proof {
            lemma_gt_one_swap();
            if other@ == gt_one() {
                lemma_chunk_swap_involution(self@);
            }
            if self@ == gt_one() {
                lemma_chunk_swap_involution(other@);
            }
        }
        ExtensionFieldElement::from_le_bytes(prod)
    }

    /// The canonical little-endian form of the element, as the arithmetic
    /// library consumes it.
    pub(crate) fn to_le_bytes(&self) -> (r: Vec<u8>)
        requires
            self.wf(),
        ensures
            r@ == chunk_swap(self@),
            fq12_decodes(r@),
            r@.len() == 576,
    {
        chunk_swapped(self.bytes.as_slice())
    }
}

} // verus!
