//! Byte-order conversion between the caller-facing canonical encoding and
//! the arithmetic library's native one.
//!
//! Every serialized value handled by this crate is a concatenation of
//! 48-byte base-field coefficients. The canonical encoding presented to
//! callers is big-endian within each coefficient; the arithmetic library
//! reads and writes each coefficient little-endian. `chunk_swap` is the
//! (self-inverse) map between the two.

use vstd::prelude::*;
use vstd::arithmetic::div_mod::{lemma_fundamental_div_mod, lemma_fundamental_div_mod_converse};

verus! {

/// The number of bytes in one serialized base-field coefficient.
pub const COEFF_BYTES: usize = 48;

/// Reverses the byte order inside each aligned 48-byte block. On inputs
/// whose length is a multiple of 48 this converts between the big-endian
/// canonical encoding and the library-native little-endian one, in either
/// direction.
pub open spec fn chunk_swap(b: Seq<u8>) -> Seq<u8> {
    Seq::new(b.len(), |i: int| b[48 * (i / 48) + 47 - (i % 48)])
}

/// `chunk_swap` is its own inverse on block-aligned buffers.
pub proof fn lemma_chunk_swap_involution(b: Seq<u8>)
    requires
        b.len() % 48 == 0,
    ensures
        chunk_swap(chunk_swap(b)) == b,
{
    assert forall|i: int| 0 <= i < b.len() implies chunk_swap(chunk_swap(b))[i] == b[i] by {
        let j = 48 * (i / 48) + 47 - (i % 48);
        lemma_fundamental_div_mod(i, 48);
        lemma_fundamental_div_mod(b.len() as int, 48);
        assert(0 <= i % 48 < 48);
        assert(48 * (i / 48) <= i < b.len());
        assert(48 * (i / 48) + 48 <= b.len()) by (nonlinear_arith)
            requires
                48 * (i / 48) <= i < b.len(),
                b.len() == 48 * (b.len() as int / 48),
                i % 48 == i - 48 * (i / 48),
                0 <= i % 48 < 48,
        ;
        assert(0 <= j < b.len());
        lemma_fundamental_div_mod_converse(j, 48, i / 48, 47 - (i % 48));
        assert(j / 48 == i / 48 && j % 48 == 47 - (i % 48));
        assert(48 * (j / 48) + 47 - (j % 48) == i);
    };
    assert(chunk_swap(chunk_swap(b)) =~= b);
}

/// Returns the buffer with the byte order reversed inside each aligned
/// 48-byte block.
pub fn chunk_swapped(b: &[u8]) -> (r: Vec<u8>)
    requires
        b@.len() % 48 == 0,
    ensures
        r@ == chunk_swap(b@),
{
    let n: usize = b.len();
    proof {
        lemma_fundamental_div_mod(n as int, 48);
    }
    let chunks: usize = n / 48;
    let mut r: Vec<u8> = Vec::new();
    let mut c: usize = 0;
    while c < chunks
        invariant
            n == b@.len(),
            n == 48 * chunks,
            c <= chunks,
            r@.len() == 48 * c,
            forall|k: int| 0 <= k < r@.len() ==> r@[k] == chunk_swap(b@)[k],
        decreases chunks - c,
    {
        proof {
            assert(48 * (c as int) + 48 <= 48 * (chunks as int)) by (nonlinear_arith)
                requires
                    (c as int) < chunks as int,
            ;
        }
        let mut j: usize = 0;
        while j < 48
            invariant
                n == b@.len(),
                n == 48 * chunks,
                c < chunks,
                48 * (c as int) + 48 <= n,
                j <= 48,
                r@.len() == 48 * c + j,
                forall|k: int| 0 <= k < r@.len() ==> r@[k] == chunk_swap(b@)[k],
            decreases 48 - j,
        {
            proof {
                let k = 48 * (c as int) + j as int;
                lemma_fundamental_div_mod_converse(k, 48, c as int, j as int);
                assert(chunk_swap(b@)[k] == b@[48 * (c as int) + 47 - j as int]);
            }
            let idx: usize = c * 48 + 47 - j;
            r.push(b[idx]);
            j += 1;
        }
        c += 1;
    }
    proof {
        assert(r@ =~= chunk_swap(b@));
    }
    r
}

} // verus!
