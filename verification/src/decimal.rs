//! Canonical decimal-string encoding of base-field elements.
//!
//! The string calling convention accepts one decimal numeric literal per
//! coordinate. A literal is canonical when it is nonempty, consists of
//! decimal digits only, carries no unnecessary leading zero, and denotes
//! an integer strictly below the field modulus; with digits and no
//! leading zeros, the value bound is exactly the length/lexicographic
//! bound against the modulus's own 114-digit decimal encoding, which is
//! how it is stated and checked here.

use vstd::prelude::*;

verus! {

/// The decimal encoding of the base-field modulus.
pub open spec fn fq_modulus_dec() -> Seq<char> {
    "258664426012969094010652733694893533536393512754914660539884262666720468348340822774968888139573360124440321458177"@
}

/// Whether `c` is a decimal digit.
pub open spec fn is_digit(c: char) -> bool {
    48 <= c as int <= 57
}

/// Whether every character of `s` is a decimal digit.
pub open spec fn all_digits(s: Seq<char>) -> bool {
    forall|i: int| 0 <= i < s.len() ==> is_digit(s[i])
}

/// Strict lexicographic order on equal-length sequences; false on empty
/// ones. On same-length digit strings this coincides with the order of
/// the denoted integers.
pub open spec fn lex_lt(a: Seq<char>, b: Seq<char>) -> bool
    decreases a.len(),
{
    if a.len() == 0 || b.len() == 0 {
        false
    } else if a[0] != b[0] {
        (a[0] as int) < (b[0] as int)
    } else {
        lex_lt(a.skip(1), b.skip(1))
    }
}

/// Whether the digit string `s` (no unnecessary leading zeros) denotes an
/// integer strictly below the field modulus: shorter than the modulus's
/// decimal encoding, or of equal length and lexicographically below it.
/// That this length/lexicographic rule is exactly the numeric bound is
/// proved in `lemma_below_modulus_dec_is_value_bound`.
pub open spec fn below_modulus_dec(s: Seq<char>) -> bool {
    ||| s.len() < 114
    ||| (s.len() == 114 && lex_lt(s, fq_modulus_dec()))
}

/// The integer a digit character denotes.
pub open spec fn digit_val(c: char) -> int {
    c as int - 48
}

/// The `n`-th power of ten.
pub open spec fn pow10(n: nat) -> int
    decreases n,
{
    if n == 0 {
        1
    } else {
        10 * pow10((n - 1) as nat)
    }
}

/// The integer a digit string denotes, most significant digit first.
pub open spec fn dec_value(s: Seq<char>) -> int
    decreases s.len(),
{
    if s.len() == 0 {
        0
    } else {
        digit_val(s[0]) * pow10((s.len() - 1) as nat) + dec_value(s.skip(1))
    }
}

/// Powers of ten are positive.
pub proof fn lemma_pow10_pos(n: nat)
    ensures
        pow10(n) >= 1,
    decreases n,
{
    if n > 0 {
        lemma_pow10_pos((n - 1) as nat);
    }
}

/// A digit string denotes a nonnegative integer below ten to its length.
pub proof fn lemma_dec_value_bounds(s: Seq<char>)
    requires
        all_digits(s),
    ensures
        0 <= dec_value(s) < pow10(s.len()),
    decreases s.len(),
{
    if s.len() == 0 {
    } else {
        let t = s.skip(1);
        assert(all_digits(t)) by {
            assert(forall|i: int| 0 <= i < t.len() ==> t[i] == s[i + 1]);
        }
        lemma_dec_value_bounds(t);
        let p = pow10((s.len() - 1) as nat);
        lemma_pow10_pos((s.len() - 1) as nat);
        assert(0 <= digit_val(s[0]) <= 9);
        assert(digit_val(s[0]) * p >= 0 && digit_val(s[0]) * p <= 9 * p) by (nonlinear_arith)
            requires
                0 <= digit_val(s[0]) <= 9,
                p >= 1,
        ;
        assert(pow10(s.len()) == 10 * p);
    }
}

/// On equal-length digit strings the lexicographic order is exactly the
/// order of the denoted integers.
pub proof fn lemma_lex_lt_agrees_with_value(a: Seq<char>, b: Seq<char>)
    requires
        a.len() == b.len(),
        all_digits(a),
        all_digits(b),
    ensures
        lex_lt(a, b) <==> dec_value(a) < dec_value(b),
    decreases a.len(),
{
    if a.len() == 0 {
    } else {
        let ta = a.skip(1);
        let tb = b.skip(1);
        assert(all_digits(ta) && all_digits(tb)) by {
            assert(forall|i: int| 0 <= i < ta.len() ==> ta[i] == a[i + 1]);
            assert(forall|i: int| 0 <= i < tb.len() ==> tb[i] == b[i + 1]);
        }
        lemma_dec_value_bounds(ta);
        lemma_dec_value_bounds(tb);
        let p = pow10((a.len() - 1) as nat);
        lemma_pow10_pos((a.len() - 1) as nat);
        if a[0] == b[0] {
            lemma_lex_lt_agrees_with_value(ta, tb);
        } else {
            assert(digit_val(a[0]) != digit_val(b[0]));
            assert((digit_val(a[0]) < digit_val(b[0])) ==> (digit_val(a[0]) * p + dec_value(ta)
                < digit_val(b[0]) * p + dec_value(tb))) by (nonlinear_arith)
                requires
                    p >= 1,
                    0 <= dec_value(ta) < p,
                    0 <= dec_value(tb) < p,
            ;
            assert((digit_val(a[0]) > digit_val(b[0])) ==> (digit_val(a[0]) * p + dec_value(ta)
                > digit_val(b[0]) * p + dec_value(tb))) by (nonlinear_arith)
                requires
                    p >= 1,
                    0 <= dec_value(ta) < p,
                    0 <= dec_value(tb) < p,
            ;
        }
    }
}

/// A digit string that is shorter than a digit string without a leading
/// zero denotes a strictly smaller integer.
pub proof fn lemma_shorter_decimal_is_smaller(a: Seq<char>, b: Seq<char>)
    requires
        all_digits(a),
        all_digits(b),
        b.len() > 0,
        b[0] != '0',
        a.len() < b.len(),
    ensures
        dec_value(a) < dec_value(b),
{
    lemma_dec_value_bounds(a);
    let tb = b.skip(1);
    assert(all_digits(tb)) by {
        assert(forall|i: int| 0 <= i < tb.len() ==> tb[i] == b[i + 1]);
    }
    lemma_dec_value_bounds(tb);
    let p = pow10((b.len() - 1) as nat);
    lemma_pow10_pos((b.len() - 1) as nat);
    assert(digit_val(b[0]) >= 1);
    assert(digit_val(b[0]) * p >= p) by (nonlinear_arith)
        requires
            digit_val(b[0]) >= 1,
            p >= 1,
    ;
    lemma_pow10_increases(a.len(), (b.len() - 1) as nat);
}

/// Powers of ten do not decrease with the exponent.
pub proof fn lemma_pow10_increases(m: nat, n: nat)
    requires
        m <= n,
    ensures
        pow10(m) <= pow10(n),
    decreases n,
{
    if m < n {
        lemma_pow10_increases(m, (n - 1) as nat);
        lemma_pow10_pos((n - 1) as nat);
    }
}

/// A canonical digit string denotes an integer strictly below the one the
/// modulus's decimal encoding denotes: the length/lexicographic rule of
/// `below_modulus_dec` is exactly the numeric bound.
pub proof fn lemma_below_modulus_dec_is_value_bound(s: Seq<char>)
    requires
        s.len() > 0,
        all_digits(s),
        s.len() == 1 || s[0] != '0',
    ensures
        below_modulus_dec(s) <==> dec_value(s) < dec_value(fq_modulus_dec()),
{
    let m = fq_modulus_dec();
    reveal_strlit(
        "258664426012969094010652733694893533536393512754914660539884262666720468348340822774968888139573360124440321458177",
    );
    assert(m.len() == 114);
    assert(all_digits(m)) by {
        assert forall|i: int| 0 <= i < m.len() implies is_digit(m[i]) by {
            assert(is_digit(m[i]));
        }
    }
    assert(m[0] == '2');
    if s.len() < 114 {
        lemma_shorter_decimal_is_smaller(s, m);
    } else if s.len() == 114 {
        lemma_lex_lt_agrees_with_value(s, m);
    } else {
        lemma_shorter_decimal_is_smaller(m, s);
    }
}

/// Whether `s` is the canonical decimal encoding of a base-field element:
/// nonempty, digits only, no unnecessary leading zero, value strictly
/// below the modulus.
pub open spec fn decimal_canonical(s: Seq<char>) -> bool {
    &&& s.len() > 0
    &&& all_digits(s)
    &&& (s.len() == 1 || s[0] != '0')
    &&& below_modulus_dec(s)
}

/// Decides `decimal_canonical` for a string slice.
pub fn check_decimal_canonical(s: &str) -> (r: bool)
    ensures
        r == decimal_canonical(s@),
{
    let n = s.unicode_len();
    if n == 0 {
        return false;
    }
    let mut i: usize = 0;
    while i < n
        invariant
            n == s@.len(),
            i <= n,
            forall|k: int| 0 <= k < i ==> is_digit(s@[k]),
        decreases n - i,
    {
        let c = s.get_char(i);
        if (c as u32) < 48 || (c as u32) > 57 {
            return false;
        }
        i += 1;
    }
    if n > 1 && (s.get_char(0) as u32) == 48 {
        return false;
    }
    if n < 114 {
        return true;
    }
    if n > 114 {
        return false;
    }
    let m: &str = "258664426012969094010652733694893533536393512754914660539884262666720468348340822774968888139573360124440321458177";
    proof {
        reveal_strlit(
            "258664426012969094010652733694893533536393512754914660539884262666720468348340822774968888139573360124440321458177",
        );
        assert(s@.skip(0) =~= s@);
        assert(m@.skip(0) =~= m@);
    }
    let mut j: usize = 0;
    while j < 114
        invariant
            n == s@.len(),
            n == 114,
            all_digits(s@),
            s@[0] != '0',
            m@ == fq_modulus_dec(),
            m@.len() == 114,
            j <= 114,
            lex_lt(s@, m@) == lex_lt(s@.skip(j as int), m@.skip(j as int)),
        decreases 114 - j,
    {
        let cs = s.get_char(j);
        let cm = m.get_char(j);
        proof {
            assert(s@.skip(j as int)[0] == s@[j as int]);
            assert(m@.skip(j as int)[0] == m@[j as int]);
            assert(s@.skip(j as int).len() > 0);
            assert(m@.skip(j as int).len() > 0);
        }
        if (cs as u32) < (cm as u32) {
            proof {
                assert((cs as int) < (cm as int));
                assert(cs != cm);
                assert(lex_lt(s@.skip(j as int), m@.skip(j as int)));
            }
            return true;
        }
        if (cs as u32) != (cm as u32) {
            proof {
                assert((cs as int) > (cm as int));
                assert(!lex_lt(s@.skip(j as int), m@.skip(j as int)));
            }
            return false;
        }
        proof {
            assert(s@.skip(j as int).skip(1) =~= s@.skip(j as int + 1));
            assert(m@.skip(j as int).skip(1) =~= m@.skip(j as int + 1));
        }
        j += 1;
    }
    proof {
        assert(s@.skip(114).len() == 0);
    }
    false
}

} // verus!

