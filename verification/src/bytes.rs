//! Byte-string orderings and comparisons.
//!
//! Fixed-width big-endian byte strings stand for unsigned integers
//! throughout this library; for equal widths the numeric order coincides
//! with the lexicographic order defined here. The module also provides the
//! comparison used on authentication tags, which examines every byte
//! whatever the position of a first mismatch.

use vstd::prelude::*;

verus! {

/// Strict lexicographic order on byte strings. On strings of equal length
/// this is the numeric order of the big-endian unsigned integers they spell.
pub open spec fn lex_lt(a: Seq<u8>, b: Seq<u8>) -> bool
    decreases a.len(),
{
    if a.len() == 0 || b.len() == 0 {
        false
    } else if a.first() != b.first() {
        a.first() < b.first()
    } else {
        lex_lt(a.drop_first(), b.drop_first())
    }
}

/// Every byte is zero.
pub open spec fn is_zero_bytes(a: Seq<u8>) -> bool {
    forall|i: int| 0 <= i < a.len() ==> a[i] == 0
}

/// A first difference at index `i`, smaller on the left, decides the order.
pub proof fn lemma_lex_lt_from_first_difference(a: Seq<u8>, b: Seq<u8>, i: int)
    requires
        a.len() == b.len(),
        0 <= i < a.len(),
        forall|j: int| 0 <= j < i ==> a[j] == b[j],
        a[i] < b[i],
    ensures
        lex_lt(a, b),
    decreases i,
{
    if i == 0 {
        assert(a.first() < b.first());
    } else {
        assert(a.first() == b.first());
        assert forall|j: int| 0 <= j < i - 1 implies a.drop_first()[j] == b.drop_first()[j] by {
            assert(a[j + 1] == b[j + 1]);
        }
        assert(a.drop_first()[i - 1] == a[i]);
        lemma_lex_lt_from_first_difference(a.drop_first(), b.drop_first(), i - 1);
    }
}

/// The order is asymmetric: no two strings are each below the other.
pub proof fn lemma_lex_lt_asymmetric(a: Seq<u8>, b: Seq<u8>)
    requires
        lex_lt(a, b),
    ensures
        !lex_lt(b, a),
    decreases a.len(),
{
    if a.len() != 0 && b.len() != 0 && a.first() == b.first() {
        lemma_lex_lt_asymmetric(a.drop_first(), b.drop_first());
    }
}

/// On equal lengths the order is total: distinct strings are comparable.
pub proof fn lemma_lex_lt_total(a: Seq<u8>, b: Seq<u8>)
    requires
        a.len() == b.len(),
        a != b,
    ensures
        lex_lt(a, b) || lex_lt(b, a),
    decreases a.len(),
{
    if a.len() == 0 {
        assert(a =~= b);
    } else if a.first() == b.first() {
        if a.drop_first() == b.drop_first() {
            assert forall|i: int| 0 <= i < a.len() implies a[i] == b[i] by {
                if i > 0 {
                    assert(a.drop_first()[i - 1] == b.drop_first()[i - 1]);
                }
            }
            assert(a =~= b);
        } else {
            lemma_lex_lt_total(a.drop_first(), b.drop_first());
        }
    }
}

/// Compares two byte strings of equal length; true when the left one spells
/// the strictly smaller big-endian integer.
pub fn lt_bytes(a: &[u8], b: &[u8]) -> (r: bool)
    requires
        a@.len() == b@.len(),
    ensures
        r == lex_lt(a@, b@),
{
    let n = a.len();
    for i in 0..n
        invariant
            n == a@.len(),
            n == b@.len(),
            forall|j: int| 0 <= j < i ==> a@[j] == b@[j],
    {
        if a[i] < b[i] {
            proof {
                lemma_lex_lt_from_first_difference(a@, b@, i as int);
            }
            return true;
        }
        if a[i] > b[i] {
            proof {
                lemma_lex_lt_from_first_difference(b@, a@, i as int);
                lemma_lex_lt_asymmetric(b@, a@);
            }
            return false;
        }
    }
    proof {
        assert(a@ =~= b@);
        if lex_lt(a@, b@) {
            lemma_lex_lt_asymmetric(a@, b@);
        }
    }
    false
}

/// True when every byte is zero. Used to reject the zero scalar.
pub fn all_zero(a: &[u8]) -> (r: bool)
    ensures
        r == is_zero_bytes(a@),
{
    let n = a.len();
    for i in 0..n
        invariant
            n == a@.len(),
            forall|j: int| 0 <= j < i ==> a@[j] == 0,
    {
        if a[i] != 0 {
            return false;
        }
    }
    true
}

/// Equality of two byte strings of equal length, computed without an early
/// exit: the mismatch bits of every position are folded into one
/// accumulator, so the path taken does not depend on where a first
/// mismatch lies.
pub fn constant_time_eq(a: &[u8], b: &[u8]) -> (r: bool)
    requires
        a@.len() == b@.len(),
    ensures
        r == (a@ == b@),
{
    let mut diff: u8 = 0;
    let n = a.len();
    for i in 0..n
        invariant
            n == a@.len(),
            n == b@.len(),
            (diff == 0) <==> (forall|j: int| 0 <= j < i ==> a@[j] == b@[j]),
    {
        let x = a[i];
        let y = b[i];
        let prev = diff;
        diff = diff | (x ^ y);
        proof {
            assert((prev | (x ^ y)) == 0 <==> prev == 0 && x == y) by (bit_vector);
        }
    }
    if diff == 0 {
        proof {
            assert(a@ =~= b@);
        }
        true
    } else {
        proof {
            assert(a@ != b@);
        }
        false
    }
}

} // verus!
