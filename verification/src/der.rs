//! DER encoding of raw ECDSA signatures.
//!
//! A raw signature is the two scalars r and s concatenated, each one field
//! element wide. Its interchange form is the ASN.1 DER structure
//! SEQUENCE { INTEGER r, INTEGER s } with minimal unsigned integer
//! encoding: leading zero bytes removed, and one zero byte prepended only
//! when the top bit would otherwise read as a sign bit.

use vstd::prelude::*;

use crate::EC_FIELD_SIZE;

verus! {

/// The big-endian bytes with every leading zero byte removed.
pub open spec fn min_bytes(b: Seq<u8>) -> Seq<u8>
    decreases b.len(),
{
    if b.len() > 0 && b.first() == 0 {
        min_bytes(b.drop_first())
    } else {
        b
    }
}

/// The DER INTEGER encoding of an unsigned big-endian value: tag, one
/// length byte, then the minimal content, which keeps a single zero byte
/// for the value zero and gains a leading zero byte when its first byte
/// has the top bit set.
pub open spec fn der_integer(b: Seq<u8>) -> Seq<u8> {
    let m = min_bytes(b);
    let content = if m.len() == 0 {
        seq![0u8]
    } else if m.first() >= 0x80 {
        seq![0u8] + m
    } else {
        m
    };
    seq![0x02u8, content.len() as u8] + content
}

/// The DER encoding of SEQUENCE { INTEGER r, INTEGER s } for a raw
/// signature, the two scalars concatenated.
pub open spec fn der_signature(raw: Seq<u8>) -> Seq<u8> {
    let r_part = der_integer(raw.take(EC_FIELD_SIZE as int));
    let s_part = der_integer(raw.skip(EC_FIELD_SIZE as int));
    seq![0x30u8, (r_part.len() + s_part.len()) as u8] + r_part + s_part
}

/// Stripping stops at the first byte that is not zero.
proof fn lemma_min_bytes_skip(b: Seq<u8>, i: int)
    requires
        0 <= i <= b.len(),
        forall|j: int| 0 <= j < i ==> b[j] == 0,
        i < b.len() ==> b[i] != 0,
    ensures
        min_bytes(b) == b.skip(i),
    decreases i,
{
    if i == 0 {
        assert(b.skip(0) =~= b);
    } else {
        assert(b.first() == 0);
        assert forall|j: int| 0 <= j < i - 1 implies b.drop_first()[j] == 0 by {
            assert(b[j + 1] == 0);
        }
        assert(i - 1 < b.drop_first().len() ==> b.drop_first()[i - 1] != 0);
        lemma_min_bytes_skip(b.drop_first(), i - 1);
        assert(b.drop_first().skip(i - 1) =~= b.skip(i));
    }
}

/// The minimal form is never longer than the value.
pub proof fn lemma_min_bytes_len(b: Seq<u8>)
    ensures
        min_bytes(b).len() <= b.len(),
    decreases b.len(),
{
    if b.len() > 0 && b.first() == 0 {
        lemma_min_bytes_len(b.drop_first());
    }
}

/// An encoded INTEGER spans at most the value's width plus tag, length
/// and a possible sign byte.
pub proof fn lemma_der_integer_len(b: Seq<u8>)
    ensures
        der_integer(b).len() <= b.len() + 3,
{
    lemma_min_bytes_len(b);
}

/// Appends the bytes of `b` from `from` on.
fn push_suffix(out: &mut Vec<u8>, b: &[u8], from: usize)
    requires
        from <= b@.len(),
    ensures
        final(out)@ == old(out)@ + b@.skip(from as int),
{
    let n = b.len();
    let mut j = from;
    proof {
        assert(out@ =~= out@ + b@.subrange(from as int, from as int));
    }
    while j < n
        invariant
            from <= j <= n,
            n == b@.len(),
            out@ == old(out)@ + b@.subrange(from as int, j as int),
        decreases n - j,
    {
        out.push(b[j]);
        j = j + 1;
        proof {
            assert(b@.subrange(from as int, j - 1) + seq![b@[j - 1]] =~= b@.subrange(
                from as int,
                j as int,
            ));
        }
    }
    proof {
        assert(b@.subrange(from as int, n as int) =~= b@.skip(from as int));
    }
}

/// Appends the DER INTEGER encoding of one fixed-width unsigned value.
pub fn push_der_integer(out: &mut Vec<u8>, b: &[u8])
    requires
        b@.len() <= 126,
    ensures
        final(out)@ == old(out)@ + der_integer(b@),
{
    let n = b.len();
    let mut i: usize = 0;
    while i < n && b[i] == 0
        invariant
            i <= n,
            n == b@.len(),
            forall|j: int| 0 <= j < i ==> b@[j] == 0,
        decreases n - i,
    {
        i = i + 1;
    }
    proof {
        lemma_min_bytes_skip(b@, i as int);
    }
    let m_len = n - i;
    if m_len == 0 {
        out.push(0x02);
        out.push(0x01);
        out.push(0x00);
        proof {
            assert(out@ =~= old(out)@ + der_integer(b@));
        }
    } else if b[i] >= 0x80 {
        out.push(0x02);
        out.push((m_len + 1) as u8);
        out.push(0x00);
        push_suffix(out, b, i);
        proof {
            assert(b@.skip(i as int).first() == b@[i as int]);
            assert(out@ =~= old(out)@ + der_integer(b@));
        }
    } else {
        out.push(0x02);
        out.push(m_len as u8);
        push_suffix(out, b, i);
        proof {
            assert(b@.skip(i as int).first() == b@[i as int]);
            assert(out@ =~= old(out)@ + der_integer(b@));
        }
    }
}

} // verus!
