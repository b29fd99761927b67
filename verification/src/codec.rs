//! The byte-level building blocks of the canonical binary encoding the
//! pipeline speaks: little-endian integers, canonical ULEB128 lengths, and
//! length-prefixed byte strings. Contracts of the decoding wrappers and of
//! the pipeline's stages are stated in terms of these functions.

use vstd::prelude::*;

verus! {

/// The largest sequence length the canonical binary encoding admits.
pub open spec fn max_sequence_length() -> nat {
    0x7fff_ffff
}

/// The eight little-endian bytes of a 64-bit integer.
pub open spec fn le64(n: u64) -> Seq<u8> {
    seq![
        (n & 0xff) as u8,
        ((n >> 8) & 0xff) as u8,
        ((n >> 16) & 0xff) as u8,
        ((n >> 24) & 0xff) as u8,
        ((n >> 32) & 0xff) as u8,
        ((n >> 40) & 0xff) as u8,
        ((n >> 48) & 0xff) as u8,
        ((n >> 56) & 0xff) as u8,
    ]
}

/// The canonical ULEB128 encoding of a natural number: seven bits per byte,
/// least significant first, the high bit marking continuation, and no
/// trailing zero digit.
pub open spec fn uleb128(n: nat) -> Seq<u8>
    decreases n,
{
    if n < 0x80 {
        seq![n as u8]
    } else {
        seq![(0x80 + (n % 0x80)) as u8] + uleb128(n / 0x80)
    }
}

/// A byte string preceded by its canonical ULEB128 length.
pub open spec fn len_prefixed(b: Seq<u8>) -> Seq<u8> {
    uleb128(b.len()) + b
}

/// Concatenations with equally long left parts split into equal parts.
pub proof fn lemma_concat_split(s1: Seq<u8>, t1: Seq<u8>, s2: Seq<u8>, t2: Seq<u8>)
    requires
        s1 + t1 == s2 + t2,
        s1.len() == s2.len(),
    ensures
        s1 == s2,
        t1 == t2,
{
    assert(t1.len() == t2.len()) by {
        assert((s1 + t1).len() == s1.len() + t1.len());
        assert((s2 + t2).len() == s2.len() + t2.len());
    }
    assert forall|i: int| 0 <= i < s1.len() implies s1[i] == s2[i] by {
        assert(s1[i] == (s1 + t1)[i]);
        assert(s2[i] == (s2 + t2)[i]);
        assert((s1 + t1)[i] == (s2 + t2)[i]);
    }
    assert(s1 =~= s2);
    assert forall|i: int| 0 <= i < t1.len() implies t1[i] == t2[i] by {
        assert(t1[i] == (s1 + t1)[i + s1.len()]);
        assert(t2[i] == (s2 + t2)[i + s2.len()]);
        assert((s1 + t1)[i + s1.len()] == (s2 + t2)[i + s2.len()]);
    }
    assert(t1 =~= t2);
}

/// Two equal 64-bit little-endian byte strings come from the same integer.
pub proof fn lemma_le64_injective(m: u64, n: u64)
    requires
        le64(m) == le64(n),
    ensures
        m == n,
{
    assert(le64(m)[0] == le64(n)[0] && le64(m)[1] == le64(n)[1] && le64(m)[2] == le64(n)[2]
        && le64(m)[3] == le64(n)[3] && le64(m)[4] == le64(n)[4] && le64(m)[5] == le64(n)[5]
        && le64(m)[6] == le64(n)[6] && le64(m)[7] == le64(n)[7]);
    assert(m == n) by (bit_vector)
        requires
            (m & 0xff) as u8 == (n & 0xff) as u8,
            ((m >> 8) & 0xff) as u8 == ((n >> 8) & 0xff) as u8,
            ((m >> 16) & 0xff) as u8 == ((n >> 16) & 0xff) as u8,
            ((m >> 24) & 0xff) as u8 == ((n >> 24) & 0xff) as u8,
            ((m >> 32) & 0xff) as u8 == ((n >> 32) & 0xff) as u8,
            ((m >> 40) & 0xff) as u8 == ((n >> 40) & 0xff) as u8,
            ((m >> 48) & 0xff) as u8 == ((n >> 48) & 0xff) as u8,
            ((m >> 56) & 0xff) as u8 == ((n >> 56) & 0xff) as u8,
    ;
}

/// Canonical ULEB128 is prefix-free: if two encodings start equal byte
/// strings, the encoded numbers and the remainders agree.
pub proof fn lemma_uleb128_prefix_free(m: nat, n: nat, x: Seq<u8>, y: Seq<u8>)
    requires
        uleb128(m) + x == uleb128(n) + y,
    ensures
        m == n,
        x == y,
    decreases m,
{
    let um = uleb128(m);
    let un = uleb128(n);
    assert((um + x)[0] == (un + y)[0]);
    if m < 0x80 && n < 0x80 {
        assert(m == n);
        lemma_concat_split(um, x, un, y);
    } else if m >= 0x80 && n >= 0x80 {
        assert(um[0] == (0x80 + (m % 0x80)) as u8);
        assert(un[0] == (0x80 + (n % 0x80)) as u8);
        assert(m % 0x80 < 0x80 && n % 0x80 < 0x80);
        assert(m % 0x80 == n % 0x80);
        let hm = (0x80 + (m % 0x80)) as u8;
        let hn = (0x80 + (n % 0x80)) as u8;
        assert(um =~= seq![hm] + uleb128(m / 0x80));
        assert(un =~= seq![hn] + uleb128(n / 0x80));
        assert(um + x =~= seq![hm] + (uleb128(m / 0x80) + x));
        assert(un + y =~= seq![hn] + (uleb128(n / 0x80) + y));
        lemma_concat_split(seq![hm], uleb128(m / 0x80) + x, seq![hn], uleb128(n / 0x80) + y);
        lemma_uleb128_prefix_free(m / 0x80, n / 0x80, x, y);
        assert(m == 0x80 * (m / 0x80) + m % 0x80);
        assert(n == 0x80 * (n / 0x80) + n % 0x80);
    } else if m < 0x80 {
        assert(um[0] == m as u8 && (m as u8) < 0x80);
        assert(un[0] == (0x80 + (n % 0x80)) as u8);
        assert(n % 0x80 < 0x80);
        assert(false);
    } else {
        assert(un[0] == n as u8 && (n as u8) < 0x80);
        assert(um[0] == (0x80 + (m % 0x80)) as u8);
        assert(m % 0x80 < 0x80);
        assert(false);
    }
}

/// Length-prefixed byte strings are prefix-free: equal concatenations split
/// into equal payloads and equal remainders.
pub proof fn lemma_len_prefixed_prefix_free(p1: Seq<u8>, p2: Seq<u8>, x: Seq<u8>, y: Seq<u8>)
    requires
        len_prefixed(p1) + x == len_prefixed(p2) + y,
    ensures
        p1 == p2,
        x == y,
{
    assert(uleb128(p1.len()) + (p1 + x) =~= len_prefixed(p1) + x);
    assert(uleb128(p2.len()) + (p2 + y) =~= len_prefixed(p2) + y);
    lemma_uleb128_prefix_free(p1.len(), p2.len(), p1 + x, p2 + y);
    lemma_concat_split(p1, x, p2, y);
}

} // verus!

