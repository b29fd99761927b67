//! Base64 text encoding: the wire format of the pipeline's input. The spec
//! function `b64_encode` defines the canonical padded encoding with the
//! standard alphabet; the executable functions rely on an outside
//! implementation that accepts exactly that canonical form.

use vstd::prelude::*;
use fastcrypto::encoding::Base64;
use fastcrypto::encoding::Encoding;

verus! {

/// The character of one six-bit group under the standard Base64 alphabet.
pub open spec fn b64_digit(v: u8) -> char
    recommends
        v < 64,
{
    if v < 26 {
        ((65 + v) as u8) as char  // 'A'..='Z'
    } else if v < 52 {
        ((71 + v) as u8) as char  // 'a'..='z'
    } else if v < 62 {
        ((v - 4) as u8) as char  // '0'..='9'
    } else if v == 62 {
        '+'
    } else {
        '/'
    }
}

/// The canonical padded Base64 encoding of a byte string: three bytes become
/// four alphabet characters; a final quantum of one or two bytes is padded
/// with `=` and its unused low bits are zero.
pub open spec fn b64_encode(bytes: Seq<u8>) -> Seq<char>
    decreases bytes.len(),
{
    if bytes.len() == 0 {
        Seq::empty()
    } else if bytes.len() == 1 {
        let b0 = bytes[0];
        seq![b64_digit(b0 >> 2), b64_digit((b0 & 0x3) << 4), '=', '=']
    } else if bytes.len() == 2 {
        let b0 = bytes[0];
        let b1 = bytes[1];
        seq![
            b64_digit(b0 >> 2),
            b64_digit(((b0 & 0x3) << 4) | (b1 >> 4)),
            b64_digit((b1 & 0xf) << 2),
            '=',
        ]
    } else {
        let b0 = bytes[0];
        let b1 = bytes[1];
        let b2 = bytes[2];
        seq![
            b64_digit(b0 >> 2),
            b64_digit(((b0 & 0x3) << 4) | (b1 >> 4)),
            b64_digit(((b1 & 0xf) << 2) | (b2 >> 6)),
            b64_digit(b2 & 0x3f),
        ] + b64_encode(bytes.skip(3))
    }
}

/// True of strings that are the canonical Base64 encoding of some byte string.
pub open spec fn is_b64(s: Seq<char>) -> bool {
    exists|b: Seq<u8>| s == b64_encode(b)
}

/// Relies on `fastcrypto::encoding::Base64::encode` (base64ct, standard
/// alphabet, padded): it produces the canonical encoding.
#[verifier::external_body]
fn base64_encode_raw(bytes: &Vec<u8>) -> (r: String)
    requires
        bytes@.len() <= 0x1000_0000_0000_0000,
    ensures
        r@ == b64_encode(bytes@),
{
    Base64::encode(bytes)
}

/// Relies on `fastcrypto::encoding::Base64::decode` (base64ct, standard
/// alphabet, padded): it re-encodes the final block and compares, so it
/// succeeds exactly on the canonical encoding of some byte string, and then
/// returns that byte string.
#[verifier::external_body]
fn base64_decode_raw(s: &str) -> (r: Option<Vec<u8>>)
    ensures
        r matches Some(b) ==> s@ == b64_encode(b@),
        is_b64(s@) ==> r is Some,
{
    Base64::decode(s).ok()
}

/// Two distinct six-bit groups have distinct alphabet characters.
proof fn lemma_b64_digit_injective(v: u8, w: u8)
    requires
        v < 64,
        w < 64,
        b64_digit(v) == b64_digit(w),
    ensures
        v == w,
{
}

/// No alphabet character is the padding character.
proof fn lemma_b64_digit_not_pad(v: u8)
    requires
        v < 64,
    ensures
        b64_digit(v) != '=',
{
}

/// The first encoded quantum of a non-empty byte string, spelled out.
proof fn lemma_b64_head(a: Seq<u8>)
    requires
        a.len() > 0,
    ensures
        b64_encode(a).len() >= 4,
        b64_encode(a)[0] == b64_digit(a[0] >> 2),
        a.len() == 1 ==> b64_encode(a)[1] == b64_digit((a[0] & 0x3) << 4)
            && b64_encode(a)[2] == '=' && b64_encode(a)[3] == '=',
        a.len() == 2 ==> b64_encode(a)[1] == b64_digit(((a[0] & 0x3) << 4) | (a[1] >> 4))
            && b64_encode(a)[2] == b64_digit((a[1] & 0xf) << 2) && b64_encode(a)[3] == '=',
        a.len() >= 3 ==> b64_encode(a)[1] == b64_digit(((a[0] & 0x3) << 4) | (a[1] >> 4))
            && b64_encode(a)[2] == b64_digit(((a[1] & 0xf) << 2) | (a[2] >> 6))
            && b64_encode(a)[3] == b64_digit(a[2] & 0x3f),
{
}

/// All six-bit groups drawn from bytes stay below 64.
proof fn lemma_b64_group_bounds(x: u8, y: u8)
    ensures
        x >> 2 < 64,
        (x & 0x3) << 4 < 64,
        ((x & 0x3) << 4) | (y >> 4) < 64,
        (x & 0xf) << 2 < 64,
        ((x & 0xf) << 2) | (y >> 6) < 64,
        x & 0x3f < 64,
{
    assert(x >> 2 < 64 && (x & 0x3) << 4 < 64 && (((x & 0x3) << 4) | (y >> 4)) < 64 && (x
        & 0xf) << 2 < 64 && (((x & 0xf) << 2) | (y >> 6)) < 64 && x & 0x3f < 64) by (bit_vector);
}

/// The canonical Base64 encoding is injective: equal encodings come from
/// equal byte strings.
pub proof fn lemma_b64_encode_injective(a: Seq<u8>, b: Seq<u8>)
    requires
        b64_encode(a) == b64_encode(b),
    ensures
        a == b,
    decreases a.len(),
{
    let ea = b64_encode(a);
    let eb = b64_encode(b);
    if a.len() == 0 || b.len() == 0 {
        if a.len() != 0 {
            lemma_b64_head(a);
        }
        if b.len() != 0 {
            lemma_b64_head(b);
        }
        assert(a =~= b);
    } else {
        lemma_same_final_quantum(a, b);
        lemma_b64_head(a);
        lemma_b64_head(b);
        let a0 = a[0];
        let b0 = b[0];
        lemma_b64_group_bounds(a0, if a.len() == 1 { 0 } else { a[1] });
        lemma_b64_group_bounds(b0, if b.len() == 1 { 0 } else { b[1] });
        if a.len() == 1 {
            lemma_b64_digit_injective(a0 >> 2, b0 >> 2);
            lemma_b64_digit_injective((a0 & 0x3) << 4, (b0 & 0x3) << 4);
            assert(a0 == b0) by (bit_vector)
                requires
                    a0 >> 2 == b0 >> 2,
                    (a0 & 0x3) << 4 == (b0 & 0x3) << 4,
            ;
            assert(a =~= b);
        } else if a.len() == 2 {
            let a1 = a[1];
            let b1 = b[1];
            lemma_b64_group_bounds(a1, 0);
            lemma_b64_group_bounds(b1, 0);
            lemma_b64_digit_injective(a0 >> 2, b0 >> 2);
            lemma_b64_digit_injective(
                ((a0 & 0x3) << 4) | (a1 >> 4),
                ((b0 & 0x3) << 4) | (b1 >> 4),
            );
            lemma_b64_digit_injective((a1 & 0xf) << 2, (b1 & 0xf) << 2);
            assert(a0 == b0 && a1 == b1) by (bit_vector)
                requires
                    a0 >> 2 == b0 >> 2,
                    ((a0 & 0x3) << 4) | (a1 >> 4) == ((b0 & 0x3) << 4) | (b1 >> 4),
                    (a1 & 0xf) << 2 == (b1 & 0xf) << 2,
            ;
            assert(a =~= b);
        } else {
            let a1 = a[1];
            let b1 = b[1];
            let a2 = a[2];
            let b2 = b[2];
            lemma_b64_group_bounds(a1, a2);
            lemma_b64_group_bounds(b1, b2);
            lemma_b64_group_bounds(a2, 0);
            lemma_b64_group_bounds(b2, 0);
            lemma_b64_digit_injective(a0 >> 2, b0 >> 2);
            lemma_b64_digit_injective(
                ((a0 & 0x3) << 4) | (a1 >> 4),
                ((b0 & 0x3) << 4) | (b1 >> 4),
            );
            lemma_b64_digit_injective(
                ((a1 & 0xf) << 2) | (a2 >> 6),
                ((b1 & 0xf) << 2) | (b2 >> 6),
            );
            lemma_b64_digit_injective(a2 & 0x3f, b2 & 0x3f);
            assert(a0 == b0 && a1 == b1 && a2 == b2) by (bit_vector)
                requires
                    a0 >> 2 == b0 >> 2,
                    ((a0 & 0x3) << 4) | (a1 >> 4) == ((b0 & 0x3) << 4) | (b1 >> 4),
                    ((a1 & 0xf) << 2) | (a2 >> 6) == ((b1 & 0xf) << 2) | (b2 >> 6),
                    a2 & 0x3f == b2 & 0x3f,
            ;
            assert(b64_encode(a.skip(3)) =~= b64_encode(b.skip(3))) by {
                assert forall|i: int| 0 <= i < b64_encode(a.skip(3)).len() implies b64_encode(
                    a.skip(3),
                )[i] == b64_encode(b.skip(3))[i] by {
                    assert(ea[i + 4] == eb[i + 4]);
                }
            }
            lemma_b64_encode_injective(a.skip(3), b.skip(3));
            assert(a.skip(3) =~= b.skip(3));
            assert forall|i: int| 0 <= i < a.len() implies a[i] == b[i] by {
                if i >= 3 {
                    assert(a[i] == a.skip(3)[i - 3]);
                    assert(b[i] == b.skip(3)[i - 3]);
                }
            }
            assert(a =~= b);
        }
    }
}

/// Two byte strings with equal encodings agree on whether their final
/// quantum holds one, two, or three-or-more bytes: the padding characters in
/// the first four encoded characters tell the cases apart.
proof fn lemma_same_final_quantum(a: Seq<u8>, b: Seq<u8>)
    requires
        a.len() > 0,
        b.len() > 0,
        b64_encode(a) == b64_encode(b),
    ensures
        a.len() == 1 <==> b.len() == 1,
        a.len() == 2 <==> b.len() == 2,
{
    let ea = b64_encode(a);
    let eb = b64_encode(b);
    lemma_b64_head(a);
    lemma_b64_head(b);
    if a.len() >= 2 {
        lemma_b64_group_bounds(a[1], if a.len() == 2 { 0 } else { a[2] });
    }
    if b.len() >= 2 {
        lemma_b64_group_bounds(b[1], if b.len() == 2 { 0 } else { b[2] });
    }
    if a.len() >= 3 {
        lemma_b64_group_bounds(a[2], 0);
    }
    if b.len() >= 3 {
        lemma_b64_group_bounds(b[2], 0);
    }
    if a.len() == 1 && b.len() == 2 {
        lemma_b64_digit_not_pad((b[1] & 0xf) << 2);
    } else if a.len() == 2 && b.len() == 1 {
        lemma_b64_digit_not_pad((a[1] & 0xf) << 2);
    } else if a.len() == 1 && b.len() >= 3 {
        lemma_b64_digit_not_pad(((b[1] & 0xf) << 2) | (b[2] >> 6));
    } else if a.len() >= 3 && b.len() == 1 {
        lemma_b64_digit_not_pad(((a[1] & 0xf) << 2) | (a[2] >> 6));
    } else if a.len() == 2 && b.len() >= 3 {
        lemma_b64_digit_not_pad(b[2] & 0x3f);
    } else if a.len() >= 3 && b.len() == 2 {
        lemma_b64_digit_not_pad(a[2] & 0x3f);
    }
}

/// Encodes bytes as canonical padded Base64 text.
pub fn encode_base64(bytes: &Vec<u8>) -> (r: String)
    requires
        bytes@.len() <= 0x1000_0000_0000_0000,
    ensures
        r@ == b64_encode(bytes@),
{
    base64_encode_raw(bytes)
}

/// Decodes Base64 text, accepting exactly the canonical padded form.
pub fn decode_base64(s: &str) -> (r: Option<Vec<u8>>)
    ensures
        r matches Some(b) ==> s@ == b64_encode(b@),
        r is None ==> !is_b64(s@),
        forall|b: Seq<u8>| s@ == b64_encode(b) ==> (r matches Some(v) && v@ == b),
{
    let r = base64_decode_raw(s);
    proof {
        if r is Some {
            assert forall|b: Seq<u8>| s@ == b64_encode(b) implies r matches Some(v) && v@
                == b by {
                lemma_b64_encode_injective(r->Some_0@, b);
            }
        }
    }
    r
}

} // verus!
