//! Signatures as they arrive on the wire: one scheme flag byte, the raw
//! signature, then the public key. The parser and the encoder are verified
//! against the encoding spelled out here; the recognized schemes fix the two
//! field lengths.

use vstd::prelude::*;
use vstd::slice::{slice_subrange, slice_to_vec};

verus! {

/// The signature and public-key lengths of a recognized scheme flag, or
/// `None` for an unrecognized flag. Flag 0 marks Ed25519, flag 1 marks
/// Secp256k1, flag 2 marks Secp256r1.
pub open spec fn scheme_lengths(flag: u8) -> Option<(nat, nat)> {
    if flag == 0 {
        Some(((64 as nat), (32 as nat)))
    } else if flag == 1 {
        Some(((64 as nat), (33 as nat)))
    } else if flag == 2 {
        Some(((64 as nat), (33 as nat)))
    } else {
        None
    }
}

/// The mathematical value of a decoded signature.
pub ghost struct SignatureView {
    pub flag: u8,
    pub signature: Seq<u8>,
    pub public_key: Seq<u8>,
}

impl SignatureView {
    /// A well-formed signature has a recognized flag and fields of the
    /// lengths that its scheme fixes.
    pub open spec fn wf(&self) -> bool {
        match scheme_lengths(self.flag) {
            Some(lens) => self.signature.len() == lens.0 && self.public_key.len() == lens.1,
            None => false,
        }
    }
}

/// A decoded signature: scheme flag, raw signature bytes, public-key bytes.
pub struct Signature {
    /// The scheme flag byte.
    pub flag: u8,
    /// The raw signature bytes.
    pub signature: Vec<u8>,
    /// The public-key bytes.
    pub public_key: Vec<u8>,
}

impl View for Signature {
    type V = SignatureView;

    open spec fn view(&self) -> SignatureView {
        SignatureView {
            flag: self.flag,
            signature: self.signature@,
            public_key: self.public_key@,
        }
    }
}

/// The wire form of a signature: flag, then signature, then public key.
pub open spec fn signature_encoding(s: SignatureView) -> Seq<u8> {
    seq![s.flag] + s.signature + s.public_key
}

/// True of byte strings that are the wire form of some well-formed signature.
pub open spec fn is_signature_encoding(b: Seq<u8>) -> bool {
    exists|s: SignatureView| s.wf() && b == signature_encoding(s)
}

/// The wire form is injective on well-formed signatures.
pub proof fn lemma_signature_encoding_injective(s1: SignatureView, s2: SignatureView)
    requires
        s1.wf(),
        s2.wf(),
        signature_encoding(s1) == signature_encoding(s2),
    ensures
        s1 == s2,
{
    let e1 = signature_encoding(s1);
    let e2 = signature_encoding(s2);
    assert(e1[0] == s1.flag && e2[0] == s2.flag) by {
        assert(e1 =~= seq![s1.flag] + (s1.signature + s1.public_key));
        assert(e2 =~= seq![s2.flag] + (s2.signature + s2.public_key));
    }
    assert(e1 =~= seq![s1.flag] + (s1.signature + s1.public_key));
    assert(e2 =~= seq![s2.flag] + (s2.signature + s2.public_key));
    crate::codec::lemma_concat_split(
        seq![s1.flag],
        s1.signature + s1.public_key,
        seq![s2.flag],
        s2.signature + s2.public_key,
    );
    crate::codec::lemma_concat_split(s1.signature, s1.public_key, s2.signature, s2.public_key);
}

/// Parses the wire form of a signature, accepting exactly the well-formed
/// encodings: a recognized flag followed by fields of the scheme's lengths,
/// with nothing missing and nothing trailing.
pub fn parse_signature(bytes: &Vec<u8>) -> (r: Option<Signature>)
    ensures
        r matches Some(s) ==> s@.wf() && bytes@ == signature_encoding(s@),
        r is None ==> !is_signature_encoding(bytes@),
        forall|s: SignatureView| s.wf() && bytes@ == signature_encoding(s) ==> (
        r matches Some(x) && x@ == s),
{
    proof {
        assert forall|s: SignatureView| s.wf() && bytes@ == signature_encoding(s) implies bytes@[0]
            == s.flag && bytes@.len() == 1 + s.signature.len() + s.public_key.len()
            && s.signature =~= bytes@.subrange(1, 1 + s.signature.len() as int)
            && s.public_key =~= bytes@.subrange(
            1 + s.signature.len() as int,
            bytes@.len() as int,
        ) by {
            assert(signature_encoding(s) =~= seq![s.flag] + (s.signature + s.public_key));
        }
    }
    if bytes.len() == 0 {
        return None;
    }
    let flag = bytes[0];
    let sig_len: usize;
    let pk_len: usize;
    if flag == 0 {
        sig_len = 64;
        pk_len = 32;
    } else if flag == 1 || flag == 2 {
        sig_len = 64;
        pk_len = 33;
    } else {
        return None;
    }
    if bytes.len() != 1 + sig_len + pk_len {
        return None;
    }
    let signature = slice_to_vec(slice_subrange(bytes.as_slice(), 1, 1 + sig_len));
    let public_key = slice_to_vec(slice_subrange(bytes.as_slice(), 1 + sig_len, bytes.len()));
    let out = Signature { flag, signature, public_key };
    proof {
        assert(bytes@ =~= signature_encoding(out@));
        assert forall|s: SignatureView| s.wf() && bytes@ == signature_encoding(s) implies out@
            == s by {
            lemma_signature_encoding_injective(out@, s);
        }
    }
    Some(out)
}

/// Writes a signature back into its wire form.
pub fn encode_signature(s: &Signature) -> (r: Vec<u8>)
    ensures
        r@ == signature_encoding(s@),
{
    let mut out: Vec<u8> = Vec::new();
    out.push(s.flag);
    proof {
        assert(out@ =~= seq![s.flag] + s.signature@.take(0));
    }
    let mut i: usize = 0;
    while i < s.signature.len()
        invariant
            i <= s.signature.len(),
            out@ == seq![s.flag] + s.signature@.take(i as int),
        decreases s.signature.len() - i,
    {
        out.push(s.signature[i]);
        proof {
            assert(seq![s.flag] + s.signature@.take(i as int) + seq![s.signature@[i as int]]
                =~= seq![s.flag] + s.signature@.take(i + 1));
        }
        i = i + 1;
    }
    assert(out@ == seq![s.flag] + s.signature@) by {
        assert(s.signature@.take(s.signature@.len() as int) =~= s.signature@);
    }
    proof {
        assert(out@ =~= seq![s.flag] + s.signature@ + s.public_key@.take(0));
    }
    let mut j: usize = 0;
    while j < s.public_key.len()
        invariant
            j <= s.public_key.len(),
            out@ == seq![s.flag] + s.signature@ + s.public_key@.take(j as int),
        decreases s.public_key.len() - j,
    {
        out.push(s.public_key[j]);
        proof {
            assert(seq![s.flag] + s.signature@ + s.public_key@.take(j as int) + seq![s.public_key@[j as int]]
                =~= seq![s.flag] + s.signature@ + s.public_key@.take(j + 1));
        }
        j = j + 1;
    }
    proof {
        assert(out@ =~= signature_encoding(s@)) by {
            assert(s.public_key@.take(s.public_key@.len() as int) =~= s.public_key@);
        }
    }
    out
}

} // verus!
