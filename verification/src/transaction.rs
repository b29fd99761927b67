//! The signed transaction: the decoded payload together with its signatures.
//! Assembly is pure and total. The same shape also comes back from the
//! backend as binary-encoded bytes; the decoder here accepts exactly the
//! canonical encoding of a well-formed signed transaction.

use vstd::prelude::*;
use crate::codec::{uleb128, len_prefixed, max_sequence_length, lemma_concat_split,
    lemma_len_prefixed_prefix_free, lemma_uleb128_prefix_free};
use crate::sig::{Signature, SignatureView, signature_encoding, parse_signature};
use crate::tx::{TransactionData, TransactionDataView, tx_data_encoding};

verus! {

/// The mathematical value of a signed transaction.
pub ghost struct SignedTransactionView {
    pub data: TransactionDataView,
    pub signatures: Seq<SignatureView>,
}

impl SignedTransactionView {
    /// Well-formed: the payload is well-formed, every signature is, and the
    /// canonical encoding can carry the count.
    pub open spec fn wf(&self) -> bool {
        &&& self.data.wf()
        &&& self.signatures.len() <= max_sequence_length()
        &&& forall|i: int| 0 <= i < self.signatures.len() ==> (#[trigger] self.signatures[i]).wf()
    }
}

/// A transaction payload combined with the signatures that authorize it.
pub struct SignedTransaction {
    /// The decoded transaction payload.
    pub data: TransactionData,
    /// The signatures, in the order the caller supplied them.
    pub signatures: Vec<Signature>,
}

impl View for SignedTransaction {
    type V = SignedTransactionView;

    open spec fn view(&self) -> SignedTransactionView {
        SignedTransactionView {
            data: self.data@,
            signatures: self.signatures@.map_values(|s: Signature| s@),
        }
    }
}

impl SignedTransaction {
    /// Combines a payload and its signatures. Pure and total: malformed
    /// inputs were already rejected by the decoder, and an empty signature
    /// list is allowed — rejecting it is the backend's business.
    pub fn assemble(data: TransactionData, signatures: Vec<Signature>) -> (t: SignedTransaction)
        ensures
            t.data == data,
            t.signatures == signatures,
            t@.data == data@,
            t@.signatures.len() == signatures@.len(),
            forall|i: int| 0 <= i < signatures@.len() ==> t@.signatures[i] == signatures@[i]@,
    {
        let t = SignedTransaction { data, signatures };
        proof {
            assert(t@.signatures.len() == t.signatures@.len());
        }
        t
    }
}

/// The concatenated wire forms of a signature list, each length-prefixed.
pub open spec fn sigs_encoding(sigs: Seq<SignatureView>) -> Seq<u8>
    decreases sigs.len(),
{
    if sigs.len() == 0 {
        Seq::empty()
    } else {
        len_prefixed(signature_encoding(sigs[0])) + sigs_encoding(sigs.skip(1))
    }
}

/// The canonical binary encoding of a signed transaction: the payload's
/// encoding, then the signature count, then each signature length-prefixed.
pub open spec fn signed_tx_encoding(st: SignedTransactionView) -> Seq<u8> {
    tx_data_encoding(st.data) + uleb128(st.signatures.len()) + sigs_encoding(st.signatures)
}

/// True of byte strings that canonically encode a well-formed signed
/// transaction.
pub open spec fn is_signed_tx_encoding(b: Seq<u8>) -> bool {
    exists|st: SignedTransactionView| st.wf() && b == signed_tx_encoding(st)
}

/// The encoding of a transaction payload is prefix-free: equal
/// concatenations split into equal payloads and equal remainders.
pub proof fn lemma_tx_data_encoding_prefix_free(
    t1: TransactionDataView,
    x: Seq<u8>,
    t2: TransactionDataView,
    y: Seq<u8>,
)
    requires
        t1.wf(),
        t2.wf(),
        tx_data_encoding(t1) + x == tx_data_encoding(t2) + y,
    ensures
        t1 == t2,
        x == y,
{
    let r1 = crate::codec::le64(t1.gas_budget) + (crate::codec::le64(t1.gas_price)
        + (len_prefixed(t1.payload) + x));
    let r2 = crate::codec::le64(t2.gas_budget) + (crate::codec::le64(t2.gas_price)
        + (len_prefixed(t2.payload) + y));
    assert(tx_data_encoding(t1) + x =~= t1.sender + r1);
    assert(tx_data_encoding(t2) + y =~= t2.sender + r2);
    lemma_concat_split(t1.sender, r1, t2.sender, r2);
    lemma_concat_split(
        crate::codec::le64(t1.gas_budget),
        crate::codec::le64(t1.gas_price) + (len_prefixed(t1.payload) + x),
        crate::codec::le64(t2.gas_budget),
        crate::codec::le64(t2.gas_price) + (len_prefixed(t2.payload) + y),
    );
    lemma_concat_split(
        crate::codec::le64(t1.gas_price),
        len_prefixed(t1.payload) + x,
        crate::codec::le64(t2.gas_price),
        len_prefixed(t2.payload) + y,
    );
    crate::codec::lemma_le64_injective(t1.gas_budget, t2.gas_budget);
    crate::codec::lemma_le64_injective(t1.gas_price, t2.gas_price);
    lemma_len_prefixed_prefix_free(t1.payload, t2.payload, x, y);
}

/// Equally long signature lists with equal encodings are equal.
pub proof fn lemma_sigs_encoding_injective(s1: Seq<SignatureView>, s2: Seq<SignatureView>)
    requires
        s1.len() == s2.len(),
        forall|i: int| 0 <= i < s1.len() ==> (#[trigger] s1[i]).wf(),
        forall|i: int| 0 <= i < s2.len() ==> (#[trigger] s2[i]).wf(),
        sigs_encoding(s1) == sigs_encoding(s2),
    ensures
        s1 == s2,
    decreases s1.len(),
{
    if s1.len() == 0 {
        assert(s1 =~= s2);
    } else {
        lemma_len_prefixed_prefix_free(
            signature_encoding(s1[0]),
            signature_encoding(s2[0]),
            sigs_encoding(s1.skip(1)),
            sigs_encoding(s2.skip(1)),
        );
        crate::sig::lemma_signature_encoding_injective(s1[0], s2[0]);
        assert forall|i: int| 0 <= i < s1.skip(1).len() implies (#[trigger] s1.skip(1)[i]).wf() by {
            assert(s1.skip(1)[i] == s1[i + 1]);
        }
        assert forall|i: int| 0 <= i < s2.skip(1).len() implies (#[trigger] s2.skip(1)[i]).wf() by {
            assert(s2.skip(1)[i] == s2[i + 1]);
        }
        lemma_sigs_encoding_injective(s1.skip(1), s2.skip(1));
        assert forall|i: int| 0 <= i < s1.len() implies s1[i] == s2[i] by {
            if i > 0 {
                assert(s1[i] == s1.skip(1)[i - 1]);
                assert(s2[i] == s2.skip(1)[i - 1]);
            }
        }
        assert(s1 =~= s2);
    }
}

/// The concatenated, length-prefixed signature byte strings of the raw form.
pub open spec fn raw_sigs_encoding(sigs: Seq<Seq<u8>>) -> Seq<u8>
    decreases sigs.len(),
{
    if sigs.len() == 0 {
        Seq::empty()
    } else {
        len_prefixed(sigs[0]) + raw_sigs_encoding(sigs.skip(1))
    }
}

/// The canonical binary encoding of a payload plus raw signature byte
/// strings, before the signatures themselves are parsed.
pub open spec fn raw_signed_encoding(t: TransactionDataView, sigs: Seq<Seq<u8>>) -> Seq<u8> {
    tx_data_encoding(t) + uleb128(sigs.len()) + raw_sigs_encoding(sigs)
}

/// Well-formed raw form: the payload is well-formed and the encoding can
/// carry the signature count and each signature's length.
pub open spec fn wf_raw(t: TransactionDataView, sigs: Seq<Seq<u8>>) -> bool {
    &&& t.wf()
    &&& sigs.len() <= max_sequence_length()
    &&& forall|i: int| 0 <= i < sigs.len() ==> (#[trigger] sigs[i]).len() <= max_sequence_length()
}

/// True of byte strings that canonically encode some well-formed raw form.
pub open spec fn is_raw_signed_encoding(b: Seq<u8>) -> bool {
    exists|t: TransactionDataView, sigs: Seq<Seq<u8>>| wf_raw(t, sigs) && b == raw_signed_encoding(
        t,
        sigs,
    )
}

/// Relies on `bcs::from_bytes` (canonical BCS): a struct of a payload and a
/// list of byte strings decodes from exactly the canonical encoding — fields
/// in order, the list and each element prefixed with a canonical ULEB128
/// length capped at 2^31 - 1, and no trailing bytes.
#[verifier::external_body]
fn bcs_decode_raw_signed(bytes: &Vec<u8>) -> (r: Option<(TransactionData, Vec<Vec<u8>>)>)
    ensures
        r matches Some(v) ==> wf_raw(v.0@, v.1.deep_view()) && bytes@ == raw_signed_encoding(
            v.0@,
            v.1.deep_view(),
        ),
        is_raw_signed_encoding(bytes@) ==> r is Some,
{
    let (sender, gas_budget, gas_price, payload, sigs): (
        [u8; 32],
        u64,
        u64,
        Vec<u8>,
        Vec<Vec<u8>>,
    ) = match bcs::from_bytes(bytes) {
        Ok(v) => v,
        Err(_) => return None,
    };
    Some((TransactionData { sender: sender.to_vec(), gas_budget, gas_price, payload }, sigs))
}

/// Equal raw signature lists of equal count have equal encodings and back.
proof fn lemma_raw_sigs_encoding_injective(r1: Seq<Seq<u8>>, r2: Seq<Seq<u8>>)
    requires
        r1.len() == r2.len(),
        raw_sigs_encoding(r1) == raw_sigs_encoding(r2),
    ensures
        r1 == r2,
    decreases r1.len(),
{
    if r1.len() == 0 {
        assert(r1 =~= r2);
    } else {
        lemma_len_prefixed_prefix_free(
            r1[0],
            r2[0],
            raw_sigs_encoding(r1.skip(1)),
            raw_sigs_encoding(r2.skip(1)),
        );
        lemma_raw_sigs_encoding_injective(r1.skip(1), r2.skip(1));
        assert forall|i: int| 0 <= i < r1.len() implies r1[i] == r2[i] by {
            if i > 0 {
                assert(r1[i] == r1.skip(1)[i - 1]);
                assert(r2[i] == r2.skip(1)[i - 1]);
            }
        }
        assert(r1 =~= r2);
    }
}

/// The raw form's encoding is injective on well-formed values.
proof fn lemma_raw_signed_encoding_injective(
    t1: TransactionDataView,
    r1: Seq<Seq<u8>>,
    t2: TransactionDataView,
    r2: Seq<Seq<u8>>,
)
    requires
        wf_raw(t1, r1),
        wf_raw(t2, r2),
        raw_signed_encoding(t1, r1) == raw_signed_encoding(t2, r2),
    ensures
        t1 == t2,
        r1 == r2,
{
    assert(raw_signed_encoding(t1, r1) =~= tx_data_encoding(t1) + (uleb128(r1.len())
        + raw_sigs_encoding(r1)));
    assert(raw_signed_encoding(t2, r2) =~= tx_data_encoding(t2) + (uleb128(r2.len())
        + raw_sigs_encoding(r2)));
    lemma_tx_data_encoding_prefix_free(
        t1,
        uleb128(r1.len()) + raw_sigs_encoding(r1),
        t2,
        uleb128(r2.len()) + raw_sigs_encoding(r2),
    );
    lemma_uleb128_prefix_free(r1.len(), r2.len(), raw_sigs_encoding(r1), raw_sigs_encoding(r2));
    lemma_raw_sigs_encoding_injective(r1, r2);
}

/// Parsed signatures encode back to the raw byte strings they came from.
proof fn lemma_sigs_encoding_matches(svs: Seq<SignatureView>, raw: Seq<Seq<u8>>)
    requires
        raw.len() == svs.len(),
        forall|i: int| 0 <= i < raw.len() ==> raw[i] == signature_encoding(#[trigger] svs[i]),
    ensures
        raw_sigs_encoding(raw) == sigs_encoding(svs),
    decreases raw.len(),
{
    if raw.len() != 0 {
        assert forall|i: int| 0 <= i < raw.skip(1).len() implies raw.skip(1)[i]
            == signature_encoding(#[trigger] svs.skip(1)[i]) by {
            assert(raw.skip(1)[i] == raw[i + 1]);
            assert(svs.skip(1)[i] == svs[i + 1]);
        }
        lemma_sigs_encoding_matches(svs.skip(1), raw.skip(1));
        assert(raw[0] == signature_encoding(svs[0]));
    }
}

/// Decodes the canonical binary form of a signed transaction, accepting
/// exactly the canonical encodings of well-formed signed transactions.
pub fn decode_signed_transaction(bytes: &Vec<u8>) -> (r: Option<SignedTransaction>)
    ensures
        r matches Some(st) ==> st@.wf() && bytes@ == signed_tx_encoding(st@),
        r is None ==> !is_signed_tx_encoding(bytes@),
        forall|st: SignedTransactionView| st.wf() && bytes@ == signed_tx_encoding(st) ==> (
        r matches Some(x) && x@ == st),
{
    proof {
        assert forall|st: SignedTransactionView|
            st.wf() && bytes@ == signed_tx_encoding(st) implies is_raw_signed_encoding(bytes@)
            && wf_raw(
            st.data,
            st.signatures.map_values(|sv: SignatureView| signature_encoding(sv)),
        ) && bytes@ == raw_signed_encoding(
            st.data,
            st.signatures.map_values(|sv: SignatureView| signature_encoding(sv)),
        ) by {
            let raw = st.signatures.map_values(|sv: SignatureView| signature_encoding(sv));
            assert forall|i: int| 0 <= i < raw.len() implies (#[trigger] raw[i]).len()
                <= max_sequence_length() && raw[i] == signature_encoding(st.signatures[i]) by {
                assert(st.signatures[i].wf());
                assert(signature_encoding(st.signatures[i]) =~= seq![st.signatures[i].flag]
                    + (st.signatures[i].signature + st.signatures[i].public_key));
            }
            lemma_sigs_encoding_matches(st.signatures, raw);
            assert(wf_raw(st.data, raw));
            assert(bytes@ == raw_signed_encoding(st.data, raw));
            assert(is_raw_signed_encoding(bytes@));
        }
    }
    let decoded = bcs_decode_raw_signed(bytes);
    match decoded {
        None => None,
        Some((data, raw_sigs)) => {
            let ghost raw = raw_sigs.deep_view();
            let mut signatures: Vec<Signature> = Vec::new();
            let n: usize = raw_sigs.len();
            let mut i: usize = 0;
            while i < n
                invariant
                    i <= n,
                    n == raw_sigs@.len(),
                    raw == raw_sigs.deep_view(),
                    raw.len() == n,
                    wf_raw(data@, raw),
                    bytes@ == raw_signed_encoding(data@, raw),
                    signatures@.len() == i,
                    forall|j: int| 0 <= j < i ==> (#[trigger] signatures@[j])@.wf()
                        && signature_encoding(signatures@[j]@) == raw[j],
                decreases n - i,
            {
                proof {
                    assert(raw_sigs@[i as int]@ == raw[i as int]);
                }
                match parse_signature(&raw_sigs[i]) {
                    Some(s) => {
                        signatures.push(s);
                    },
                    None => {
                        proof {
                            lemma_no_signed_encoding_on_bad_sig(bytes@, data@, raw, i as int);
                        }
                        return None;
                    },
                }
                i = i + 1;
            }
            let st = SignedTransaction { data, signatures };
            proof {
                let svs = st@.signatures;
                assert(svs.len() == raw.len());
                assert forall|j: int| 0 <= j < raw.len() implies raw[j] == signature_encoding(
                    #[trigger] svs[j],
                ) by {
                    assert(svs[j] == st.signatures@[j]@);
                }
                lemma_sigs_encoding_matches(svs, raw);
                assert(st@.wf());
                assert(bytes@ == signed_tx_encoding(st@));
                assert forall|o: SignedTransactionView|
                    o.wf() && bytes@ == signed_tx_encoding(o) implies st@ == o by {
                    lemma_signed_tx_encoding_injective(st@, o);
                }
            }
            Some(st)
        },
    }
}

/// If one raw signature byte string is not a signature's wire form, the
/// whole byte string encodes no well-formed signed transaction.
proof fn lemma_no_signed_encoding_on_bad_sig(
    b: Seq<u8>,
    t: TransactionDataView,
    raw: Seq<Seq<u8>>,
    k: int,
)
    requires
        wf_raw(t, raw),
        b == raw_signed_encoding(t, raw),
        0 <= k < raw.len(),
        !crate::sig::is_signature_encoding(raw[k]),
    ensures
        !is_signed_tx_encoding(b),
{
    assert forall|st: SignedTransactionView| !(st.wf() && b == signed_tx_encoding(st)) by {
        if st.wf() && b == signed_tx_encoding(st) {
            let raw2 = st.signatures.map_values(|sv: SignatureView| signature_encoding(sv));
            assert forall|i: int| 0 <= i < raw2.len() implies (#[trigger] raw2[i]).len()
                <= max_sequence_length() && raw2[i] == signature_encoding(st.signatures[i]) by {
                assert(st.signatures[i].wf());
                assert(signature_encoding(st.signatures[i]) =~= seq![st.signatures[i].flag]
                    + (st.signatures[i].signature + st.signatures[i].public_key));
            }
            lemma_sigs_encoding_matches(st.signatures, raw2);
            lemma_raw_signed_encoding_injective(t, raw, st.data, raw2);
            assert(raw[k] == signature_encoding(st.signatures[k]));
            assert(st.signatures[k].wf());
            assert(false);
        }
    }
}

/// The canonical encoding of a signed transaction is injective on
/// well-formed values.
pub proof fn lemma_signed_tx_encoding_injective(
    st1: SignedTransactionView,
    st2: SignedTransactionView,
)
    requires
        st1.wf(),
        st2.wf(),
        signed_tx_encoding(st1) == signed_tx_encoding(st2),
    ensures
        st1 == st2,
{
    assert(signed_tx_encoding(st1) =~= tx_data_encoding(st1.data) + (uleb128(st1.signatures.len())
        + sigs_encoding(st1.signatures)));
    assert(signed_tx_encoding(st2) =~= tx_data_encoding(st2.data) + (uleb128(st2.signatures.len())
        + sigs_encoding(st2.signatures)));
    lemma_tx_data_encoding_prefix_free(
        st1.data,
        uleb128(st1.signatures.len()) + sigs_encoding(st1.signatures),
        st2.data,
        uleb128(st2.signatures.len()) + sigs_encoding(st2.signatures),
    );
    lemma_uleb128_prefix_free(
        st1.signatures.len(),
        st2.signatures.len(),
        sigs_encoding(st1.signatures),
        sigs_encoding(st2.signatures),
    );
    lemma_sigs_encoding_injective(st1.signatures, st2.signatures);
}

} // verus!
