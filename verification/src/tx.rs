//! The transaction payload the caller submits: its model as plain values and
//! its canonical binary encoding. The executable encoder and decoder rely on
//! an outside implementation of the canonical format; their contracts pin the
//! bytes down exactly, and the encoding is proved injective.

use vstd::prelude::*;
use crate::codec::{le64, len_prefixed, max_sequence_length, lemma_concat_split,
    lemma_le64_injective, lemma_len_prefixed_prefix_free};

verus! {

/// The mathematical value of a transaction payload.
pub ghost struct TransactionDataView {
    pub sender: Seq<u8>,
    pub gas_budget: u64,
    pub gas_price: u64,
    pub payload: Seq<u8>,
}

impl TransactionDataView {
    /// A well-formed payload has a 32-byte sender address and a payload that
    /// the canonical encoding can carry.
    pub open spec fn wf(&self) -> bool {
        &&& self.sender.len() == 32
        &&& self.payload.len() <= max_sequence_length()
    }
}

/// The unsigned transaction payload, decoded from the caller's bytes.
pub struct TransactionData {
    /// The 32-byte address of the sender.
    pub sender: Vec<u8>,
    /// The most gas the transaction may consume.
    pub gas_budget: u64,
    /// The price paid per unit of gas.
    pub gas_price: u64,
    /// The command payload, opaque to this pipeline.
    pub payload: Vec<u8>,
}

impl View for TransactionData {
    type V = TransactionDataView;

    open spec fn view(&self) -> TransactionDataView {
        TransactionDataView {
            sender: self.sender@,
            gas_budget: self.gas_budget,
            gas_price: self.gas_price,
            payload: self.payload@,
        }
    }
}

/// The canonical binary encoding of a transaction payload: the sender's 32
/// raw bytes, the two gas fields little-endian, and the length-prefixed
/// command payload.
pub open spec fn tx_data_encoding(t: TransactionDataView) -> Seq<u8> {
    t.sender + le64(t.gas_budget) + le64(t.gas_price) + len_prefixed(t.payload)
}

/// True of byte strings that canonically encode some well-formed payload.
pub open spec fn is_tx_data_encoding(b: Seq<u8>) -> bool {
    exists|t: TransactionDataView| t.wf() && b == tx_data_encoding(t)
}

/// Relies on `bcs::to_bytes` (canonical BCS): fields in order, a 32-byte
/// array as raw bytes, `u64` little-endian, `Vec<u8>` prefixed with its
/// canonical ULEB128 length.
#[verifier::external_body]
fn bcs_encode_transaction_data(t: &TransactionData) -> (r: Vec<u8>)
    requires
        t@.wf(),
    ensures
        r@ == tx_data_encoding(t@),
{
    let sender: [u8; 32] = t.sender.as_slice().try_into().unwrap();
    bcs::to_bytes(&(sender, t.gas_budget, t.gas_price, &t.payload)).unwrap()
}

/// Relies on `bcs::from_bytes` (canonical BCS): it accepts exactly the
/// canonical encoding, rejecting non-canonical ULEB128 lengths, lengths over
/// 2^31 - 1, short input, and trailing bytes.
#[verifier::external_body]
fn bcs_decode_transaction_data(bytes: &Vec<u8>) -> (r: Option<TransactionData>)
    ensures
        r matches Some(t) ==> t@.wf() && bytes@ == tx_data_encoding(t@),
        is_tx_data_encoding(bytes@) ==> r is Some,
{
    let (sender, gas_budget, gas_price, payload): ([u8; 32], u64, u64, Vec<u8>) =
        match bcs::from_bytes(bytes) {
            Ok(v) => v,
            Err(_) => return None,
        };
    Some(TransactionData { sender: sender.to_vec(), gas_budget, gas_price, payload })
}

/// The canonical encoding is injective: equal encodings of well-formed
/// payloads come from equal payloads.
pub proof fn lemma_tx_data_encoding_injective(t1: TransactionDataView, t2: TransactionDataView)
    requires
        t1.wf(),
        t2.wf(),
        tx_data_encoding(t1) == tx_data_encoding(t2),
    ensures
        t1 == t2,
{
    let r1 = le64(t1.gas_budget) + (le64(t1.gas_price) + len_prefixed(t1.payload));
    let r2 = le64(t2.gas_budget) + (le64(t2.gas_price) + len_prefixed(t2.payload));
    assert(tx_data_encoding(t1) =~= t1.sender + r1);
    assert(tx_data_encoding(t2) =~= t2.sender + r2);
    lemma_concat_split(t1.sender, r1, t2.sender, r2);
    lemma_concat_split(
        le64(t1.gas_budget),
        le64(t1.gas_price) + len_prefixed(t1.payload),
        le64(t2.gas_budget),
        le64(t2.gas_price) + len_prefixed(t2.payload),
    );
    lemma_concat_split(
        le64(t1.gas_price),
        len_prefixed(t1.payload),
        le64(t2.gas_price),
        len_prefixed(t2.payload),
    );
    lemma_le64_injective(t1.gas_budget, t2.gas_budget);
    lemma_le64_injective(t1.gas_price, t2.gas_price);
    assert(len_prefixed(t1.payload) + Seq::<u8>::empty() =~= len_prefixed(t1.payload));
    assert(len_prefixed(t2.payload) + Seq::<u8>::empty() =~= len_prefixed(t2.payload));
    lemma_len_prefixed_prefix_free(t1.payload, t2.payload, Seq::empty(), Seq::empty());
}

/// Encodes a transaction payload in the canonical binary form.
pub fn encode_transaction_data(t: &TransactionData) -> (r: Vec<u8>)
    requires
        t@.wf(),
    ensures
        r@ == tx_data_encoding(t@),
{
    bcs_encode_transaction_data(t)
}

/// Decodes the canonical binary form of a transaction payload, accepting
/// exactly the canonical encodings of well-formed payloads.
pub fn decode_transaction_data(bytes: &Vec<u8>) -> (r: Option<TransactionData>)
    ensures
        r matches Some(t) ==> t@.wf() && bytes@ == tx_data_encoding(t@),
        r is None ==> !is_tx_data_encoding(bytes@),
        forall|t: TransactionDataView| t.wf() && bytes@ == tx_data_encoding(t) ==> (
        r matches Some(x) && x@ == t),
{
    let r = bcs_decode_transaction_data(bytes);
    proof {
        if r is Some {
            assert forall|t: TransactionDataView|
                t.wf() && bytes@ == tx_data_encoding(t) implies r matches Some(x) && x@ == t by {
                lemma_tx_data_encoding_injective(r->Some_0@, t);
            }
        }
    }
    r
}

} // verus!
