//! The execution effects the backend reports: an opaque digest-bearing
//! record, decoded from its canonical binary form. The decoder accepts
//! exactly the canonical encoding.

use vstd::prelude::*;
use crate::codec::{le64, lemma_concat_split, lemma_le64_injective};

verus! {

/// The mathematical value of a decoded effects record.
pub ghost struct TransactionEffectsView {
    pub executed_epoch: u64,
    pub digest: Seq<u8>,
}

impl TransactionEffectsView {
    /// A well-formed effects record carries a 32-byte digest.
    pub open spec fn wf(&self) -> bool {
        self.digest.len() == 32
    }
}

/// The state changes of one finalized transaction, as far as the pipeline
/// reads them: the epoch of execution and the effects digest, which is
/// present verbatim whenever the backend reports success.
pub struct TransactionEffects {
    /// The epoch in which the transaction executed.
    pub executed_epoch: u64,
    /// The 32-byte effects digest.
    pub digest: Vec<u8>,
}

impl View for TransactionEffects {
    type V = TransactionEffectsView;

    open spec fn view(&self) -> TransactionEffectsView {
        TransactionEffectsView { executed_epoch: self.executed_epoch, digest: self.digest@ }
    }
}

/// The canonical binary encoding of an effects record: the epoch
/// little-endian, then the raw digest bytes.
pub open spec fn effects_encoding(e: TransactionEffectsView) -> Seq<u8> {
    le64(e.executed_epoch) + e.digest
}

/// True of byte strings that canonically encode a well-formed effects record.
pub open spec fn is_effects_encoding(b: Seq<u8>) -> bool {
    exists|e: TransactionEffectsView| e.wf() && b == effects_encoding(e)
}

/// Relies on `bcs::from_bytes` (canonical BCS): a `u64` is eight
/// little-endian bytes, a 32-byte array is its raw bytes, and trailing bytes
/// are rejected.
#[verifier::external_body]
fn bcs_decode_effects(bytes: &Vec<u8>) -> (r: Option<TransactionEffects>)
    ensures
        r matches Some(e) ==> e@.wf() && bytes@ == effects_encoding(e@),
        is_effects_encoding(bytes@) ==> r is Some,
{
    let (executed_epoch, digest): (u64, [u8; 32]) = match bcs::from_bytes(bytes) {
        Ok(v) => v,
        Err(_) => return None,
    };
    Some(TransactionEffects { executed_epoch, digest: digest.to_vec() })
}

/// The canonical encoding of effects is injective on well-formed records.
pub proof fn lemma_effects_encoding_injective(
    e1: TransactionEffectsView,
    e2: TransactionEffectsView,
)
    requires
        e1.wf(),
        e2.wf(),
        effects_encoding(e1) == effects_encoding(e2),
    ensures
        e1 == e2,
{
    lemma_concat_split(le64(e1.executed_epoch), e1.digest, le64(e2.executed_epoch), e2.digest);
    lemma_le64_injective(e1.executed_epoch, e2.executed_epoch);
}

/// Decodes the canonical binary form of an effects record, accepting exactly
/// the canonical encodings of well-formed records.
pub fn decode_effects(bytes: &Vec<u8>) -> (r: Option<TransactionEffects>)
    ensures
        r matches Some(e) ==> e@.wf() && bytes@ == effects_encoding(e@),
        r is None ==> !is_effects_encoding(bytes@),
        forall|e: TransactionEffectsView| e.wf() && bytes@ == effects_encoding(e) ==> (
        r matches Some(x) && x@ == e),
{
    let r = bcs_decode_effects(bytes);
    proof {
        if r is Some {
            assert forall|e: TransactionEffectsView|
                e.wf() && bytes@ == effects_encoding(e) implies r matches Some(x) && x@ == e by {
                lemma_effects_encoding_injective(r->Some_0@, e);
            }
        }
    }
    r
}

} // verus!
