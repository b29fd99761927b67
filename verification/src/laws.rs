//! Pipeline-wide laws that relate several stages, proved once and for all.

use vstd::prelude::*;
use crate::encoding::{b64_encode, lemma_b64_encode_injective};
use crate::tx::{TransactionDataView, tx_data_encoding, lemma_tx_data_encoding_injective};

verus! {

/// Round trip: when transaction text decodes — Base64 to binary, binary to a
/// well-formed payload — re-encoding the payload yields the identical binary
/// form, and re-encoding that yields the identical text. Both decoding steps
/// are unambiguous: no other binary form or payload fits the same text.
pub proof fn lemma_decode_reencode_round_trip(s: Seq<char>, b: Seq<u8>, t: TransactionDataView)
    requires
        s == b64_encode(b),
        t.wf(),
        b == tx_data_encoding(t),
    ensures
        b64_encode(tx_data_encoding(t)) == s,
        forall|b2: Seq<u8>| s == b64_encode(b2) ==> b2 == b,
        forall|t2: TransactionDataView| t2.wf() && b == tx_data_encoding(t2) ==> t2 == t,
{
    assert forall|b2: Seq<u8>| s == b64_encode(b2) implies b2 == b by {
        lemma_b64_encode_injective(b2, b);
    }
    assert forall|t2: TransactionDataView| t2.wf() && b == tx_data_encoding(t2) implies t2 == t by {
        lemma_tx_data_encoding_injective(t2, t);
    }
}

} // verus!
